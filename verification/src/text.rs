//! Character-level helpers shared by the rest of the crate: decimal
//! rendering, string comparison and substring replacement.

use vstd::prelude::*;

verus! {

broadcast use vstd::string::group_string_axioms;

/// Appends one character to a string (std `String::push`).
#[verifier::external_body]
pub(crate) fn push_char(s: &mut String, c: char)
    ensures
        final(s)@ == old(s)@.push(c),
{
    s.push(c);
}

/// The characters of `s`, in order.
pub fn chars_of(s: &str) -> (v: Vec<char>)
    ensures
        v@ == s@,
{
    let mut v: Vec<char> = Vec::new();
    for c in it: s.chars()
        invariant
            v@ == it.seq().take(it.index() as int),
            it.seq() == s@,
    {
        v.push(c);
    }
    v
}


/// Whether two strings hold the same characters.
pub fn str_eq(a: &str, b: &str) -> (r: bool)
    ensures
        r == (a@ == b@),
{
    let x: String = a.to_string();
    let y: String = b.to_string();
    x == y
}

/// How std's `Debug` writes a string: quoted, with escapes.
pub uninterp spec fn debug_str(s: Seq<char>) -> Seq<char>;

/// `format!("{:?}", s)`: std's `Debug` form of a string slice.  Its result
/// is claimed to be a function of the characters of `s` alone
/// (`debug_str`); which escapes std writes is left unsaid.
#[verifier::external_body]
pub(crate) fn debug_quoted(s: &str) -> (r: String)
    ensures
        r@ == debug_str(s@),
{
    format!("{:?}", s)
}

/// The parts joined by `sep`.
pub open spec fn join_with(parts: Seq<Seq<char>>, sep: Seq<char>) -> Seq<char>
    decreases parts.len(),
{
    if parts.len() == 0 {
        Seq::empty()
    } else if parts.len() == 1 {
        parts[0]
    } else {
        join_with(parts.drop_last(), sep) + sep + parts.last()
    }
}

/// Joining one more part appends the separator and the part.
pub proof fn lemma_join_with_push(parts: Seq<Seq<char>>, i: int, sep: Seq<char>)
    requires
        0 <= i < parts.len(),
    ensures
        join_with(parts.take(i + 1), sep) == if i == 0 {
            parts[i]
        } else {
            join_with(parts.take(i), sep) + sep + parts[i]
        },
{
    assert(parts.take(i + 1).drop_last() =~= parts.take(i));
}

/// The character of the decimal digit `d`.
pub open spec fn digit_char(d: int) -> char {
    seq!['0', '1', '2', '3', '4', '5', '6', '7', '8', '9'][d]
}

/// The shortest decimal representation of `n` (no sign, no leading zeros).
pub open spec fn decimal(n: nat) -> Seq<char>
    decreases n,
{
    if n < 10 {
        seq![digit_char(n as int)]
    } else {
        decimal(n / 10).push(digit_char((n % 10) as int))
    }
}

fn exec_digit_char(d: u64) -> (c: char)
    requires
        d < 10,
    ensures
        c == digit_char(d as int),
{
    match d {
        0 => '0',
        1 => '1',
        2 => '2',
        3 => '3',
        4 => '4',
        5 => '5',
        6 => '6',
        7 => '7',
        8 => '8',
        _ => '9',
    }
}

/// Appends the decimal representation of `n` to `s`.
pub fn push_decimal(s: &mut String, n: u64)
    ensures
        final(s)@ == old(s)@ + decimal(n as nat),
    decreases n,
{
    if n >= 10 {
        push_decimal(s, n / 10);
    }
    let c = exec_digit_char(n % 10);
    push_char(s, c);
    proof {
        if n >= 10 {
            assert(decimal(n as nat) == decimal((n / 10) as nat).push(digit_char((n % 10) as int)));
        }
    }
    assert(s@ =~= old(s)@ + decimal(n as nat));
}

/// `s` with every occurrence of `from` replaced by `to`, scanning left to
/// right and never letting two replaced occurrences overlap (the meaning
/// of std `str::replace` for a non-empty pattern).
pub open spec fn replace_all(s: Seq<char>, from: Seq<char>, to: Seq<char>) -> Seq<char>
    decreases s.len(),
{
    if from.len() == 0 || s.len() == 0 {
        s
    } else if from.len() <= s.len() && s.take(from.len() as int) == from {
        to + replace_all(s.skip(from.len() as int), from, to)
    } else {
        seq![s[0]] + replace_all(s.skip(1), from, to)
    }
}

/// Whether `p` occurs in `s` starting at index `i`.
fn occurs_at(s: &Vec<char>, i: usize, p: &Vec<char>) -> (r: bool)
    requires
        i <= s.len(),
    ensures
        r == (p.len() <= s.len() - i && s@.skip(i as int).take(p.len() as int) == p@),
{
    if p.len() > s.len() - i {
        return false;
    }
    let mut j: usize = 0;
    while j < p.len()
        invariant
            i + p.len() <= s.len(),
            j <= p.len(),
            forall|k: int| 0 <= k < j ==> s@[i + k] == p@[k],
        decreases p.len() - j,
    {
        if s[i + j] != p[j] {
            assert(s@.skip(i as int).take(p.len() as int)[j as int] != p@[j as int]);
            return false;
        }
        j = j + 1;
    }
    assert(s@.skip(i as int).take(p.len() as int) =~= p@);
    true
}

/// `s` with every occurrence of the non-empty pattern `from` replaced by
/// `to` (std `str::replace`).
pub fn replace(s: &str, from: &str, to: &str) -> (r: String)
    requires
        from@.len() > 0,
    ensures
        r@ == replace_all(s@, from@, to@),
{
    let cs = chars_of(s);
    let pat = chars_of(from);
    let mut out = String::new();
    let mut i: usize = 0;
    assert(cs@.skip(0) =~= cs@);
    assert(out@ + replace_all(s@, from@, to@) =~= replace_all(s@, from@, to@));
    while i < cs.len()
        invariant
            cs@ == s@,
            pat@ == from@,
            pat@.len() > 0,
            i <= cs.len(),
            out@ + replace_all(cs@.skip(i as int), pat@, to@) == replace_all(s@, from@, to@),
        decreases cs.len() - i,
    {
        let ghost rest = cs@.skip(i as int);
        if occurs_at(&cs, i, &pat) {
            out.append(to);
            assert(rest.skip(pat@.len() as int) =~= cs@.skip(i + pat@.len()));
            i = i + pat.len();
        } else {
            push_char(&mut out, cs[i]);
            assert(rest.skip(1) =~= cs@.skip(i + 1));
            assert(rest[0] == cs@[i as int]);
            i = i + 1;
        }
        assert(out@ + replace_all(cs@.skip(i as int), pat@, to@) =~= replace_all(s@, from@, to@));
    }
    assert(cs@.skip(i as int) =~= Seq::<char>::empty());
    assert(out@ =~= out@ + replace_all(cs@.skip(i as int), pat@, to@));
    out
}


/// Whether `p` occurs somewhere in `s`.
pub open spec fn occurs_in(s: Seq<char>, p: Seq<char>) -> bool {
    exists|i: int| 0 <= i && i + p.len() <= s.len() && #[trigger] s.subrange(i, i + p.len()) == p
}

/// Replacing a pattern that does not occur leaves the text as it is.
pub proof fn lemma_replace_absent(s: Seq<char>, from: Seq<char>, to: Seq<char>)
    requires
        from.len() > 0,
        !occurs_in(s, from),
    ensures
        replace_all(s, from, to) == s,
    decreases s.len(),
{
    if s.len() > 0 {
        if from.len() <= s.len() {
            assert(s.subrange(0int, 0int + from.len()) != from);
            assert(s.subrange(0int, 0int + from.len()) =~= s.take(from.len() as int));
        }
        let rest = s.skip(1);
        assert(!occurs_in(rest, from)) by {
            if occurs_in(rest, from) {
                let i = choose|i: int|
                    0 <= i && i + from.len() <= rest.len() && #[trigger] rest.subrange(i, i + from.len())
                        == from;
                assert(s.subrange(i + 1, i + 1 + from.len()) =~= rest.subrange(i, i + from.len()));
            }
        }
        lemma_replace_absent(rest, from, to);
        assert(seq![s[0]] + rest =~= s);
    }
}

/// Some character of `p` that falls inside `a`, when `p` is laid at index
/// `i` of `a`, differs from the character of `a` beneath it.
pub open spec fn mismatch_within(a: Seq<char>, p: Seq<char>, i: int) -> bool {
    exists|k: int| 0 <= k < p.len() && i + k < a.len() && #[trigger] a[i + k] != p[k]
}

/// Replacing a pattern that starts nowhere inside `a` (whatever follows
/// `a`) leaves `a` as it is and replaces in what follows.
pub proof fn lemma_replace_after(a: Seq<char>, b: Seq<char>, from: Seq<char>, to: Seq<char>)
    requires
        from.len() > 0,
        forall|i: int| 0 <= i < a.len() ==> #[trigger] mismatch_within(a, from, i),
    ensures
        replace_all(a + b, from, to) == a + replace_all(b, from, to),
    decreases a.len(),
{
    let s = a + b;
    if a.len() == 0 {
        assert(s =~= b);
    } else {
        assert(mismatch_within(a, from, 0));
        let k = choose|k: int| 0 <= k < from.len() && 0 + k < a.len() && #[trigger] a[0 + k] != from[k];
        if from.len() <= s.len() {
            assert(s.take(from.len() as int)[k] == a[k]);
        }
        let a1 = a.skip(1);
        assert forall|i: int| 0 <= i < a1.len() implies #[trigger] mismatch_within(a1, from, i) by {
            assert(mismatch_within(a, from, i + 1));
            let j = choose|j: int| 0 <= j < from.len() && (i + 1) + j < a.len() && #[trigger] a[(i + 1) + j] != from[j];
            assert(a1[i + j] == a[(i + 1) + j]);
        }
        lemma_replace_after(a1, b, from, to);
        assert(s.skip(1) =~= a1 + b);
        assert(seq![a[0]] + (a1 + replace_all(b, from, to)) =~= a + replace_all(b, from, to));
    }
}

/// A text that starts with the pattern has the pattern replaced first.
pub proof fn lemma_replace_front(b: Seq<char>, from: Seq<char>, to: Seq<char>)
    requires
        from.len() > 0,
    ensures
        replace_all(from + b, from, to) == to + replace_all(b, from, to),
{
    let s = from + b;
    assert(s.take(from.len() as int) =~= from);
    assert(s.skip(from.len() as int) =~= b);
}

/// `t` is `s` with some underscores turned into dots and nothing else
/// changed.
pub open spec fn dots_for_underscores(s: Seq<char>, t: Seq<char>) -> bool {
    &&& t.len() == s.len()
    &&& forall|i: int| 0 <= i < s.len() ==> #[trigger] t[i] == s[i] || (s[i] == '_' && t[i] == '.')
}

/// Turning underscores into dots twice turns underscores into dots.
pub proof fn lemma_dots_for_underscores_compose(a: Seq<char>, b: Seq<char>, c: Seq<char>)
    requires
        dots_for_underscores(a, b),
        dots_for_underscores(b, c),
    ensures
        dots_for_underscores(a, c),
{
    assert forall|i: int| 0 <= i < a.len() implies #[trigger] c[i] == a[i] || (a[i] == '_' && c[i] == '.') by {
        assert(b[i] == a[i] || (a[i] == '_' && b[i] == '.'));
        assert(c[i] == b[i] || (b[i] == '_' && c[i] == '.'));
    }
}

/// Replacing a pattern by one that only turns some of its underscores into
/// dots turns some underscores of the text into dots and changes nothing
/// else.
pub proof fn lemma_replace_dots_for_underscores(s: Seq<char>, from: Seq<char>, to: Seq<char>)
    requires
        from.len() > 0,
        dots_for_underscores(from, to),
    ensures
        dots_for_underscores(s, replace_all(s, from, to)),
    decreases s.len(),
{
    let t = replace_all(s, from, to);
    if s.len() == 0 {
    } else if from.len() <= s.len() && s.take(from.len() as int) == from {
        let rest = s.skip(from.len() as int);
        lemma_replace_dots_for_underscores(rest, from, to);
        let r = replace_all(rest, from, to);
        assert(t == to + r);
        assert forall|i: int| 0 <= i < s.len() implies #[trigger] t[i] == s[i] || (s[i] == '_' && t[i] == '.') by {
            if i < from.len() {
                assert(s[i] == s.take(from.len() as int)[i]);
                assert(t[i] == to[i]);
            } else {
                assert(s[i] == rest[i - from.len()]);
                assert(t[i] == r[i - from.len()]);
            }
        }
    } else {
        let rest = s.skip(1);
        lemma_replace_dots_for_underscores(rest, from, to);
        let r = replace_all(rest, from, to);
        assert(t == seq![s[0]] + r);
        assert forall|i: int| 0 <= i < s.len() implies #[trigger] t[i] == s[i] || (s[i] == '_' && t[i] == '.') by {
            if i > 0 {
                assert(s[i] == rest[i - 1]);
                assert(t[i] == r[i - 1]);
            }
        }
    }
}

/// Whether `c` is an ASCII decimal digit.
pub open spec fn is_digit(c: char) -> bool {
    '0' <= c <= '9'
}

/// The number written by a sequence of decimal digits.
pub open spec fn digits_value(s: Seq<char>) -> nat
    decreases s.len(),
{
    if s.len() == 0 {
        0
    } else {
        digits_value(s.drop_last()) * 10 + ((s.last() as int) - ('0' as int)) as nat
    }
}

proof fn lemma_digit_char(d: int)
    requires
        0 <= d < 10,
    ensures
        is_digit(digit_char(d)),
        (digit_char(d) as int) - ('0' as int) == d,
{
    let digits = seq!['0', '1', '2', '3', '4', '5', '6', '7', '8', '9'];
    assert(digit_char(d) == digits[d]);
    if d == 0 {
        assert(digits[0] == '0');
    } else if d == 1 {
        assert(digits[1] == '1');
    } else if d == 2 {
        assert(digits[2] == '2');
    } else if d == 3 {
        assert(digits[3] == '3');
    } else if d == 4 {
        assert(digits[4] == '4');
    } else if d == 5 {
        assert(digits[5] == '5');
    } else if d == 6 {
        assert(digits[6] == '6');
    } else if d == 7 {
        assert(digits[7] == '7');
    } else if d == 8 {
        assert(digits[8] == '8');
    } else {
        assert(digits[9] == '9');
    }
}

/// The decimal representation of `n` is a non-empty run of digits that
/// reads back as `n`.
pub proof fn lemma_decimal_reads_back(n: nat)
    ensures
        decimal(n).len() > 0,
        forall|i: int| 0 <= i < decimal(n).len() ==> is_digit(#[trigger] decimal(n)[i]),
        digits_value(decimal(n)) == n,
    decreases n,
{
    if n >= 10 {
        lemma_decimal_reads_back(n / 10);
        lemma_digit_char((n % 10) as int);
        let d = decimal(n);
        assert(d.drop_last() =~= decimal(n / 10));
        assert(d.last() == digit_char((n % 10) as int));
        assert(digits_value(d) == digits_value(d.drop_last()) * 10 + ((d.last() as int) - ('0' as int)) as nat);
        assert((n / 10) * 10 + n % 10 == n);
    } else {
        lemma_digit_char(n as int);
        let d = decimal(n);
        assert(d.drop_last() =~= Seq::<char>::empty());
        assert(digits_value(d) == digits_value(d.drop_last()) * 10 + ((d.last() as int) - ('0' as int)) as nat);
    }
}

} // verus!
