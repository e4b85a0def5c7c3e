use infrastructure::text::{chars_of, push_decimal, replace, str_eq};

#[test]
fn replace_matches_std() {
    let cases = [
        ("DATABASE_POOL_MAX", "DATABASE_", "DATABASE."),
        ("aaaa", "aa", "b"),
        ("abcabc", "bc", ""),
        ("", "x", "y"),
        ("héllo wörld", "ö", "oe"),
        ("xyz", "xyzw", "q"),
    ];
    for (s, from, to) in cases {
        assert_eq!(replace(s, from, to), s.replace(from, to));
    }
}

#[test]
fn chars_and_equality() {
    assert_eq!(chars_of("añb"), vec!['a', 'ñ', 'b']);
    assert!(str_eq("TRACE", "TRACE"));
    assert!(!str_eq("TRACE", "trace"));
    assert!(!str_eq("", "a"));
}

#[test]
fn decimal_rendering() {
    for n in [0u64, 7, 10, 99, 100, 3000, 65535, u64::MAX] {
        let mut s = String::from("n=");
        push_decimal(&mut s, n);
        assert_eq!(s, format!("n={}", n));
    }
}
