//! The health report of the service's dependencies.

use vstd::prelude::*;
use crate::status::StatusCode;

verus! {

/// Whether a dependency answered.
#[derive(Debug, Clone, Copy, PartialEq, Eq, Structural)]
pub enum HealthStatusVariant {
    Healthy,
    Error,
}

/// The health of one dependency.
#[derive(Debug, Clone, Copy, PartialEq, Eq, Structural)]
pub struct HealthStatus {
    status: HealthStatusVariant,
}

/// The health of every dependency of the service.
#[derive(Debug, Clone, Copy, PartialEq, Eq, Structural)]
pub struct HealthReport {
    database: HealthStatus,
}

impl HealthStatus {
    /// Whether the dependency answered.
    pub closed spec fn variant(self) -> HealthStatusVariant {
        self.status
    }

    /// The health of a dependency that answered.
    pub closed spec fn healthy() -> HealthStatus {
        HealthStatus { status: HealthStatusVariant::Healthy }
    }

    /// The health of a dependency that failed.
    pub closed spec fn failing() -> HealthStatus {
        HealthStatus { status: HealthStatusVariant::Error }
    }

    /// Every health status is one of the two.
    pub proof fn lemma_two_states(s: HealthStatus)
        ensures
            s == HealthStatus::healthy() || s == HealthStatus::failing(),
            s == HealthStatus::healthy() <==> s.variant() == HealthStatusVariant::Healthy,
            HealthStatus::healthy().variant() == HealthStatusVariant::Healthy,
            HealthStatus::failing().variant() == HealthStatusVariant::Error,
    {
    }

    /// Whether the dependency answered.
    pub fn is_ok(&self) -> (r: bool)
        ensures
            r == (self.variant() == HealthStatusVariant::Healthy),
    {
        match self.status {
            HealthStatusVariant::Healthy => true,
            HealthStatusVariant::Error => false,
        }
    }

    /// The health of a dependency that answered.
    pub fn new_ok() -> (s: HealthStatus)
        ensures
            s == HealthStatus::healthy(),
            s.variant() == HealthStatusVariant::Healthy,
    {
        HealthStatus { status: HealthStatusVariant::Healthy }
    }

    /// The health of a dependency that failed.
    pub fn new_error() -> (s: HealthStatus)
        ensures
            s == HealthStatus::failing(),
            s.variant() == HealthStatusVariant::Error,
    {
        HealthStatus { status: HealthStatusVariant::Error }
    }

    /// The health shown by the outcome of a request to the dependency.
    pub open spec fn of_result<O, E>(res: core::result::Result<O, E>) -> HealthStatus {
        match res {
            Ok(_) => HealthStatus::healthy(),
            Err(_) => HealthStatus::failing(),
        }
    }
}

/// The health shown by a request's outcome is healthy exactly when the
/// request succeeded, whatever it returned or failed with.
pub proof fn lemma_health_of_outcome<O, E>(res: core::result::Result<O, E>)
    ensures
        HealthStatus::of_result(res).variant() == HealthStatusVariant::Healthy <==> res is Ok,
        HealthStatus::of_result(res) == (if res is Ok { HealthStatus::healthy() } else { HealthStatus::failing() }),
{
    HealthStatus::lemma_two_states(HealthStatus::of_result(res));
}

impl<O, E> From<core::result::Result<O, E>> for HealthStatus {
    /// A request that succeeded shows a healthy dependency, a failed one a
    /// failing dependency.
    fn from(res: core::result::Result<O, E>) -> (s: Self)
        ensures
            s.variant() == (if res is Ok {
                HealthStatusVariant::Healthy
            } else {
                HealthStatusVariant::Error
            }),
    {
        match res {
            Ok(_) => HealthStatus::new_ok(),
            Err(_) => HealthStatus::new_error(),
        }
    }
}

impl<O, E> vstd::std_specs::convert::FromSpecImpl<core::result::Result<O, E>> for HealthStatus {
    open spec fn obeys_from_spec() -> bool {
        true
    }

    open spec fn from_spec(v: core::result::Result<O, E>) -> HealthStatus {
        HealthStatus::of_result(v)
    }
}

impl HealthReport {
    /// The health of the database.
    pub closed spec fn database_of(self) -> HealthStatus {
        self.database
    }

    /// The health of the database.
    pub fn database(&self) -> (d: HealthStatus)
        ensures
            d == self.database_of(),
    {
        self.database
    }
}

/// The answer to a health check, given the outcome of the query sent to
/// the database: `200` when the query succeeded and `500` when it failed,
/// with a report whose database status says the same.
pub fn healthcheck<O, E>(outcome: core::result::Result<O, E>) -> (r: (StatusCode, HealthReport))
    ensures
        r.0.code() == (if outcome is Ok { 200u16 } else { 500u16 }),
        r.1.database_of().variant() == (if outcome is Ok {
            HealthStatusVariant::Healthy
        } else {
            HealthStatusVariant::Error
        }),
{
    let database = HealthStatus::from(outcome);
    let status = if database.is_ok() {
        StatusCode::ok()
    } else {
        StatusCode::internal_server_error()
    };
    let resp = HealthReport { database };
    (status, resp)
}

/// The answer to a ping: `204 No Content`.
pub fn ping() -> (s: StatusCode)
    ensures
        s.code() == 204,
{
    StatusCode::no_content()
}

} // verus!
