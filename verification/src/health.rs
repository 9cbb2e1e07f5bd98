//! The health probe.

use vstd::prelude::*;

verus! {

/// The state of the service, as the health probe reports it.
#[derive(Debug, Clone, Copy, PartialEq, Eq, Structural)]
pub enum Health {
    /// The database answers.
    Healthy,
    /// The database does not answer.
    Degraded,
}

impl Health {
    /// The HTTP status of the report.
    pub open spec fn status_code(self) -> u16 {
        match self {
            Health::Healthy => 200,
            Health::Degraded => 503,
        }
    }

    /// The `status` field of the report.
    pub open spec fn status_text(self) -> Seq<char> {
        match self {
            Health::Healthy => "ok"@,
            Health::Degraded => "degraded"@,
        }
    }

    /// The `db` field of the report.
    pub open spec fn db_text(self) -> Seq<char> {
        match self {
            Health::Healthy => "up"@,
            Health::Degraded => "down"@,
        }
    }

    /// The HTTP status of the report.
    pub fn code(&self) -> (code: u16)
        ensures
            code == self.status_code(),
    {
        match self {
            Health::Healthy => 200,
            Health::Degraded => 503,
        }
    }

    /// The `status` field of the report.
    pub fn status(&self) -> (text: &'static str)
        ensures
            text@ == self.status_text(),
    {
        match self {
            Health::Healthy => "ok",
            Health::Degraded => "degraded",
        }
    }

    /// The `db` field of the report.
    pub fn db(&self) -> (text: &'static str)
        ensures
            text@ == self.db_text(),
    {
        match self {
            Health::Healthy => "up",
            Health::Degraded => "down",
        }
    }
}

/// Reports the state of the service, given whether the database answered.
pub fn healthz(db_ok: bool) -> (health: Health)
    ensures
        health == (if db_ok {
            Health::Healthy
        } else {
            Health::Degraded
        }),
{
    if db_ok {
        Health::Healthy
    } else {
        Health::Degraded
    }
}

} // verus!
