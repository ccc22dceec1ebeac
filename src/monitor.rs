//! The identifier that selects a monitor.

use crate::decimal::{decimal_i32, parse_i32};
use vstd::prelude::*;
use vstd::string::StringSliceAdditionalSpecFns;

verus! {

/// How a monitor is selected.
#[derive(Clone, Copy, Debug, PartialEq, Eq, Structural)]
pub enum MonitorIdentifier {
    Numeric(i32),
}

/// The monitor number that a text names; text that is no `i32` names the
/// first monitor.
pub open spec fn monitor_number(s: Seq<u8>) -> i32 {
    match decimal_i32(s) {
        Some(n) => n,
        None => 0,
    }
}

impl MonitorIdentifier {
    pub fn is_numeric(&self) -> (r: bool)
        ensures
            r == (*self matches MonitorIdentifier::Numeric(_)),
    {
        match self {
            MonitorIdentifier::Numeric(_) => true,
        }
    }

    /// Reads an identifier from text; anything that is no `i32` gives 0.
    pub fn parse(s: &str) -> (r: MonitorIdentifier)
        ensures
            r == MonitorIdentifier::Numeric(monitor_number(s.spec_bytes())),
    {
        match parse_i32(s.as_bytes()) {
            Some(n) => MonitorIdentifier::Numeric(n),
            None => MonitorIdentifier::Numeric(0),
        }
    }
}

impl std::str::FromStr for MonitorIdentifier {
    type Err = std::convert::Infallible;

    fn from_str(s: &str) -> Result<MonitorIdentifier, std::convert::Infallible> {
        Ok(MonitorIdentifier::parse(s))
    }
}

} // verus!
