use vstd::prelude::*;

verus! {

/// The field whose value fell outside its declared range.
#[derive(Debug, Clone, Copy, PartialEq, Eq, Structural)]
pub enum DomainViolation {
    /// A year outside `1..=9999`.
    Year,
    /// A month outside `1..=12`.
    Month,
    /// A day outside `1..=31`.
    Day,
    /// An hour outside `0..=23`.
    Hour,
    /// A minute outside `0..=59`.
    Minute,
    /// A second outside `0..=59`.
    Second,
}

} // verus!
