//! The typed records a reply decodes into. Each record is a plain value
//! with no back-reference to the connection that produced it; records whose
//! fields carry text view as tuples of character sequences.

use vstd::prelude::*;

verus! {

/// A named scalar counter, from a `key value` reply line.
#[derive(Clone, Debug, PartialEq, Eq)]
pub struct Counter {
    pub name: String,
    pub value: u64,
}

impl View for Counter {
    type V = (Seq<char>, u64);

    open spec fn view(&self) -> (Seq<char>, u64) {
        (self.name@, self.value)
    }
}

impl DeepView for Counter {
    type V = (Seq<char>, u64);

    open spec fn deep_view(&self) -> (Seq<char>, u64) {
        self@
    }
}

/// One bucket of a time series: how many queries fell in the interval that
/// starts at `timestamp`.
#[derive(Clone, Copy, Debug, PartialEq, Eq, Structural)]
pub struct TimeSeriesPoint {
    pub timestamp: u64,
    pub count: u64,
}

impl View for TimeSeriesPoint {
    type V = (u64, u64);

    open spec fn view(&self) -> (u64, u64) {
        (self.timestamp, self.count)
    }
}

impl DeepView for TimeSeriesPoint {
    type V = (u64, u64);

    open spec fn deep_view(&self) -> (u64, u64) {
        self@
    }
}

/// One entry of a rank-ordered top list of domains.
#[derive(Clone, Debug, PartialEq, Eq)]
pub struct DomainCount {
    pub name: String,
    pub count: u64,
}

impl View for DomainCount {
    type V = (Seq<char>, u64);

    open spec fn view(&self) -> (Seq<char>, u64) {
        (self.name@, self.count)
    }
}

impl DeepView for DomainCount {
    type V = (Seq<char>, u64);

    open spec fn deep_view(&self) -> (Seq<char>, u64) {
        self@
    }
}

/// One entry of a per-client breakdown.
#[derive(Clone, Debug, PartialEq, Eq)]
pub struct ClientCount {
    pub name: String,
    pub count: u64,
}

impl View for ClientCount {
    type V = (Seq<char>, u64);

    open spec fn view(&self) -> (Seq<char>, u64) {
        (self.name@, self.count)
    }
}

impl DeepView for ClientCount {
    type V = (Seq<char>, u64);

    open spec fn deep_view(&self) -> (Seq<char>, u64) {
        self@
    }
}

/// One entry of a per-query-type breakdown.
#[derive(Clone, Debug, PartialEq, Eq)]
pub struct QueryTypeCount {
    pub qtype: String,
    pub count: u64,
}

impl View for QueryTypeCount {
    type V = (Seq<char>, u64);

    open spec fn view(&self) -> (Seq<char>, u64) {
        (self.qtype@, self.count)
    }
}

impl DeepView for QueryTypeCount {
    type V = (Seq<char>, u64);

    open spec fn deep_view(&self) -> (Seq<char>, u64) {
        self@
    }
}

/// One entry of an allow, deny or wildcard list.
#[derive(Clone, Debug, PartialEq, Eq)]
pub struct ListEntry {
    pub domain: String,
    pub enabled: bool,
}

impl View for ListEntry {
    type V = (Seq<char>, bool);

    open spec fn view(&self) -> (Seq<char>, bool) {
        (self.domain@, self.enabled)
    }
}

impl DeepView for ListEntry {
    type V = (Seq<char>, bool);

    open spec fn deep_view(&self) -> (Seq<char>, bool) {
        self@
    }
}

/// The engine's status flags.
#[derive(Clone, Copy, Debug, PartialEq, Eq, Structural)]
pub struct StatusFlags {
    /// The engine reports itself enabled.
    pub enabled: bool,
    /// Blocking is currently active.
    pub blocking: bool,
}

/// The merged summary record: counters from the stats reply joined with
/// the status flags, all from one facade call.
#[derive(Clone, Copy, Debug, PartialEq, Eq, Structural)]
pub struct Summary {
    pub total_queries: u64,
    pub blocked_queries: u64,
    pub domains_on_blocklist: u64,
    pub enabled: bool,
}

} // verus!
