//! The top-level screens and the dashboard sort orders.

use vstd::prelude::*;

verus! {

/// The active top-level screen.
#[derive(Debug, Clone, Copy, PartialEq, Eq, Default, Structural)]
pub enum Screen {
    #[default]
    Dashboard,
    /// Detail view of one server.
    DetailView,
    FileManager,
    Snippets,
    /// PTY-backed multi-session terminal.
    Terminal,
}

/// How dashboard cards are sorted.
#[derive(Debug, Clone, Copy, PartialEq, Eq, Default, Structural)]
pub enum SortOrder {
    /// Alphabetical by host name.
    #[default]
    Name,
    /// Descending CPU usage (highest first).
    Cpu,
    /// Descending RAM usage (highest first).
    Ram,
    /// By connection status: Connected, Connecting, Unknown, Failed.
    Status,
}

impl SortOrder {
    /// The order after `self` in the cycle Name, Cpu, Ram, Status, Name.
    pub open spec fn spec_next(self) -> SortOrder {
        match self {
            SortOrder::Name => SortOrder::Cpu,
            SortOrder::Cpu => SortOrder::Ram,
            SortOrder::Ram => SortOrder::Status,
            SortOrder::Status => SortOrder::Name,
        }
    }

    /// Cycles to the next sort order.
    pub fn next(&self) -> (res: Self)
        ensures
            res == self.spec_next(),
    {
        match self {
            SortOrder::Name => SortOrder::Cpu,
            SortOrder::Cpu => SortOrder::Ram,
            SortOrder::Ram => SortOrder::Status,
            SortOrder::Status => SortOrder::Name,
        }
    }

    /// Human-readable label for the dashboard header.
    pub fn label(&self) -> (res: &'static str)
        ensures
            res@ == match self {
                SortOrder::Name => "name"@,
                SortOrder::Cpu => "cpu"@,
                SortOrder::Ram => "ram"@,
                SortOrder::Status => "status"@,
            },
    {
        match self {
            SortOrder::Name => "name",
            SortOrder::Cpu => "cpu",
            SortOrder::Ram => "ram",
            SortOrder::Status => "status",
        }
    }
}

/// Cycling the sort order four times returns to the start, and no fewer
/// steps do.
pub proof fn lemma_sort_order_cycle(o: SortOrder)
    ensures
        o.spec_next().spec_next().spec_next().spec_next() == o,
        o.spec_next() != o,
        o.spec_next().spec_next() != o,
        o.spec_next().spec_next().spec_next() != o,
{
}

} // verus!
