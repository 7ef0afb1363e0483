//! The drill-down levels and the two ways keys are read.

use vstd::prelude::*;

verus! {

/// The level that is looked at: namespaces, the pods of one, the
/// containers of a pod, the log of a container.
#[derive(Debug, Clone, Copy, PartialEq, Eq, Structural)]
pub enum ViewMode {
    NS,
    PODS,
    CONT,
    LOGS,
}

/// How keys are read: as commands, or as the text of a search.
#[derive(Debug, Clone, Copy, PartialEq, Eq, Structural)]
pub enum InteractionMode {
    NORMAL,
    SEARCH,
}

impl ViewMode {
    /// The level one further down; the log is the last.
    pub open spec fn below(self) -> ViewMode {
        match self {
            ViewMode::NS => ViewMode::PODS,
            ViewMode::PODS => ViewMode::CONT,
            ViewMode::CONT => ViewMode::LOGS,
            ViewMode::LOGS => ViewMode::LOGS,
        }
    }

    /// The level one further up; the namespaces are the first.
    pub open spec fn above(self) -> ViewMode {
        match self {
            ViewMode::NS => ViewMode::NS,
            ViewMode::PODS => ViewMode::NS,
            ViewMode::CONT => ViewMode::PODS,
            ViewMode::LOGS => ViewMode::CONT,
        }
    }

    /// The level one further down.
    pub fn next(self) -> (mode: ViewMode)
        ensures
            mode == self.below(),
    {
        match self {
            ViewMode::NS => ViewMode::PODS,
            ViewMode::PODS => ViewMode::CONT,
            ViewMode::CONT => ViewMode::LOGS,
            ViewMode::LOGS => ViewMode::LOGS,
        }
    }

    /// The level one further up.
    pub fn previous(self) -> (mode: ViewMode)
        ensures
            mode == self.above(),
    {
        match self {
            ViewMode::NS => ViewMode::NS,
            ViewMode::PODS => ViewMode::NS,
            ViewMode::CONT => ViewMode::PODS,
            ViewMode::LOGS => ViewMode::CONT,
        }
    }
}

/// The levels are a line: a step down and a step up lead back, except from
/// the last level, where there is no step down.
pub proof fn lemma_levels_in_line(mode: ViewMode)
    ensures
        mode != ViewMode::LOGS ==> mode.below().above() == mode,
        mode != ViewMode::NS ==> mode.above().below() == mode,
        mode.below() != ViewMode::NS,
        mode.above() != ViewMode::LOGS,
{
}

} // verus!
