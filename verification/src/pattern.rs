//! The access patterns by name, the order in which a run goes through them,
//! and the rule that each one keeps to.
use vstd::prelude::*;
use crate::rule::Rule;

verus! {

/// One way to hold, share or change the list.
#[derive(Clone, Copy, Debug, PartialEq, Eq, Structural)]
pub enum Pattern {
    /// An exclusive borrow for the length of one call.
    MutableBorrow,
    /// A shared borrow; the change goes to a copy.
    ImmutableBorrow,
    /// The list is given away and a changed list comes back.
    OwnershipTransfer,
    /// One owner, the list in a heap allocation of its own.
    Boxed,
    /// Several read-only handles on one thread.
    SharedLocal,
    /// Several read-only handles, one of them on a worker thread.
    SharedAcrossThreads,
    /// A cell of one thread that checks the right to write at run time.
    CheckedCell,
    /// A lock shared between threads; a worker writes under it.
    LockedCell,
    /// A task that owns the list and changes it after a wait.
    SuspendedOwned,
    /// A task that borrows the list and changes it in place after a wait.
    SuspendedBorrowed,
    /// A cell of the collected heap, changed through a second handle.
    Collected,
}

/// The patterns in the order in which a run goes through them.
pub open spec fn order() -> Seq<Pattern> {
    seq![
        Pattern::MutableBorrow,
        Pattern::ImmutableBorrow,
        Pattern::OwnershipTransfer,
        Pattern::Boxed,
        Pattern::SharedLocal,
        Pattern::SharedAcrossThreads,
        Pattern::CheckedCell,
        Pattern::LockedCell,
        Pattern::SuspendedOwned,
        Pattern::SuspendedBorrowed,
        Pattern::Collected,
    ]
}

/// The patterns of one run, first to last.
pub fn schedule() -> (patterns: Vec<Pattern>)
    ensures
        patterns@ == order(),
{
    vec![
        Pattern::MutableBorrow,
        Pattern::ImmutableBorrow,
        Pattern::OwnershipTransfer,
        Pattern::Boxed,
        Pattern::SharedLocal,
        Pattern::SharedAcrossThreads,
        Pattern::CheckedCell,
        Pattern::LockedCell,
        Pattern::SuspendedOwned,
        Pattern::SuspendedBorrowed,
        Pattern::Collected,
    ]
}

impl Pattern {
    /// The rule that the pattern keeps to; `None` for a pattern that only
    /// stores or shares the list.
    pub open spec fn rule_of(self) -> Option<Rule> {
        match self {
            Pattern::MutableBorrow => Some(Rule::Overwrite),
            Pattern::ImmutableBorrow => Some(Rule::Overwrite),
            Pattern::OwnershipTransfer => Some(Rule::Overwrite),
            Pattern::Boxed => None,
            Pattern::SharedLocal => None,
            Pattern::SharedAcrossThreads => None,
            Pattern::CheckedCell => Some(Rule::Overwrite),
            Pattern::LockedCell => Some(Rule::Overwrite),
            Pattern::SuspendedOwned => Some(Rule::Overwrite),
            Pattern::SuspendedBorrowed => Some(Rule::Overwrite),
            Pattern::Collected => Some(Rule::Double),
        }
    }

    /// Looks the pattern's rule up.
    pub fn rule(self) -> (rule: Option<Rule>)
        ensures
            rule == self.rule_of(),
    {
        match self {
            Pattern::Boxed | Pattern::SharedLocal | Pattern::SharedAcrossThreads => None,
            Pattern::Collected => Some(Rule::Double),
            _ => Some(Rule::Overwrite),
        }
    }
}

} // verus!
