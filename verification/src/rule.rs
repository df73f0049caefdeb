//! The rules by which a pattern changes the element at `TARGET`.
use vstd::prelude::*;
use crate::sequence::TARGET;

verus! {

/// The value that an overwriting pattern stores.
pub const MARKER: i32 = 42;

/// How a pattern changes the element at `TARGET`.
#[derive(Clone, Copy, Debug, PartialEq, Eq, Structural)]
pub enum Rule {
    /// Store `MARKER`.
    Overwrite,
    /// Add one.
    Increment,
    /// Multiply by two.
    Double,
}

impl Rule {
    /// The integer that the rule makes of `x`, before any machine limit.
    pub open spec fn image(self, x: int) -> int {
        match self {
            Rule::Overwrite => MARKER as int,
            Rule::Increment => x + 1,
            Rule::Double => 2 * x,
        }
    }

    /// Whether the rule's image of `x` is an `i32`.
    pub open spec fn admits(self, x: i32) -> bool {
        i32::MIN <= self.image(x as int) <= i32::MAX
    }

    /// Whether the rule can be carried out on `s`: a list too short to have
    /// a target is left alone, so it always can.
    pub open spec fn fits(self, s: Seq<i32>) -> bool {
        s.len() > TARGET ==> self.admits(s[TARGET as int])
    }

    /// The list after the rule: the target holds its image, every other
    /// element stays. A list without a target, or with a target whose image
    /// is no `i32`, stays as it is.
    pub open spec fn applied(self, s: Seq<i32>) -> Seq<i32> {
        if s.len() > TARGET && self.admits(s[TARGET as int]) {
            s.update(TARGET as int, self.image(s[TARGET as int] as int) as i32)
        } else {
            s
        }
    }

    /// The rule's image of `x`, or `None` where that is no `i32`.
    pub fn apply(self, x: i32) -> (y: Option<i32>)
        ensures
            y == (if self.admits(x) {
                Some(self.image(x as int) as i32)
            } else {
                None
            }),
    {
        match self {
            Rule::Overwrite => Some(MARKER),
            Rule::Increment => x.checked_add(1),
            Rule::Double => x.checked_mul(2),
        }
    }

    /// Carries the rule out on `list` in place and says whether it could.
    pub fn rewrite(self, list: &mut Vec<i32>) -> (done: bool)
        ensures
            done == self.fits(old(list)@),
            final(list)@ == self.applied(old(list)@),
    {
        if list.len() > TARGET {
            match self.apply(list[TARGET]) {
                Some(y) => {
                    list[TARGET] = y;
                    true
                },
                None => false,
            }
        } else {
            true
        }
    }
}

/// A rule changes nothing but the target: the length stays, and so does every
/// element at another position. A target that the rule admits holds the
/// rule's image afterwards.
pub proof fn lemma_rest_unchanged(rule: Rule, s: Seq<i32>)
    ensures
        rule.applied(s).len() == s.len(),
        forall|i: int| 0 <= i < s.len() && i != TARGET ==> rule.applied(s)[i] == s[i],
        s.len() > TARGET && rule.admits(s[TARGET as int]) ==> rule.applied(s)[TARGET as int]
            == rule.image(s[TARGET as int] as int),
{
}

/// On a list that has a target which the rule admits and does not map to
/// itself, the list after the rule differs from the list before at the
/// target and nowhere else.
pub proof fn lemma_exactly_target_differs(rule: Rule, s: Seq<i32>)
    requires
        s.len() > TARGET,
        rule.admits(s[TARGET as int]),
        rule.image(s[TARGET as int] as int) != s[TARGET as int],
    ensures
        forall|i: int| 0 <= i < s.len() ==> (rule.applied(s)[i] != s[i] <==> i == TARGET),
{
}

/// Storing the marker a second time changes nothing: a list that several
/// writers marked one after another is the list that one writer marked.
pub proof fn lemma_overwrite_settles(s: Seq<i32>)
    ensures
        Rule::Overwrite.applied(Rule::Overwrite.applied(s)) == Rule::Overwrite.applied(s),
{
}

} // verus!
