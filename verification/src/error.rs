//! The failures that the staking program reports.

use vstd::prelude::*;

verus! {

/// The ways in which a staking instruction can fail.
#[derive(Debug, Clone, Copy, PartialEq, Eq, Structural)]
pub enum StakingError {
    /// A stake would take the staked amount over the limit.
    MaxStakeLimitReached,
}

impl StakingError {
    /// The text shown to a user for this failure, as a sequence of characters.
    pub open spec fn message_text(self) -> Seq<char> {
        match self {
            StakingError::MaxStakeLimitReached => "Max stake limit reached"@,
        }
    }

    /// The text shown to a user for this failure.
    pub fn message(&self) -> (text: String)
        ensures
            text@ == self.message_text(),
    {
        match self {
            StakingError::MaxStakeLimitReached => "Max stake limit reached".to_owned(),
        }
    }
}

} // verus!
