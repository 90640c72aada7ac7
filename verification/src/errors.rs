use vstd::prelude::*;

verus! {

/// Every way an operation on the lottery state can fail. A failure aborts the
/// whole operation: no partial state mutation is ever visible to the caller.
#[derive(Clone, Copy, Debug, PartialEq, Eq, Structural)]
pub enum LotteryError {
    /// The caller is not the moderator of the named lottery.
    NotAuthorized,
    /// No lottery with the given id exists.
    LotteryNotFound,
    /// A lottery with the freshly derived id already exists.
    DuplicateId,
    /// The commitment phase is already open.
    PhaseAlreadyOpen,
    /// The commitment phase is not open.
    PhaseNotOpen,
    /// The caller already joined this lottery.
    AlreadyJoined,
    /// The caller never joined this lottery, so it cannot buy tickets.
    NotAJoinedParticipant,
    /// A ticket purchase must buy at least one ticket.
    InvalidQuantity,
    /// The purchase would push the caller's ticket count past the largest
    /// representable count.
    QuantityOverflow,
    /// The caller is not a participant of this lottery, so it cannot commit.
    NotAParticipant,
    /// The caller already submitted a commitment for this lottery.
    AlreadyCommitted,
    /// No participant of this lottery holds a ticket, so no winner can be
    /// drawn.
    NoEligibleParticipants,
}

impl LotteryError {
    /// A human-readable description of the failure.
    pub fn message(&self) -> &'static str {
        match self {
            LotteryError::NotAuthorized => "only the moderator of this lottery may do this",
            LotteryError::LotteryNotFound => "lottery not found",
            LotteryError::DuplicateId => "a lottery with this id already exists",
            LotteryError::PhaseAlreadyOpen => "the commitment phase has already started",
            LotteryError::PhaseNotOpen => "the commitment phase is not active for this lottery",
            LotteryError::AlreadyJoined => "you have already joined this lottery",
            LotteryError::NotAJoinedParticipant => "you are not participating in this lottery",
            LotteryError::InvalidQuantity => "you must buy at least one ticket",
            LotteryError::QuantityOverflow => "this purchase would overflow your ticket count",
            LotteryError::NotAParticipant => "only participants of this lottery can create commitments",
            LotteryError::AlreadyCommitted => "you have already submitted your commitment for this lottery",
            LotteryError::NoEligibleParticipants => "no participants with valid tickets",
        }
    }
}

} // verus!
