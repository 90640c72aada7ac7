use vstd::prelude::*;

use crate::strfmt::str_eq;

verus! {

/// What a lottery is run for.
pub enum LotteryPurpose {
    Entertainment,
    Fundraiser,
    DAOTreasury,
    Custom(String),
}

/// The mathematical value of a [`LotteryPurpose`]: the custom label is read as
/// its character sequence.
pub enum PurposeView {
    Entertainment,
    Fundraiser,
    DAOTreasury,
    Custom(Seq<char>),
}

impl View for LotteryPurpose {
    type V = PurposeView;

    open spec fn view(&self) -> PurposeView {
        match self {
            LotteryPurpose::Entertainment => PurposeView::Entertainment,
            LotteryPurpose::Fundraiser => PurposeView::Fundraiser,
            LotteryPurpose::DAOTreasury => PurposeView::DAOTreasury,
            LotteryPurpose::Custom(label) => PurposeView::Custom(label@),
        }
    }
}

impl Clone for LotteryPurpose {
    fn clone(&self) -> (res: Self)
        ensures
            res == self,
    {
        match self {
            LotteryPurpose::Entertainment => LotteryPurpose::Entertainment,
            LotteryPurpose::Fundraiser => LotteryPurpose::Fundraiser,
            LotteryPurpose::DAOTreasury => LotteryPurpose::DAOTreasury,
            LotteryPurpose::Custom(label) => LotteryPurpose::Custom(label.clone()),
        }
    }
}

/// The purpose named by a label: the three fixed names map to their variants,
/// any other label becomes a custom purpose holding the label itself.
pub open spec fn purpose_of_label(label: Seq<char>) -> PurposeView {
    if label == "Entertainment"@ {
        PurposeView::Entertainment
    } else if label == "Fundraiser"@ {
        PurposeView::Fundraiser
    } else if label == "DAOTreasury"@ {
        PurposeView::DAOTreasury
    } else {
        PurposeView::Custom(label)
    }
}

/// Reads a purpose label, mapping the three fixed names to their variants and
/// keeping any other label as a custom purpose.
pub fn parse_purpose(label: String) -> (r: LotteryPurpose)
    ensures
        r@ == purpose_of_label(label@),
{
    if str_eq(label.as_str(), "Entertainment") {
        LotteryPurpose::Entertainment
    } else if str_eq(label.as_str(), "Fundraiser") {
        LotteryPurpose::Fundraiser
    } else if str_eq(label.as_str(), "DAOTreasury") {
        LotteryPurpose::DAOTreasury
    } else {
        LotteryPurpose::Custom(label)
    }
}

/// One lottery: a single commit-and-draw lifecycle.
pub struct Lottery {
    /// Whether the commitment phase is currently open.
    pub commit_phase: bool,
    /// The winning index of the most recent draw, if one was performed.
    pub winning_number: Option<u64>,
    /// The seed the next draw starts from; every draw replaces it with the
    /// draw's last generated number, chaining draws.
    pub rng_seed: u64,
    /// Every number ever produced by a draw of this lottery, in draw order:
    /// the audit trail.
    pub generated_numbers: Vec<u64>,
    pub purpose: LotteryPurpose,
    pub ticket_price: u64,
    pub prize_pool: u64,
}

/// The projection of a lottery that `get_all_lotteries` shows: the phase flag
/// and the purpose, without ticket or financial internals.
pub struct LotteryPublicInfo {
    pub commit_phase: bool,
    pub purpose: LotteryPurpose,
}

/// A commitment as a participant may later reveal it: the committed value,
/// whether it was revealed, and the revealed number if any. The registry
/// stores only the commitment string; no reveal is ever validated against it.
pub struct Commit {
    pub commitment: String,
    pub revealed: bool,
    pub number: Option<u128>,
}

impl Clone for Commit {
    fn clone(&self) -> (res: Self)
        ensures
            res.commitment@ == self.commitment@,
            res.revealed == self.revealed,
            res.number == self.number,
    {
        Commit {
            commitment: self.commitment.clone(),
            revealed: self.revealed,
            number: self.number,
        }
    }
}

/// One row of the participant ledger: `identity` joined `lottery_id` and
/// holds `tickets` tickets there.
pub struct ParticipantEntry {
    pub identity: String,
    pub lottery_id: String,
    pub tickets: u64,
}

impl Clone for ParticipantEntry {
    fn clone(&self) -> (res: Self)
        ensures
            res == self,
    {
        ParticipantEntry {
            identity: self.identity.clone(),
            lottery_id: self.lottery_id.clone(),
            tickets: self.tickets,
        }
    }
}

/// One row of the commitment registry: `identity` committed `value` for
/// `lottery_id`. A row is written once and never overwritten.
pub struct CommitmentEntry {
    pub lottery_id: String,
    pub identity: String,
    pub value: String,
}

/// The write-once outcome of a draw, persisted per lottery: the winner, the
/// winning index, and the verification hash binding the two to the lottery id.
pub struct DrawResult {
    pub winner: String,
    pub winning_index: u64,
    pub verification_hash: String,
}

} // verus!
