use vstd::prelude::*;
use vstd::string::*;

use crate::draw::{
    generate_random_numbers_for_participants, sha256_hex_of, std_rng_draws, verification_hash_for,
    verification_text,
};
use crate::errors::LotteryError;
use crate::strfmt::{dec_rep, push_dec_u64, str_eq};
use crate::types::{
    parse_purpose, purpose_of_label, CommitmentEntry, DrawResult, Lottery, LotteryPublicInfo,
    ParticipantEntry,
};

verus! {

/// The id a fresh lottery is given: `lottery_`, then the creator identity,
/// then `_`, then the entropy seed in decimal.
pub open spec fn lottery_id_text(creator: Seq<char>, entropy_seed: u64) -> Seq<char> {
    "lottery_"@ + creator + "_"@ + dec_rep(entropy_seed as nat)
}

/// The character sequence an optional identity holds, if any.
pub open spec fn opt_text(o: Option<String>) -> Option<Seq<char>> {
    match o {
        Some(s) => Some(s@),
        None => None,
    }
}

/// The eligible rows of a participant ledger for one lottery: the rows for
/// that lottery whose holder owns at least one ticket, in ledger order.
pub open spec fn eligible_in(entries: Seq<ParticipantEntry>, id: Seq<char>) -> Seq<ParticipantEntry>
    decreases entries.len(),
{
    if entries.len() == 0 {
        Seq::empty()
    } else {
        let rest = eligible_in(entries.drop_last(), id);
        if entries.last().lottery_id@ == id && entries.last().tickets > 0 {
            rest.push(entries.last())
        } else {
            rest
        }
    }
}

/// The `(lottery id, ticket count)` rows of one identity in a participant
/// ledger, in ledger order.
pub open spec fn tickets_rows(entries: Seq<ParticipantEntry>, who: Seq<char>) -> Seq<
    (Seq<char>, u64),
>
    decreases entries.len(),
{
    if entries.len() == 0 {
        Seq::empty()
    } else {
        let rest = tickets_rows(entries.drop_last(), who);
        if entries.last().identity@ == who {
            rest.push((entries.last().lottery_id@, entries.last().tickets))
        } else {
            rest
        }
    }
}

/// The whole state of the lottery system: every table an operation reads or
/// writes. Each operation is an atomic transaction against one such value.
pub struct State {
    /// The external ledger/accounting reference, captured once at startup and
    /// immutable thereafter.
    pub ledger_ref: Option<String>,
    /// Lottery id to lottery, in creation order; ids never collide.
    pub lotteries: Vec<(String, Lottery)>,
    /// Lottery id to moderator, in creation order, one row per lottery.
    pub moderators: Vec<(String, Option<String>)>,
    /// The participant ledger, in join order: at most one row per
    /// (identity, lottery) pair.
    pub participants: Vec<ParticipantEntry>,
    /// The commitment registry, in submission order: at most one row per
    /// (lottery, identity) pair, each written once.
    pub commitments: Vec<CommitmentEntry>,
    /// Lottery id to the outcome of its most recent draw.
    pub draw_results: Vec<(String, DrawResult)>,
}

impl State {
    /// No two lotteries share an id.
    pub open spec fn lotteries_unique(self) -> bool {
        forall|i: int, j: int|
            0 <= i < j < self.lotteries@.len() ==> (#[trigger] self.lotteries@[i]).0@ != (
            #[trigger] self.lotteries@[j]).0@
    }

    /// The moderator table has exactly one row per lottery, in the same order.
    pub open spec fn moderators_aligned(self) -> bool {
        &&& self.moderators@.len() == self.lotteries@.len()
        &&& forall|i: int|
            0 <= i < self.moderators@.len() ==> (#[trigger] self.moderators@[i]).0@
                == self.lotteries@[i].0@
    }

    /// No two ledger rows name the same (identity, lottery) pair.
    pub open spec fn participants_unique(self) -> bool {
        forall|i: int, j: int|
            0 <= i < j < self.participants@.len() ==> !((#[trigger] self.participants@[i]).identity@
                == (#[trigger] self.participants@[j]).identity@ && self.participants@[i].lottery_id@
                == self.participants@[j].lottery_id@)
    }

    /// No two commitments name the same (lottery, identity) pair.
    pub open spec fn commitments_unique(self) -> bool {
        forall|i: int, j: int|
            0 <= i < j < self.commitments@.len() ==> !((#[trigger] self.commitments@[i]).lottery_id@
                == (#[trigger] self.commitments@[j]).lottery_id@ && self.commitments@[i].identity@
                == self.commitments@[j].identity@)
    }

    /// No two draw outcomes name the same lottery.
    pub open spec fn draw_results_unique(self) -> bool {
        forall|i: int, j: int|
            0 <= i < j < self.draw_results@.len() ==> (#[trigger] self.draw_results@[i]).0@ != (
            #[trigger] self.draw_results@[j]).0@
    }

    /// Well-formedness: every table keyed by an id or an identity pair holds
    /// at most one row per key, and the moderator table mirrors the lottery
    /// table. Constructors establish this and every operation preserves it.
    pub open spec fn wf(self) -> bool {
        &&& self.lotteries_unique()
        &&& self.moderators_aligned()
        &&& self.participants_unique()
        &&& self.commitments_unique()
        &&& self.draw_results_unique()
    }

    /// Round-trip integrity of the stored draw outcomes: every persisted
    /// verification hash is the digest of the persisted (lottery id, winner,
    /// winning index) triple.
    pub open spec fn hashes_ok(self) -> bool {
        forall|i: int|
            0 <= i < self.draw_results@.len()
                ==> (#[trigger] self.draw_results@[i]).1.verification_hash@ == sha256_hex_of(
                verification_text(
                    self.draw_results@[i].0@,
                    self.draw_results@[i].1.winner@,
                    self.draw_results@[i].1.winning_index,
                ),
            )
    }

    /// Whether a lottery with this id exists.
    pub open spec fn has_lottery(self, id: Seq<char>) -> bool {
        exists|i: int|
            0 <= i < self.lotteries@.len() && (#[trigger] self.lotteries@[i]).0@ == id
    }

    /// The position of the lottery with this id.
    pub open spec fn lottery_index(self, id: Seq<char>) -> int {
        choose|i: int| 0 <= i < self.lotteries@.len() && (#[trigger] self.lotteries@[i]).0@ == id
    }

    /// The lottery with this id.
    pub open spec fn lottery_of(self, id: Seq<char>) -> Lottery {
        self.lotteries@[self.lottery_index(id)].1
    }

    /// Whether the moderator table has a row for this id.
    pub open spec fn has_moderator_row(self, id: Seq<char>) -> bool {
        exists|i: int|
            0 <= i < self.moderators@.len() && (#[trigger] self.moderators@[i]).0@ == id
    }

    /// The position of the moderator row for this id.
    pub open spec fn moderator_index(self, id: Seq<char>) -> int {
        choose|i: int| 0 <= i < self.moderators@.len() && (#[trigger] self.moderators@[i]).0@ == id
    }

    /// The moderator assigned to this lottery, if the lottery exists and one
    /// was assigned.
    pub open spec fn moderator_of(self, id: Seq<char>) -> Option<String> {
        if self.has_moderator_row(id) {
            self.moderators@[self.moderator_index(id)].1
        } else {
            None
        }
    }

    /// Whether `who` is the moderator of the lottery with this id.
    pub open spec fn is_moderator(self, id: Seq<char>, who: Seq<char>) -> bool {
        opt_text(self.moderator_of(id)) == Some(who)
    }

    /// Whether `who` holds a ledger row for this lottery.
    pub open spec fn joined(self, id: Seq<char>, who: Seq<char>) -> bool {
        exists|i: int|
            0 <= i < self.participants@.len() && (#[trigger] self.participants@[i]).lottery_id@
                == id && self.participants@[i].identity@ == who
    }

    /// The position of the ledger row of `who` for this lottery.
    pub open spec fn entry_index(self, id: Seq<char>, who: Seq<char>) -> int {
        choose|i: int|
            0 <= i < self.participants@.len() && (#[trigger] self.participants@[i]).lottery_id@
                == id && self.participants@[i].identity@ == who
    }

    /// How many tickets `who` holds in this lottery; zero when it never
    /// joined.
    pub open spec fn tickets_of(self, id: Seq<char>, who: Seq<char>) -> u64 {
        if self.joined(id, who) {
            self.participants@[self.entry_index(id, who)].tickets
        } else {
            0
        }
    }

    /// Whether `who` already committed for this lottery.
    pub open spec fn committed(self, id: Seq<char>, who: Seq<char>) -> bool {
        exists|i: int|
            0 <= i < self.commitments@.len() && (#[trigger] self.commitments@[i]).lottery_id@ == id
                && self.commitments@[i].identity@ == who
    }

    /// Whether a draw outcome is stored for this lottery.
    pub open spec fn has_draw_result(self, id: Seq<char>) -> bool {
        exists|i: int|
            0 <= i < self.draw_results@.len() && (#[trigger] self.draw_results@[i]).0@ == id
    }

    /// The position of the stored draw outcome for this lottery.
    pub open spec fn draw_result_index(self, id: Seq<char>) -> int {
        choose|i: int|
            0 <= i < self.draw_results@.len() && (#[trigger] self.draw_results@[i]).0@ == id
    }

    /// The stored draw outcome for this lottery.
    pub open spec fn draw_result_of(self, id: Seq<char>) -> DrawResult {
        self.draw_results@[self.draw_result_index(id)].1
    }

    /// The eligible participants of this lottery at this moment, in ledger
    /// order: the draw selects its winner among exactly these.
    pub open spec fn eligible(self, id: Seq<char>) -> Seq<ParticipantEntry> {
        eligible_in(self.participants@, id)
    }

    /// The numbers the next draw of this lottery generates: one per eligible
    /// participant, from the generator seeded with the lottery's current
    /// seed.
    pub open spec fn draw_numbers_of(self, id: Seq<char>) -> Seq<u64> {
        std_rng_draws(self.lottery_of(id).rng_seed, self.eligible(id).len())
    }

    /// The index the next draw of this lottery selects: its last generated
    /// number reduced modulo the eligible-participant count.
    pub open spec fn draw_index_of(self, id: Seq<char>) -> int {
        self.draw_numbers_of(id).last() as int % self.eligible(id).len() as int
    }

    /// The identity the next draw of this lottery selects.
    pub open spec fn draw_winner_of(self, id: Seq<char>) -> Seq<char> {
        self.eligible(id)[self.draw_index_of(id)].identity@
    }

    /// In a well-formed state a matching row pins down `lottery_index`.
    proof fn lemma_lottery_index(self, id: Seq<char>, i: int)
        requires
            self.lotteries_unique(),
            0 <= i < self.lotteries@.len(),
            self.lotteries@[i].0@ == id,
        ensures
            self.has_lottery(id),
            self.lottery_index(id) == i,
    {
        assert(self.has_lottery(id));
        let k = self.lottery_index(id);
        assert(0 <= k < self.lotteries@.len() && self.lotteries@[k].0@ == id);
    }

    /// In a well-formed state a matching row pins down `moderator_index`.
    proof fn lemma_moderator_index(self, id: Seq<char>, i: int)
        requires
            self.wf(),
            0 <= i < self.moderators@.len(),
            self.moderators@[i].0@ == id,
        ensures
            self.has_moderator_row(id),
            self.moderator_index(id) == i,
    {
        assert(self.has_moderator_row(id));
        let k = self.moderator_index(id);
        assert(0 <= k < self.moderators@.len() && self.moderators@[k].0@ == id);
        assert(self.lotteries@[k].0@ == id && self.lotteries@[i].0@ == id);
    }

    /// In a well-formed state a matching row pins down `entry_index`.
    proof fn lemma_entry_index(self, id: Seq<char>, who: Seq<char>, i: int)
        requires
            self.participants_unique(),
            0 <= i < self.participants@.len(),
            self.participants@[i].lottery_id@ == id,
            self.participants@[i].identity@ == who,
        ensures
            self.joined(id, who),
            self.entry_index(id, who) == i,
    {
        assert(self.joined(id, who));
        let k = self.entry_index(id, who);
        assert(0 <= k < self.participants@.len() && self.participants@[k].lottery_id@ == id
            && self.participants@[k].identity@ == who);
    }

    /// In a well-formed state a matching row pins down `draw_result_index`.
    proof fn lemma_draw_result_index(self, id: Seq<char>, i: int)
        requires
            self.draw_results_unique(),
            0 <= i < self.draw_results@.len(),
            self.draw_results@[i].0@ == id,
        ensures
            self.has_draw_result(id),
            self.draw_result_index(id) == i,
    {
        assert(self.has_draw_result(id));
        let k = self.draw_result_index(id);
        assert(0 <= k < self.draw_results@.len() && self.draw_results@[k].0@ == id);
    }

    /// A fresh state: every table empty, no ledger reference captured yet.
    pub fn new() -> (s: State)
        ensures
            s.wf(),
            s.hashes_ok(),
            s.ledger_ref is None,
            s.lotteries@ =~= Seq::<(String, Lottery)>::empty(),
            s.moderators@ =~= Seq::<(String, Option<String>)>::empty(),
            s.participants@ =~= Seq::<ParticipantEntry>::empty(),
            s.commitments@ =~= Seq::<CommitmentEntry>::empty(),
            s.draw_results@ =~= Seq::<(String, DrawResult)>::empty(),
    {
        State {
            ledger_ref: None,
            lotteries: Vec::new(),
            moderators: Vec::new(),
            participants: Vec::new(),
            commitments: Vec::new(),
            draw_results: Vec::new(),
        }
    }

    /// Captures the external ledger reference, once, at startup.
    pub fn init(&mut self, ledger_ref: String)
        requires
            old(self).ledger_ref is None,
        ensures
            final(self).ledger_ref == Some(ledger_ref),
            final(self).lotteries == old(self).lotteries,
            final(self).moderators == old(self).moderators,
            final(self).participants == old(self).participants,
            final(self).commitments == old(self).commitments,
            final(self).draw_results == old(self).draw_results,
    {
        self.ledger_ref = Some(ledger_ref);
    }

    /// Wipes every table atomically: afterwards every read operation returns
    /// an empty result.
    pub fn clear_state(&mut self)
        ensures
            final(self).wf(),
            final(self).hashes_ok(),
            final(self).ledger_ref is None,
            final(self).lotteries@ =~= Seq::<(String, Lottery)>::empty(),
            final(self).moderators@ =~= Seq::<(String, Option<String>)>::empty(),
            final(self).participants@ =~= Seq::<ParticipantEntry>::empty(),
            final(self).commitments@ =~= Seq::<CommitmentEntry>::empty(),
            final(self).draw_results@ =~= Seq::<(String, DrawResult)>::empty(),
    {
        self.ledger_ref = None;
        self.lotteries = Vec::new();
        self.moderators = Vec::new();
        self.participants = Vec::new();
        self.commitments = Vec::new();
        self.draw_results = Vec::new();
    }

    /// Creates a fresh lottery. Its id is derived from the creator identity
    /// and the entropy seed; its draw seed is the entropy seed XORed with the
    /// creator identity's length; the creator becomes its moderator, fixed
    /// for the lottery's lifetime. Fails only when the derived id already
    /// exists.
    pub fn create_new_lottery(
        &mut self,
        purpose_label: String,
        ticket_price: u64,
        entropy_seed: u64,
        creator: String,
    ) -> (r: Result<String, LotteryError>)
        requires
            old(self).wf(),
        ensures
            final(self).wf(),
            old(self).hashes_ok() ==> final(self).hashes_ok(),
            match r {
                Ok(id) => {
                    &&& !old(self).has_lottery(lottery_id_text(creator@, entropy_seed))
                    &&& id@ == lottery_id_text(creator@, entropy_seed)
                    &&& final(self).lotteries@.len() == old(self).lotteries@.len() + 1
                    &&& forall|k: int|
                        0 <= k < old(self).lotteries@.len() ==> final(self).lotteries@[k] == old(
                            self,
                        ).lotteries@[k]
                    &&& final(self).lotteries@.last().0@ == id@
                    &&& final(self).lotteries@.last().1.commit_phase == false
                    &&& final(self).lotteries@.last().1.winning_number is None
                    &&& final(self).lotteries@.last().1.rng_seed == entropy_seed ^ (
                    creator@.len() as u64)
                    &&& final(self).lotteries@.last().1.generated_numbers@ == Seq::<u64>::empty()
                    &&& final(self).lotteries@.last().1.purpose@ == purpose_of_label(
                        purpose_label@,
                    )
                    &&& final(self).lotteries@.last().1.ticket_price == ticket_price
                    &&& final(self).lotteries@.last().1.prize_pool == 0
                    &&& final(self).moderators@.len() == old(self).moderators@.len() + 1
                    &&& forall|k: int|
                        0 <= k < old(self).moderators@.len() ==> final(self).moderators@[k] == old(
                            self,
                        ).moderators@[k]
                    &&& final(self).moderators@.last().0@ == id@
                    &&& opt_text(final(self).moderators@.last().1) == Some(creator@)
                    &&& final(self).participants == old(self).participants
                    &&& final(self).commitments == old(self).commitments
                    &&& final(self).draw_results == old(self).draw_results
                    &&& final(self).ledger_ref == old(self).ledger_ref
                },
                Err(e) => {
                    &&& e == LotteryError::DuplicateId
                    &&& old(self).has_lottery(lottery_id_text(creator@, entropy_seed))
                    &&& *final(self) == *old(self)
                },
            },
    {
        let mut id = String::from_str("lottery_");
        id.append(creator.as_str());
        id.append("_");
        push_dec_u64(&mut id, entropy_seed);
        proof {
            assert(id@ =~= lottery_id_text(creator@, entropy_seed));
        }
        match find_by_key(&self.lotteries, id.as_str()) {
            Some(_) => Err(LotteryError::DuplicateId),
            None => {
                let creator_len = creator.as_str().unicode_len();
                let lottery = Lottery {
                    commit_phase: false,
                    winning_number: None,
                    rng_seed: entropy_seed ^ (creator_len as u64),
                    generated_numbers: Vec::new(),
                    purpose: parse_purpose(purpose_label),
                    ticket_price,
                    prize_pool: 0,
                };
                self.lotteries.push((id.clone(), lottery));
                self.moderators.push((id.clone(), Some(creator)));
                Ok(id)
            },
        }
    }

    /// The read-only projection of every lottery, in creation order: its id,
    /// its phase flag and its purpose, without ticket or financial internals.
    pub fn get_all_lotteries(&self) -> (r: Vec<(String, LotteryPublicInfo)>)
        ensures
            r@.len() == self.lotteries@.len(),
            forall|k: int|
                0 <= k < r@.len() ==> {
                    &&& (#[trigger] r@[k]).0 == self.lotteries@[k].0
                    &&& r@[k].1.commit_phase == self.lotteries@[k].1.commit_phase
                    &&& r@[k].1.purpose == self.lotteries@[k].1.purpose
                },
    {
        let n = self.lotteries.len();
        let mut out: Vec<(String, LotteryPublicInfo)> = Vec::new();
        let mut i: usize = 0;
        while i < n
            invariant
                n == self.lotteries@.len(),
                0 <= i <= n,
                out@.len() == i,
                forall|k: int|
                    0 <= k < i ==> {
                        &&& (#[trigger] out@[k]).0 == self.lotteries@[k].0
                        &&& out@[k].1.commit_phase == self.lotteries@[k].1.commit_phase
                        &&& out@[k].1.purpose == self.lotteries@[k].1.purpose
                    },
            decreases n - i,
        {
            let row = &self.lotteries[i];
            out.push(
                (
                    row.0.clone(),
                    LotteryPublicInfo {
                        commit_phase: row.1.commit_phase,
                        purpose: row.1.purpose.clone(),
                    },
                ),
            );
            i = i + 1;
        }
        out
    }

    /// Every moderator assignment, in creation order.
    pub fn get_all_lottery_moderators(&self) -> (r: Vec<(String, Option<String>)>)
        ensures
            r@ == self.moderators@,
    {
        let n = self.moderators.len();
        let mut out: Vec<(String, Option<String>)> = Vec::new();
        let mut i: usize = 0;
        while i < n
            invariant
                n == self.moderators@.len(),
                0 <= i <= n,
                out@ =~= self.moderators@.take(i as int),
            decreases n - i,
        {
            let row = &self.moderators[i];
            out.push((row.0.clone(), row.1.clone()));
            i = i + 1;
        }
        proof {
            assert(self.moderators@.take(n as int) =~= self.moderators@);
        }
        out
    }

    /// Joins a lottery: inserts a ledger row with zero tickets. Joining is
    /// allowed in any phase, but only once per identity and lottery, and only
    /// for an existing lottery. A rejected attempt leaves the state unchanged.
    pub fn participant_joins(&mut self, lottery_id: String, caller: String) -> (r: Result<
        (),
        LotteryError,
    >)
        requires
            old(self).wf(),
        ensures
            final(self).wf(),
            old(self).hashes_ok() ==> final(self).hashes_ok(),
            match r {
                Ok(_) => {
                    &&& old(self).has_lottery(lottery_id@)
                    &&& !old(self).joined(lottery_id@, caller@)
                    &&& final(self).participants@ == old(self).participants@.push(
                        (ParticipantEntry { identity: caller, lottery_id: lottery_id, tickets: 0 }),
                    )
                    &&& final(self).joined(lottery_id@, caller@)
                    &&& final(self).tickets_of(lottery_id@, caller@) == 0
                    &&& final(self).lotteries == old(self).lotteries
                    &&& final(self).moderators == old(self).moderators
                    &&& final(self).commitments == old(self).commitments
                    &&& final(self).draw_results == old(self).draw_results
                    &&& final(self).ledger_ref == old(self).ledger_ref
                },
                Err(e) => {
                    &&& *final(self) == *old(self)
                    &&& (e == LotteryError::LotteryNotFound <==> !old(self).has_lottery(
                        lottery_id@,
                    ))
                    &&& (e == LotteryError::AlreadyJoined <==> old(self).has_lottery(lottery_id@)
                        && old(self).joined(lottery_id@, caller@))
                    &&& (e == LotteryError::LotteryNotFound || e == LotteryError::AlreadyJoined)
                },
            },
    {
        match find_by_key(&self.lotteries, lottery_id.as_str()) {
            None => {
                proof {
                    assert(!self.has_lottery(lottery_id@));
                }
                Err(LotteryError::LotteryNotFound)
            },
            Some(_) => {
                match find_participant(&self.participants, lottery_id.as_str(), caller.as_str()) {
                    Some(_) => Err(LotteryError::AlreadyJoined),
                    None => {
                        proof {
                            assert(!self.joined(lottery_id@, caller@));
                        }
                        self.participants.push(
                            ParticipantEntry { identity: caller, lottery_id, tickets: 0 },
                        );
                        proof {
                            final(self).lemma_entry_index(
                                lottery_id@,
                                caller@,
                                final(self).participants@.len() - 1,
                            );
                        }
                        Ok(())
                    },
                }
            },
        }
    }

    /// Buys tickets in a lottery the caller has joined: increments the
    /// caller's ticket count. The quantity must be at least one and the new
    /// count must stay representable; a rejected purchase leaves every ticket
    /// count unchanged.
    pub fn buy_tickets(&mut self, lottery_id: &String, caller: &String, num_tickets: u64) -> (r:
        Result<(), LotteryError>)
        requires
            old(self).wf(),
        ensures
            final(self).wf(),
            old(self).hashes_ok() ==> final(self).hashes_ok(),
            match r {
                Ok(_) => {
                    &&& num_tickets > 0
                    &&& old(self).joined(lottery_id@, caller@)
                    &&& old(self).tickets_of(lottery_id@, caller@) + num_tickets <= u64::MAX
                    &&& final(self).participants@ == old(self).participants@.update(
                        old(self).entry_index(lottery_id@, caller@),
                        (ParticipantEntry {
                            tickets: (old(self).tickets_of(lottery_id@, caller@) + num_tickets) as u64,
                            ..old(self).participants@[old(self).entry_index(lottery_id@, caller@)]
                        }),
                    )
                    &&& final(self).tickets_of(lottery_id@, caller@) == old(self).tickets_of(
                        lottery_id@,
                        caller@,
                    ) + num_tickets
                    &&& final(self).lotteries == old(self).lotteries
                    &&& final(self).moderators == old(self).moderators
                    &&& final(self).commitments == old(self).commitments
                    &&& final(self).draw_results == old(self).draw_results
                    &&& final(self).ledger_ref == old(self).ledger_ref
                },
                Err(e) => {
                    &&& *final(self) == *old(self)
                    &&& (e == LotteryError::InvalidQuantity <==> num_tickets == 0)
                    &&& (e == LotteryError::NotAJoinedParticipant <==> num_tickets > 0 && !old(
                        self,
                    ).joined(lottery_id@, caller@))
                    &&& (e == LotteryError::QuantityOverflow <==> num_tickets > 0 && old(
                        self,
                    ).joined(lottery_id@, caller@) && old(self).tickets_of(lottery_id@, caller@)
                        + num_tickets > u64::MAX)
                    &&& (e == LotteryError::InvalidQuantity || e
                        == LotteryError::NotAJoinedParticipant || e
                        == LotteryError::QuantityOverflow)
                },
            },
    {
        if num_tickets == 0 {
            return Err(LotteryError::InvalidQuantity);
        }
        match find_participant(&self.participants, lottery_id.as_str(), caller.as_str()) {
            None => {
                proof {
                    assert(!self.joined(lottery_id@, caller@));
                }
                Err(LotteryError::NotAJoinedParticipant)
            },
            Some(pi) => {
                proof {
                    self.lemma_entry_index(lottery_id@, caller@, pi as int);
                }
                let held = self.participants[pi].tickets;
                if num_tickets > u64::MAX - held {
                    return Err(LotteryError::QuantityOverflow);
                }
                self.participants[pi].tickets = held + num_tickets;
                proof {
                    final(self).lemma_entry_index(lottery_id@, caller@, pi as int);
                }
                Ok(())
            },
        }
    }

    /// Every `(lottery id, ticket count)` row of one identity, in join order.
    pub fn get_participant_lotteries(&self, caller: &String) -> (r: Vec<(String, u64)>)
        ensures
            r@.map_values(|p: (String, u64)| (p.0@, p.1)) == tickets_rows(
                self.participants@,
                caller@,
            ),
    {
        let n = self.participants.len();
        let mut out: Vec<(String, u64)> = Vec::new();
        let mut i: usize = 0;
        while i < n
            invariant
                n == self.participants@.len(),
                0 <= i <= n,
                out@.map_values(|p: (String, u64)| (p.0@, p.1)) =~= tickets_rows(
                    self.participants@.take(i as int),
                    caller@,
                ),
            decreases n - i,
        {
            let row = &self.participants[i];
            let ghost prev = out@;
            if str_eq(row.identity.as_str(), caller.as_str()) {
                out.push((row.lottery_id.clone(), row.tickets));
            }
            proof {
                let taken = self.participants@.take((i + 1) as int);
                assert(taken.drop_last() =~= self.participants@.take(i as int));
                assert(taken.last() == self.participants@[i as int]);
                if self.participants@[i as int].identity@ == caller@ {
                    assert(out@.map_values(|p: (String, u64)| (p.0@, p.1)) =~= prev.map_values(
                        |p: (String, u64)| (p.0@, p.1),
                    ).push((self.participants@[i as int].lottery_id@, self.participants@[i as int].tickets)));
                }
            }
            i = i + 1;
        }
        proof {
            assert(self.participants@.take(n as int) =~= self.participants@);
        }
        out
    }

    /// The capability check behind every moderator-only operation: accepts
    /// exactly when `caller` is the stored moderator of the lottery with this
    /// id. No hierarchy and no delegation: a bare identity comparison.
    pub fn require_moderator(&self, lottery_id: &String, caller: &String) -> (r: Result<
        (),
        LotteryError,
    >)
        requires
            self.wf(),
        ensures
            r is Ok <==> self.is_moderator(lottery_id@, caller@),
            r is Err ==> r == Err::<(), LotteryError>(LotteryError::NotAuthorized),
    {
        match find_by_key(&self.moderators, lottery_id.as_str()) {
            None => {
                proof {
                    assert(!self.has_moderator_row(lottery_id@));
                }
                Err(LotteryError::NotAuthorized)
            },
            Some(mi) => {
                proof {
                    self.lemma_moderator_index(lottery_id@, mi as int);
                }
                let authorized = match &self.moderators[mi].1 {
                    Some(m) => str_eq(m.as_str(), caller.as_str()),
                    None => false,
                };
                if authorized {
                    Ok(())
                } else {
                    Err(LotteryError::NotAuthorized)
                }
            },
        }
    }

    /// Opens the commitment phase of a lottery. Only its moderator may do
    /// this, and only while the phase is closed.
    pub fn start_commitment_phase(&mut self, lottery_id: &String, caller: &String) -> (r: Result<
        (),
        LotteryError,
    >)
        requires
            old(self).wf(),
        ensures
            final(self).wf(),
            old(self).hashes_ok() ==> final(self).hashes_ok(),
            match r {
                Ok(_) => {
                    &&& old(self).is_moderator(lottery_id@, caller@)
                    &&& old(self).has_lottery(lottery_id@)
                    &&& !old(self).lottery_of(lottery_id@).commit_phase
                    &&& final(self).lotteries@ == old(self).lotteries@.update(
                        old(self).lottery_index(lottery_id@),
                        (
                            old(self).lotteries@[old(self).lottery_index(lottery_id@)].0,
                            (Lottery {
                                commit_phase: true,
                                ..old(self).lotteries@[old(self).lottery_index(lottery_id@)].1
                            }),
                        ),
                    )
                    &&& final(self).moderators == old(self).moderators
                    &&& final(self).participants == old(self).participants
                    &&& final(self).commitments == old(self).commitments
                    &&& final(self).draw_results == old(self).draw_results
                    &&& final(self).ledger_ref == old(self).ledger_ref
                },
                Err(e) => {
                    &&& *final(self) == *old(self)
                    &&& (e == LotteryError::NotAuthorized <==> !old(self).is_moderator(
                        lottery_id@,
                        caller@,
                    ))
                    &&& (e == LotteryError::PhaseAlreadyOpen <==> old(self).is_moderator(
                        lottery_id@,
                        caller@,
                    ) && old(self).lottery_of(lottery_id@).commit_phase)
                    &&& (e == LotteryError::NotAuthorized || e == LotteryError::PhaseAlreadyOpen)
                },
            },
    {
        if let Err(e) = self.require_moderator(lottery_id, caller) {
            return Err(e);
        }
        match find_by_key(&self.moderators, lottery_id.as_str()) {
            None => {
                proof {
                    assert(false);
                }
                Err(LotteryError::NotAuthorized)
            },
            Some(mi) => {
                proof {
                    self.lemma_moderator_index(lottery_id@, mi as int);
                    self.lemma_lottery_index(lottery_id@, mi as int);
                }
                if self.lotteries[mi].1.commit_phase {
                    return Err(LotteryError::PhaseAlreadyOpen);
                }
                self.lotteries[mi].1.commit_phase = true;
                Ok(())
            },
        }
    }

    /// Closes the commitment phase of a lottery. Only its moderator may do
    /// this, and only while the phase is open.
    pub fn end_commitment_phase(&mut self, lottery_id: &String, caller: &String) -> (r: Result<
        (),
        LotteryError,
    >)
        requires
            old(self).wf(),
        ensures
            final(self).wf(),
            old(self).hashes_ok() ==> final(self).hashes_ok(),
            match r {
                Ok(_) => {
                    &&& old(self).is_moderator(lottery_id@, caller@)
                    &&& old(self).has_lottery(lottery_id@)
                    &&& old(self).lottery_of(lottery_id@).commit_phase
                    &&& final(self).lotteries@ == old(self).lotteries@.update(
                        old(self).lottery_index(lottery_id@),
                        (
                            old(self).lotteries@[old(self).lottery_index(lottery_id@)].0,
                            (Lottery {
                                commit_phase: false,
                                ..old(self).lotteries@[old(self).lottery_index(lottery_id@)].1
                            }),
                        ),
                    )
                    &&& final(self).moderators == old(self).moderators
                    &&& final(self).participants == old(self).participants
                    &&& final(self).commitments == old(self).commitments
                    &&& final(self).draw_results == old(self).draw_results
                    &&& final(self).ledger_ref == old(self).ledger_ref
                },
                Err(e) => {
                    &&& *final(self) == *old(self)
                    &&& (e == LotteryError::NotAuthorized <==> !old(self).is_moderator(
                        lottery_id@,
                        caller@,
                    ))
                    &&& (e == LotteryError::PhaseNotOpen <==> old(self).is_moderator(
                        lottery_id@,
                        caller@,
                    ) && !old(self).lottery_of(lottery_id@).commit_phase)
                    &&& (e == LotteryError::NotAuthorized || e == LotteryError::PhaseNotOpen)
                },
            },
    {
        if let Err(e) = self.require_moderator(lottery_id, caller) {
            return Err(e);
        }
        match find_by_key(&self.moderators, lottery_id.as_str()) {
            None => {
                proof {
                    assert(false);
                }
                Err(LotteryError::NotAuthorized)
            },
            Some(mi) => {
                proof {
                    self.lemma_moderator_index(lottery_id@, mi as int);
                    self.lemma_lottery_index(lottery_id@, mi as int);
                }
                if !self.lotteries[mi].1.commit_phase {
                    return Err(LotteryError::PhaseNotOpen);
                }
                self.lotteries[mi].1.commit_phase = false;
                Ok(())
            },
        }
    }

    /// Whether the commitment phase of the lottery with this id is open; a
    /// missing lottery counts as closed.
    pub fn get_commitment_phase(&self, lottery_id: &String) -> (r: bool)
        requires
            self.wf(),
        ensures
            r == (self.has_lottery(lottery_id@) && self.lottery_of(lottery_id@).commit_phase),
    {
        match find_by_key(&self.lotteries, lottery_id.as_str()) {
            Some(i) => {
                proof {
                    self.lemma_lottery_index(lottery_id@, i as int);
                }
                self.lotteries[i].1.commit_phase
            },
            None => {
                proof {
                    assert(!self.has_lottery(lottery_id@));
                }
                false
            },
        }
    }

    /// Stores one commitment per (lottery, participant) pair. The phase must
    /// be open for that lottery (a missing lottery counts as closed,
    /// whatever the caller's participant status), the caller must have
    /// joined, and a commitment is written once and never overwritten. The
    /// committed value itself is opaque: no format is checked and no reveal
    /// is ever validated against it.
    pub fn create_commitment(&mut self, lottery_id: String, caller: String, commitment: String) -> (r:
        Result<(), LotteryError>)
        requires
            old(self).wf(),
        ensures
            final(self).wf(),
            old(self).hashes_ok() ==> final(self).hashes_ok(),
            match r {
                Ok(_) => {
                    &&& old(self).has_lottery(lottery_id@)
                    &&& old(self).lottery_of(lottery_id@).commit_phase
                    &&& old(self).joined(lottery_id@, caller@)
                    &&& !old(self).committed(lottery_id@, caller@)
                    &&& final(self).commitments@ == old(self).commitments@.push(
                        (CommitmentEntry {
                            lottery_id: lottery_id,
                            identity: caller,
                            value: commitment,
                        }),
                    )
                    &&& final(self).committed(lottery_id@, caller@)
                    &&& final(self).lotteries == old(self).lotteries
                    &&& final(self).moderators == old(self).moderators
                    &&& final(self).participants == old(self).participants
                    &&& final(self).draw_results == old(self).draw_results
                    &&& final(self).ledger_ref == old(self).ledger_ref
                },
                Err(e) => {
                    &&& *final(self) == *old(self)
                    &&& (e == LotteryError::PhaseNotOpen <==> !(old(self).has_lottery(lottery_id@)
                        && old(self).lottery_of(lottery_id@).commit_phase))
                    &&& (e == LotteryError::NotAParticipant <==> old(self).has_lottery(lottery_id@)
                        && old(self).lottery_of(lottery_id@).commit_phase && !old(self).joined(
                        lottery_id@,
                        caller@,
                    ))
                    &&& (e == LotteryError::AlreadyCommitted <==> old(self).has_lottery(
                        lottery_id@,
                    ) && old(self).lottery_of(lottery_id@).commit_phase && old(self).joined(
                        lottery_id@,
                        caller@,
                    ) && old(self).committed(lottery_id@, caller@))
                    &&& (e == LotteryError::PhaseNotOpen || e == LotteryError::NotAParticipant || e
                        == LotteryError::AlreadyCommitted)
                },
            },
    {
        let open = match find_by_key(&self.lotteries, lottery_id.as_str()) {
            Some(li) => {
                proof {
                    self.lemma_lottery_index(lottery_id@, li as int);
                }
                self.lotteries[li].1.commit_phase
            },
            None => {
                proof {
                    assert(!self.has_lottery(lottery_id@));
                }
                false
            },
        };
        if !open {
            return Err(LotteryError::PhaseNotOpen);
        }
        match find_participant(&self.participants, lottery_id.as_str(), caller.as_str()) {
            None => {
                proof {
                    assert(!self.joined(lottery_id@, caller@));
                }
                Err(LotteryError::NotAParticipant)
            },
            Some(_) => {
                match find_commitment(&self.commitments, lottery_id.as_str(), caller.as_str()) {
                    Some(_) => Err(LotteryError::AlreadyCommitted),
                    None => {
                        proof {
                            assert(!self.committed(lottery_id@, caller@));
                        }
                        self.commitments.push(
                            CommitmentEntry { lottery_id, identity: caller, value: commitment },
                        );
                        proof {
                            let last = final(self).commitments@.len() - 1;
                            assert(final(self).commitments@[last].lottery_id@ == lottery_id@
                                && final(self).commitments@[last].identity@ == caller@);
                        }
                        Ok(())
                    },
                }
            },
        }
    }

    /// Collects the eligible participants of a lottery, in ledger order.
    fn eligible_entries(&self, lottery_id: &String) -> (r: Vec<ParticipantEntry>)
        ensures
            r@ == self.eligible(lottery_id@),
    {
        let n = self.participants.len();
        let mut out: Vec<ParticipantEntry> = Vec::new();
        let mut i: usize = 0;
        while i < n
            invariant
                n == self.participants@.len(),
                0 <= i <= n,
                out@ =~= eligible_in(self.participants@.take(i as int), lottery_id@),
            decreases n - i,
        {
            let row = &self.participants[i];
            if row.tickets > 0 && str_eq(row.lottery_id.as_str(), lottery_id.as_str()) {
                out.push(row.clone());
            }
            proof {
                let taken = self.participants@.take((i + 1) as int);
                assert(taken.drop_last() =~= self.participants@.take(i as int));
                assert(taken.last() == self.participants@[i as int]);
            }
            i = i + 1;
        }
        proof {
            assert(self.participants@.take(n as int) =~= self.participants@);
        }
        out
    }

    /// Draws a winner for a lottery. Seeds the generator with the lottery's
    /// current draw seed, generates one number per eligible participant and
    /// appends them to the audit trail; the last number becomes the new draw
    /// seed and, reduced modulo the eligible count, the winning index. The
    /// winner, the index and the verification hash over
    /// (lottery id, winner, index) are persisted; drawing again overwrites
    /// the previous outcome.
    pub fn generate_and_set_winner(&mut self, lottery_id: &String) -> (r: Result<u64, LotteryError>)
        requires
            old(self).wf(),
        ensures
            final(self).wf(),
            old(self).hashes_ok() ==> final(self).hashes_ok(),
            match r {
                Ok(idx) => {
                    &&& old(self).has_lottery(lottery_id@)
                    &&& old(self).eligible(lottery_id@).len() >= 1
                    &&& idx as int == old(self).draw_index_of(lottery_id@)
                    &&& idx < old(self).eligible(lottery_id@).len()
                    &&& final(self).lotteries@.len() == old(self).lotteries@.len()
                    &&& forall|k: int|
                        0 <= k < old(self).lotteries@.len() && k != old(self).lottery_index(
                            lottery_id@,
                        ) ==> final(self).lotteries@[k] == old(self).lotteries@[k]
                    &&& final(self).lotteries@[old(self).lottery_index(lottery_id@)].0 == old(
                        self,
                    ).lotteries@[old(self).lottery_index(lottery_id@)].0
                    &&& final(self).lottery_of(lottery_id@).generated_numbers@ == old(
                        self,
                    ).lottery_of(lottery_id@).generated_numbers@ + old(self).draw_numbers_of(
                        lottery_id@,
                    )
                    &&& final(self).lottery_of(lottery_id@).rng_seed == old(self).draw_numbers_of(
                        lottery_id@,
                    ).last()
                    &&& final(self).lottery_of(lottery_id@).winning_number == Some(idx)
                    &&& final(self).lottery_of(lottery_id@).commit_phase == old(self).lottery_of(
                        lottery_id@,
                    ).commit_phase
                    &&& final(self).lottery_of(lottery_id@).purpose == old(self).lottery_of(
                        lottery_id@,
                    ).purpose
                    &&& final(self).lottery_of(lottery_id@).ticket_price == old(self).lottery_of(
                        lottery_id@,
                    ).ticket_price
                    &&& final(self).lottery_of(lottery_id@).prize_pool == old(self).lottery_of(
                        lottery_id@,
                    ).prize_pool
                    &&& final(self).has_draw_result(lottery_id@)
                    &&& final(self).draw_result_of(lottery_id@).winner@ == old(self).draw_winner_of(
                        lottery_id@,
                    )
                    &&& final(self).draw_result_of(lottery_id@).winning_index == idx
                    &&& final(self).draw_result_of(lottery_id@).verification_hash@ == sha256_hex_of(
                        verification_text(lottery_id@, old(self).draw_winner_of(lottery_id@), idx),
                    )
                    &&& old(self).has_draw_result(lottery_id@) ==> final(self).draw_results@.len()
                        == old(self).draw_results@.len()
                    &&& !old(self).has_draw_result(lottery_id@) ==> final(self).draw_results@.len()
                        == old(self).draw_results@.len() + 1
                    &&& forall|k: int|
                        0 <= k < old(self).draw_results@.len() && old(self).draw_results@[k].0@
                            != lottery_id@ ==> final(self).draw_results@[k] == old(
                            self,
                        ).draw_results@[k]
                    &&& final(self).moderators == old(self).moderators
                    &&& final(self).participants == old(self).participants
                    &&& final(self).commitments == old(self).commitments
                    &&& final(self).ledger_ref == old(self).ledger_ref
                },
                Err(e) => {
                    &&& *final(self) == *old(self)
                    &&& (e == LotteryError::LotteryNotFound <==> !old(self).has_lottery(
                        lottery_id@,
                    ))
                    &&& (e == LotteryError::NoEligibleParticipants <==> old(self).has_lottery(
                        lottery_id@,
                    ) && old(self).eligible(lottery_id@).len() == 0)
                    &&& (e == LotteryError::LotteryNotFound || e
                        == LotteryError::NoEligibleParticipants)
                },
            },
    {
        let li = match find_by_key(&self.lotteries, lottery_id.as_str()) {
            None => {
                proof {
                    assert(!self.has_lottery(lottery_id@));
                }
                return Err(LotteryError::LotteryNotFound);
            },
            Some(li) => li,
        };
        proof {
            self.lemma_lottery_index(lottery_id@, li as int);
        }
        let eligible = self.eligible_entries(lottery_id);
        let num_participants = eligible.len();
        if num_participants == 0 {
            return Err(LotteryError::NoEligibleParticipants);
        }
        let seed = self.lotteries[li].1.rng_seed;
        let random_numbers = generate_random_numbers_for_participants(num_participants, seed);
        let last_random_number = random_numbers[num_participants - 1];
        proof {
            assert(random_numbers@.last() == last_random_number);
        }
        append_u64s(&mut self.lotteries[li].1.generated_numbers, &random_numbers);
        self.lotteries[li].1.rng_seed = last_random_number;
        let winner_index = last_random_number % (num_participants as u64);
        self.lotteries[li].1.winning_number = Some(winner_index);
        let winner = &eligible[winner_index as usize].identity;
        let verification_hash = verification_hash_for(
            lottery_id.as_str(),
            winner.as_str(),
            winner_index,
        );
        let outcome = DrawResult {
            winner: winner.clone(),
            winning_index: winner_index,
            verification_hash,
        };
        match find_by_key(&self.draw_results, lottery_id.as_str()) {
            Some(di) => {
                proof {
                    self.lemma_draw_result_index(lottery_id@, di as int);
                }
                self.draw_results[di].1 = outcome;
                proof {
                    final(self).lemma_draw_result_index(lottery_id@, di as int);
                    final(self).lemma_lottery_index(lottery_id@, li as int);
                }
            },
            None => {
                proof {
                    assert(!self.has_draw_result(lottery_id@));
                }
                self.draw_results.push((lottery_id.clone(), outcome));
                proof {
                    final(self).lemma_draw_result_index(
                        lottery_id@,
                        final(self).draw_results@.len() - 1,
                    );
                    final(self).lemma_lottery_index(lottery_id@, li as int);
                }
            },
        }
        Ok(winner_index)
    }

    /// The moderator of the lottery with this id, if the lottery exists and
    /// one was assigned.
    pub fn get_lottery_moderator(&self, lottery_id: &String) -> (r: Option<String>)
        requires
            self.wf(),
        ensures
            r == self.moderator_of(lottery_id@),
    {
        match find_by_key(&self.moderators, lottery_id.as_str()) {
            Some(i) => {
                proof {
                    self.lemma_moderator_index(lottery_id@, i as int);
                }
                self.moderators[i].1.clone()
            },
            None => {
                proof {
                    assert(!self.has_moderator_row(lottery_id@));
                }
                None
            },
        }
    }

    /// The winner of the most recent draw of this lottery, if one was drawn.
    pub fn get_winner(&self, lottery_id: &String) -> (r: Option<String>)
        requires
            self.wf(),
        ensures
            match r {
                Some(w) => self.has_draw_result(lottery_id@) && w == self.draw_result_of(
                    lottery_id@,
                ).winner,
                None => !self.has_draw_result(lottery_id@),
            },
    {
        match find_by_key(&self.draw_results, lottery_id.as_str()) {
            Some(i) => {
                proof {
                    self.lemma_draw_result_index(lottery_id@, i as int);
                }
                Some(self.draw_results[i].1.winner.clone())
            },
            None => {
                proof {
                    assert(!self.has_draw_result(lottery_id@));
                }
                None
            },
        }
    }

    /// The verification hash of the most recent draw of this lottery, if one
    /// was drawn.
    pub fn get_verification_hash(&self, lottery_id: &String) -> (r: Option<String>)
        requires
            self.wf(),
        ensures
            match r {
                Some(h) => self.has_draw_result(lottery_id@) && h == self.draw_result_of(
                    lottery_id@,
                ).verification_hash,
                None => !self.has_draw_result(lottery_id@),
            },
    {
        match find_by_key(&self.draw_results, lottery_id.as_str()) {
            Some(i) => {
                proof {
                    self.lemma_draw_result_index(lottery_id@, i as int);
                }
                Some(self.draw_results[i].1.verification_hash.clone())
            },
            None => {
                proof {
                    assert(!self.has_draw_result(lottery_id@));
                }
                None
            },
        }
    }
}

/// Determinism of the draw engine: two states that agree on a lottery's draw
/// seed and on its eligible-participant count generate the same numbers and
/// select the same winning index, whatever else they differ in; when the
/// eligible orderings agree as well, they select the same winner.
pub proof fn lemma_draw_deterministic(s1: State, s2: State, id1: Seq<char>, id2: Seq<char>)
    requires
        s1.has_lottery(id1),
        s2.has_lottery(id2),
        s1.lottery_of(id1).rng_seed == s2.lottery_of(id2).rng_seed,
        s1.eligible(id1).len() == s2.eligible(id2).len(),
        s1.eligible(id1).len() >= 1,
    ensures
        s1.draw_numbers_of(id1) == s2.draw_numbers_of(id2),
        s1.draw_index_of(id1) == s2.draw_index_of(id2),
        s1.eligible(id1) == s2.eligible(id2) ==> s1.draw_winner_of(id1) == s2.draw_winner_of(id2),
{
}

/// The winning index a draw selects always lies in `[0, N)`, where `N` is the
/// eligible-participant count at draw time.
pub proof fn lemma_winning_index_in_range(s: State, id: Seq<char>)
    requires
        s.has_lottery(id),
        s.eligible(id).len() >= 1,
    ensures
        0 <= s.draw_index_of(id) < s.eligible(id).len(),
{
}

/// Round-trip integrity: in any state whose stored draw outcomes are
/// well-founded, the verification hash recomputed from a persisted
/// (lottery id, winner, winning index) triple equals the stored hash.
pub proof fn lemma_verification_round_trip(s: State, i: int)
    requires
        s.hashes_ok(),
        0 <= i < s.draw_results@.len(),
    ensures
        s.draw_results@[i].1.verification_hash@ == sha256_hex_of(
            verification_text(
                s.draw_results@[i].0@,
                s.draw_results@[i].1.winner@,
                s.draw_results@[i].1.winning_index,
            ),
        ),
{
}

/// Appends every number of `src` to `dst`, in order.
fn append_u64s(dst: &mut Vec<u64>, src: &Vec<u64>)
    ensures
        final(dst)@ == old(dst)@ + src@,
{
    let n = src.len();
    let mut i: usize = 0;
    while i < n
        invariant
            n == src@.len(),
            0 <= i <= n,
            dst@ =~= old(dst)@ + src@.take(i as int),
        decreases n - i,
    {
        let ghost prev = dst@;
        dst.push(src[i]);
        proof {
            assert(old(dst)@ + src@.take((i + 1) as int) =~= prev.push(src@[i as int]));
        }
        i = i + 1;
    }
    proof {
        assert(old(dst)@ + src@.take(n as int) =~= old(dst)@ + src@);
    }
}

/// Finds the row with this key in an id-keyed table.
fn find_by_key<T>(table: &Vec<(String, T)>, key: &str) -> (r: Option<usize>)
    ensures
        match r {
            Some(i) => 0 <= i < table@.len() && table@[i as int].0@ == key@,
            None => forall|j: int| 0 <= j < table@.len() ==> (#[trigger] table@[j]).0@ != key@,
        },
{
    let n = table.len();
    let mut i: usize = 0;
    while i < n
        invariant
            n == table@.len(),
            0 <= i <= n,
            forall|j: int| 0 <= j < i ==> (#[trigger] table@[j]).0@ != key@,
        decreases n - i,
    {
        let row = &table[i];
        if str_eq(row.0.as_str(), key) {
            return Some(i);
        }
        i = i + 1;
    }
    None
}

/// Finds the ledger row of `who` for the lottery with this id.
fn find_participant(ledger: &Vec<ParticipantEntry>, id: &str, who: &str) -> (r: Option<usize>)
    ensures
        match r {
            Some(i) => 0 <= i < ledger@.len() && ledger@[i as int].lottery_id@ == id@
                && ledger@[i as int].identity@ == who@,
            None => forall|j: int|
                0 <= j < ledger@.len() ==> !((#[trigger] ledger@[j]).lottery_id@ == id@
                    && ledger@[j].identity@ == who@),
        },
{
    let n = ledger.len();
    let mut i: usize = 0;
    while i < n
        invariant
            n == ledger@.len(),
            0 <= i <= n,
            forall|j: int|
                0 <= j < i ==> !((#[trigger] ledger@[j]).lottery_id@ == id@ && ledger@[j].identity@
                    == who@),
        decreases n - i,
    {
        let row = &ledger[i];
        if str_eq(row.lottery_id.as_str(), id) && str_eq(row.identity.as_str(), who) {
            return Some(i);
        }
        i = i + 1;
    }
    None
}

/// Finds the commitment of `who` for the lottery with this id.
fn find_commitment(registry: &Vec<CommitmentEntry>, id: &str, who: &str) -> (r: Option<usize>)
    ensures
        match r {
            Some(i) => 0 <= i < registry@.len() && registry@[i as int].lottery_id@ == id@
                && registry@[i as int].identity@ == who@,
            None => forall|j: int|
                0 <= j < registry@.len() ==> !((#[trigger] registry@[j]).lottery_id@ == id@
                    && registry@[j].identity@ == who@),
        },
{
    let n = registry.len();
    let mut i: usize = 0;
    while i < n
        invariant
            n == registry@.len(),
            0 <= i <= n,
            forall|j: int|
                0 <= j < i ==> !((#[trigger] registry@[j]).lottery_id@ == id@
                    && registry@[j].identity@ == who@),
        decreases n - i,
    {
        let row = &registry[i];
        if str_eq(row.lottery_id.as_str(), id) && str_eq(row.identity.as_str(), who) {
            return Some(i);
        }
        i = i + 1;
    }
    None
}

} // verus!
