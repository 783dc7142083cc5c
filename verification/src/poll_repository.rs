//! Votes and tallies: which ballots a poll accepts, what recording one
//! writes, and what a poll's rows add up to.

use vstd::prelude::*;

use crate::clock::Timestamp;
use crate::domain::Id;
use crate::error::{rejected, AppError, ErrorKind, ErrorTag, NOT_FOUND, UNPROCESSABLE_ENTITY};
use crate::model::{Poll, PollOption, PollVote};
use crate::order::{
    ascending, by_index, distinct_values, law_by_index_is_sorted, options_by_index, sorted_values,
    strictly_ascending,
};

verus! {

/// What became of a vote.
#[derive(Debug, Clone, Copy, PartialEq, Eq, Structural)]
pub enum VoteOutcome {
    Recorded,
}

/// A row change that recording a vote makes.
#[derive(Debug, Clone, Copy, PartialEq, Eq, Structural)]
pub enum VoteWrite {
    /// Insert a vote row.
    Insert(PollVote),
    /// Add one to the `votes_count` of an option.
    Count { poll_id: Id, idx: i32 },
}

/// A vote that was accepted: its distinct choices in ascending order, and
/// the row changes to make in one transaction.
#[derive(Debug, PartialEq, Eq)]
pub struct AcceptedVote {
    pub outcome: VoteOutcome,
    pub ballot: Vec<i32>,
    pub writes: Vec<VoteWrite>,
}

/// What was read of a poll while its row was locked.
#[derive(Debug, PartialEq, Eq)]
pub struct PollBook {
    pub poll: Option<Poll>,
    pub valid_indices: Vec<i32>,
    pub already_voted: bool,
}

/// The `404` for a poll that does not exist or may not be seen.
pub fn poll_not_found() -> (r: AppError)
    ensures
        r.is_client(NOT_FOUND, "poll not found"@),
{
    AppError::client(NOT_FOUND, "poll not found".to_owned())
}

/// The rejection of a second vote by the same actor.
fn duplicate_vote() -> (r: AppError)
    ensures
        r.shows(
            UNPROCESSABLE_ENTITY,
            "actor has already voted in this poll"@,
            Some(ErrorTag::DuplicateVote),
        ),
{
    AppError {
        kind: ErrorKind::Client,
        status: UNPROCESSABLE_ENTITY,
        public_message: "actor has already voted in this poll".to_owned(),
        tag: Some(ErrorTag::DuplicateVote),
    }
}

/// Whether the poll's deadline has come.
pub open spec fn closed_at(poll: Poll, now: Timestamp) -> bool {
    match poll.expires_at {
        Some(deadline) => now.instant() >= deadline.instant(),
        None => false,
    }
}

/// Whether two selected indices differ.
pub open spec fn selects_several(choices: Seq<i32>) -> bool {
    exists|i: int, j: int|
        0 <= i < choices.len() && 0 <= j < choices.len() && choices[i] != choices[j]
}

/// Whether every selected index is the index of an option.
pub open spec fn all_valid(choices: Seq<i32>, valid_indices: Seq<i32>) -> bool {
    forall|i: int| 0 <= i < choices.len() ==> valid_indices.contains(#[trigger] choices[i])
}

/// Why a vote is refused: the status, message and tag of the error, for the
/// first rule that it breaks. `None` where it breaks none.
pub open spec fn vote_refusal(
    choices: Seq<i32>,
    poll: Option<Poll>,
    valid_indices: Seq<i32>,
    already_voted: bool,
    now: Timestamp,
) -> Option<(u16, Seq<char>, Option<ErrorTag>)> {
    if choices.len() == 0 {
        Some((UNPROCESSABLE_ENTITY, "at least one poll option must be selected"@, None))
    } else {
        match poll {
            None => Some((NOT_FOUND, "poll not found"@, None)),
            Some(poll) => if closed_at(poll, now) {
                Some((UNPROCESSABLE_ENTITY, "poll has already closed"@, None))
            } else if !poll.multiple && selects_several(choices) {
                Some(
                    (
                        UNPROCESSABLE_ENTITY,
                        "a single-choice poll accepts only one selected option"@,
                        None,
                    ),
                )
            } else if !all_valid(choices, valid_indices) {
                Some((UNPROCESSABLE_ENTITY, "selected option index is out of range"@, None))
            } else if already_voted {
                Some(
                    (
                        UNPROCESSABLE_ENTITY,
                        "actor has already voted in this poll"@,
                        Some(ErrorTag::DuplicateVote),
                    ),
                )
            } else {
                None
            },
        }
    }
}

/// Whether `ballot` holds the selected indices, each once, in ascending
/// order.
pub open spec fn is_ballot(ballot: Seq<i32>, choices: Seq<i32>) -> bool {
    &&& strictly_ascending(ballot)
    &&& forall|v: i32| ballot.contains(v) <==> choices.contains(v)
}

/// The row changes of a ballot: for each choice a vote row and one more in
/// the option's count.
pub open spec fn ballot_writes(
    poll_id: Id,
    actor_id: Id,
    ballot: Seq<i32>,
    now: Timestamp,
) -> Seq<VoteWrite>
    decreases ballot.len(),
{
    if ballot.len() == 0 {
        Seq::empty()
    } else {
        ballot_writes(poll_id, actor_id, ballot.drop_last(), now).push(
            VoteWrite::Insert(
                PollVote { poll_id, actor_id, choice: ballot.last(), created_at: now },
            ),
        ).push(VoteWrite::Count { poll_id, idx: ballot.last() })
    }
}

fn contains_value(values: &Vec<i32>, value: i32) -> (r: bool)
    ensures
        r == values@.contains(value),
{
    let mut i: usize = 0;
    while i < values.len()
        invariant
            i <= values.len(),
            forall|j: int| 0 <= j < i ==> values@[j] != value,
        decreases values.len() - i,
    {
        if values[i] == value {
            assert(values@[i as int] == value);
            return true;
        }
        i += 1;
    }
    false
}

proof fn lemma_ballot_size(ballot: Seq<i32>, choices: Seq<i32>)
    requires
        is_ballot(ballot, choices),
    ensures
        ballot.len() > 1 <==> selects_several(choices),
{
    if ballot.len() > 1 {
        assert(ballot.contains(ballot[0]) && ballot.contains(ballot[1]));
        let i = choose|i: int| 0 <= i < choices.len() && choices[i] == ballot[0];
        let j = choose|j: int| 0 <= j < choices.len() && choices[j] == ballot[1];
        assert(choices[i] != choices[j]);
    }
    if selects_several(choices) {
        let (i, j) = choose|i: int, j: int|
            0 <= i < choices.len() && 0 <= j < choices.len() && choices[i] != choices[j];
        assert(choices.contains(choices[i]) && choices.contains(choices[j]));
        assert(ballot.contains(choices[i]) && ballot.contains(choices[j]));
    }
}

proof fn lemma_ballot_valid(ballot: Seq<i32>, choices: Seq<i32>, valid_indices: Seq<i32>)
    requires
        is_ballot(ballot, choices),
    ensures
        all_valid(ballot, valid_indices) <==> all_valid(choices, valid_indices),
{
    if all_valid(ballot, valid_indices) {
        assert forall|i: int| 0 <= i < choices.len() implies valid_indices.contains(
            #[trigger] choices[i],
        ) by {
            assert(choices.contains(choices[i]));
            let k = choose|k: int| 0 <= k < ballot.len() && ballot[k] == choices[i];
            assert(valid_indices.contains(ballot[k]));
        }
    }
    if all_valid(choices, valid_indices) {
        assert forall|k: int| 0 <= k < ballot.len() implies valid_indices.contains(
            #[trigger] ballot[k],
        ) by {
            assert(ballot.contains(ballot[k]));
            let i = choose|i: int| 0 <= i < choices.len() && choices[i] == ballot[k];
            assert(valid_indices.contains(choices[i]));
        }
    }
}

/// Decides a vote against what was read of the poll: either the error for
/// the first rule that it breaks, or the row changes that record it.
pub fn record_vote(
    poll_id: Id,
    actor_id: Id,
    choices: &[i32],
    now: Timestamp,
    book: &PollBook,
) -> (r: Result<AcceptedVote, AppError>)
    ensures
        match vote_refusal(
            choices@,
            book.poll,
            book.valid_indices@,
            book.already_voted,
            now,
        ) {
            Some((status, message, tag)) => r matches Err(e) && e.shows(status, message, tag),
            None => r matches Ok(accepted) && accepted.outcome == VoteOutcome::Recorded
                && is_ballot(accepted.ballot@, choices@) && accepted.writes@ == ballot_writes(
                poll_id,
                actor_id,
                accepted.ballot@,
                now,
            ),
        },
{
    if choices.len() == 0 {
        return Err(rejected("at least one poll option must be selected"));
    }
    let ballot: Vec<i32> = distinct_values(choices);
    proof {
        lemma_ballot_size(ballot@, choices@);
        lemma_ballot_valid(ballot@, choices@, book.valid_indices@);
    }
    let poll: Poll = match book.poll {
        Some(poll) => poll,
        None => {
            return Err(poll_not_found());
        },
    };
    if let Some(deadline) = poll.expires_at {
        if now.at_or_after(&deadline) {
            return Err(rejected("poll has already closed"));
        }
    }
    if !poll.multiple && ballot.len() > 1 {
        return Err(rejected("a single-choice poll accepts only one selected option"));
    }
    let mut i: usize = 0;
    while i < ballot.len()
        invariant
            i <= ballot.len(),
            forall|j: int| 0 <= j < i ==> book.valid_indices@.contains(#[trigger] ballot@[j]),
            choices@.len() > 0,
            book.poll == Some(poll),
            !closed_at(poll, now),
            poll.multiple || !selects_several(choices@),
            all_valid(ballot@, book.valid_indices@) <==> all_valid(
                choices@,
                book.valid_indices@,
            ),
        decreases ballot.len() - i,
    {
        if !contains_value(&book.valid_indices, ballot[i]) {
            assert(!book.valid_indices@.contains(ballot@[i as int]));
            return Err(rejected("selected option index is out of range"));
        }
        i += 1;
    }
    if book.already_voted {
        return Err(duplicate_vote());
    }
    let mut writes: Vec<VoteWrite> = Vec::new();
    let mut k: usize = 0;
    assert(ballot@.take(0) =~= Seq::<i32>::empty());
    while k < ballot.len()
        invariant
            k <= ballot.len(),
            writes@ == ballot_writes(poll_id, actor_id, ballot@.take(k as int), now),
        decreases ballot.len() - k,
    {
        let choice: i32 = ballot[k];
        writes.push(VoteWrite::Insert(PollVote { poll_id, actor_id, choice, created_at: now }));
        writes.push(VoteWrite::Count { poll_id, idx: choice });
        proof {
            assert(ballot@.take(k + 1).drop_last() =~= ballot@.take(k as int));
        }
        k += 1;
    }
    assert(ballot@.take(k as int) =~= ballot@);
    Ok(AcceptedVote { outcome: VoteOutcome::Recorded, ballot, writes })
}

/// What a poll's rows add up to, as one viewer sees it.
#[derive(Debug, PartialEq, Eq)]
pub struct PollTally {
    pub poll_id: Id,
    /// The options in the order of their indices.
    pub options: Vec<PollOption>,
    /// How many actors voted.
    pub voters_count: i64,
    /// The viewer's own choices, ascending.
    pub own_votes: Vec<i32>,
}

/// The option rows of one poll.
pub open spec fn options_of(rows: Seq<PollOption>, poll_id: Id) -> Seq<PollOption> {
    rows.filter(|o: PollOption| o.poll_id == poll_id)
}

/// The actors who voted in a poll.
pub open spec fn voters_of(rows: Seq<PollVote>, poll_id: Id) -> Set<Id> {
    Set::new(
        |actor: Id|
            exists|i: int|
                0 <= i < rows.len() && (#[trigger] rows[i]).poll_id == poll_id && rows[i].actor_id
                    == actor,
    )
}

/// The choices of one actor in a poll, in row order.
pub open spec fn choices_of(rows: Seq<PollVote>, poll_id: Id, actor: Id) -> Seq<i32> {
    rows.filter(|v: PollVote| v.poll_id == poll_id && v.actor_id == actor).map_values(
        |v: PollVote| v.choice,
    )
}

/// The choices that count as the viewer's own; none without a viewer.
pub open spec fn own_choices(rows: Seq<PollVote>, poll_id: Id, viewer: Option<Id>) -> Seq<i32> {
    match viewer {
        Some(actor) => choices_of(rows, poll_id, actor),
        None => Seq::empty(),
    }
}

/// Whether `tally` is what the rows of a poll add up to.
pub open spec fn is_tally(
    tally: PollTally,
    poll_id: Id,
    option_rows: Seq<PollOption>,
    vote_rows: Seq<PollVote>,
    viewer: Option<Id>,
) -> bool {
    &&& tally.poll_id == poll_id
    &&& tally.options@ == by_index(options_of(option_rows, poll_id))
    &&& tally.voters_count == voters_of(vote_rows, poll_id).len()
    &&& ascending(tally.own_votes@)
    &&& tally.own_votes@.to_multiset() == own_choices(vote_rows, poll_id, viewer).to_multiset()
}

/// Whether `r` is the answer to a request for a poll's tally.
pub open spec fn is_tally_answer(
    r: Result<PollTally, AppError>,
    poll_id: Id,
    exists_row: bool,
    option_rows: Seq<PollOption>,
    vote_rows: Seq<PollVote>,
    viewer: Option<Id>,
) -> bool {
    match r {
        Ok(t) => exists_row && is_tally(t, poll_id, option_rows, vote_rows, viewer),
        Err(e) => !exists_row && e.is_client(NOT_FOUND, "poll not found"@),
    }
}

fn filter_options(rows: &[PollOption], poll_id: Id) -> (r: Vec<PollOption>)
    ensures
        r@ == options_of(rows@, poll_id),
{
    let mut out: Vec<PollOption> = Vec::new();
    let mut i: usize = 0;
    proof {
        reveal(Seq::filter);
        assert(rows@.take(0) =~= out@);
    }
    while i < rows.len()
        invariant
            i <= rows.len(),
            out@ == options_of(rows@.take(i as int), poll_id),
        decreases rows.len() - i,
    {
        proof {
            reveal(Seq::filter);
            assert(rows@.take(i + 1).drop_last() =~= rows@.take(i as int));
        }
        if rows[i].poll_id == poll_id {
            out.push(rows[i].clone());
        }
        i += 1;
    }
    assert(rows@.take(i as int) =~= rows@);
    out
}

fn filter_choices(rows: &[PollVote], poll_id: Id, actor: Id) -> (r: Vec<i32>)
    ensures
        r@ == choices_of(rows@, poll_id, actor),
{
    let mut out: Vec<i32> = Vec::new();
    let mut i: usize = 0;
    proof {
        reveal(Seq::filter);
        assert(rows@.take(0) =~= Seq::<PollVote>::empty());
        assert(choices_of(rows@.take(0), poll_id, actor) =~= out@);
    }
    while i < rows.len()
        invariant
            i <= rows.len(),
            out@ == choices_of(rows@.take(i as int), poll_id, actor),
        decreases rows.len() - i,
    {
        let ghost before = out@;
        proof {
            reveal(Seq::filter);
            assert(rows@.take(i + 1).drop_last() =~= rows@.take(i as int));
        }
        if rows[i].poll_id == poll_id && rows[i].actor_id == actor {
            out.push(rows[i].choice);
        }
        assert(out@ =~= choices_of(rows@.take(i + 1), poll_id, actor));
        i += 1;
    }
    assert(rows@.take(i as int) =~= rows@);
    out
}

fn contains_id(ids: &Vec<Id>, id: Id) -> (r: bool)
    ensures
        r == ids@.contains(id),
{
    let mut i: usize = 0;
    while i < ids.len()
        invariant
            i <= ids.len(),
            forall|j: int| 0 <= j < i ==> ids@[j] != id,
        decreases ids.len() - i,
    {
        if ids[i] == id {
            assert(ids@[i as int] == id);
            return true;
        }
        i += 1;
    }
    false
}

fn count_voters(rows: &[PollVote], poll_id: Id) -> (r: i64)
    requires
        rows.len() <= i64::MAX,
    ensures
        r == voters_of(rows@, poll_id).len(),
        voters_of(rows@, poll_id).finite(),
{
    let mut voters: Vec<Id> = Vec::new();
    let mut i: usize = 0;
    while i < rows.len()
        invariant
            i <= rows.len(),
            voters@.no_duplicates(),
            voters.len() <= i,
            forall|actor: Id|
                voters@.contains(actor) <==> (exists|k: int|
                    0 <= k < i && (#[trigger] rows@[k]).poll_id == poll_id && rows@[k].actor_id
                        == actor),
        decreases rows.len() - i,
    {
        let ghost before = voters@;
        let row: PollVote = rows[i];
        if row.poll_id == poll_id && !contains_id(&voters, row.actor_id) {
            voters.push(row.actor_id);
            assert(voters@[before.len() as int] == row.actor_id);
        }
        assert forall|actor: Id| voters@.contains(actor) <==> (exists|k: int|
            0 <= k < i + 1 && (#[trigger] rows@[k]).poll_id == poll_id && rows@[k].actor_id
                == actor) by {
            assert(rows@[i as int] == row);
            if voters@.contains(actor) {
                let j = choose|j: int| 0 <= j < voters@.len() && voters@[j] == actor;
                if j < before.len() {
                    assert(before[j] == actor);
                    assert(before.contains(actor));
                }
            }
            if before.contains(actor) {
                let j = choose|j: int| 0 <= j < before.len() && before[j] == actor;
                assert(voters@[j] == actor);
            }
        }
        i += 1;
    }
    proof {
        assert(voters@.to_set() =~= voters_of(rows@, poll_id));
        voters@.unique_seq_to_set();
    }
    voters.len() as i64
}

/// Adds up the rows of a poll as a viewer sees it; `404` for a poll that
/// does not exist.
pub fn tally(
    poll_id: Id,
    exists_row: bool,
    option_rows: &[PollOption],
    vote_rows: &[PollVote],
    viewer: Option<Id>,
) -> (r: Result<PollTally, AppError>)
    requires
        vote_rows.len() <= i64::MAX,
    ensures
        is_tally_answer(r, poll_id, exists_row, option_rows@, vote_rows@, viewer),
{
    if !exists_row {
        return Err(poll_not_found());
    }
    let rows: Vec<PollOption> = filter_options(option_rows, poll_id);
    let own_votes: Vec<i32> = match viewer {
        Some(actor) => {
            let own: Vec<i32> = filter_choices(vote_rows, poll_id, actor);
            sorted_values(own.as_slice())
        },
        None => Vec::new(),
    };
    Ok(
        PollTally {
            poll_id,
            options: options_by_index(rows.as_slice()),
            voters_count: count_voters(vote_rows, poll_id),
            own_votes,
        },
    )
}

/// The poll row with the given id.
pub open spec fn poll_in(rows: Seq<Poll>, poll_id: Id) -> Option<Poll>
    decreases rows.len(),
{
    if rows.len() == 0 {
        None
    } else if rows[0].id == poll_id {
        Some(rows[0])
    } else {
        poll_in(rows.skip(1), poll_id)
    }
}

/// The poll row with the given id.
pub fn find_poll_by_id(rows: &[Poll], poll_id: Id) -> (r: Option<Poll>)
    ensures
        r == poll_in(rows@, poll_id),
{
    let mut i: usize = 0;
    assert(rows@.skip(0) =~= rows@);
    while i < rows.len()
        invariant
            i <= rows.len(),
            poll_in(rows@, poll_id) == poll_in(rows@.skip(i as int), poll_id),
        decreases rows.len() - i,
    {
        assert(rows@.skip(i as int)[0] == rows@[i as int]);
        assert(rows@.skip(i as int).skip(1) =~= rows@.skip(i + 1));
        if rows[i].id == poll_id {
            return Some(rows[i]);
        }
        i += 1;
    }
    None
}

/// The requested polls that exist, in the order they were asked for.
pub open spec fn polls_found(rows: Seq<Poll>, poll_ids: Seq<Id>) -> Seq<(Id, Poll)>
    decreases poll_ids.len(),
{
    if poll_ids.len() == 0 {
        Seq::empty()
    } else {
        match poll_in(rows, poll_ids.last()) {
            Some(poll) => polls_found(rows, poll_ids.drop_last()).push((poll_ids.last(), poll)),
            None => polls_found(rows, poll_ids.drop_last()),
        }
    }
}

/// The requested polls that exist, in the order they were asked for: the
/// same answers as one [`find_poll_by_id`] per id, without the misses.
pub fn find_polls_by_ids(rows: &[Poll], poll_ids: &[Id]) -> (r: Vec<(Id, Poll)>)
    ensures
        r@ == polls_found(rows@, poll_ids@),
{
    let mut out: Vec<(Id, Poll)> = Vec::new();
    let mut i: usize = 0;
    assert(poll_ids@.take(0) =~= Seq::<Id>::empty());
    while i < poll_ids.len()
        invariant
            i <= poll_ids.len(),
            out@ == polls_found(rows@, poll_ids@.take(i as int)),
        decreases poll_ids.len() - i,
    {
        assert(poll_ids@.take(i + 1).drop_last() =~= poll_ids@.take(i as int));
        if let Some(poll) = find_poll_by_id(rows, poll_ids[i]) {
            out.push((poll_ids[i], poll));
        }
        i += 1;
    }
    assert(poll_ids@.take(i as int) =~= poll_ids@);
    out
}

/// The tallies of the requested polls that exist, in the order they were
/// asked for: the same answers as one [`tally`] per id, without the misses.
pub fn tally_many(
    poll_ids: &[Id],
    polls: &[Poll],
    option_rows: &[PollOption],
    vote_rows: &[PollVote],
    viewer: Option<Id>,
) -> (r: Vec<(Id, PollTally)>)
    requires
        vote_rows.len() <= i64::MAX,
    ensures
        r.len() == polls_found(polls@, poll_ids@).len(),
        forall|k: int|
            0 <= k < r.len() ==> {
                &&& (#[trigger] r@[k]).0 == polls_found(polls@, poll_ids@)[k].0
                &&& is_tally(r@[k].1, r@[k].0, option_rows@, vote_rows@, viewer)
            },
{
    let found: Vec<(Id, Poll)> = find_polls_by_ids(polls, poll_ids);
    let mut out: Vec<(Id, PollTally)> = Vec::new();
    let mut i: usize = 0;
    while i < found.len()
        invariant
            vote_rows.len() <= i64::MAX,
            i <= found.len(),
            out.len() == i,
            forall|k: int|
                0 <= k < i ==> {
                    &&& (#[trigger] out@[k]).0 == found@[k].0
                    &&& is_tally(out@[k].1, out@[k].0, option_rows@, vote_rows@, viewer)
                },
        decreases found.len() - i,
    {
        let poll_id: Id = found[i].0;
        if let Ok(one) = tally(poll_id, true, option_rows, vote_rows, viewer) {
            out.push((poll_id, one));
        }
        i += 1;
    }
    out
}

/// The vote rows and option counts of every poll.
pub struct PollLedger {
    pub votes: Seq<PollVote>,
    pub counts: Map<(Id, i32), int>,
}

/// The ledger after one row change.
pub open spec fn after_write(ledger: PollLedger, write: VoteWrite) -> PollLedger {
    match write {
        VoteWrite::Insert(vote) => PollLedger { votes: ledger.votes.push(vote), ..ledger },
        VoteWrite::Count { poll_id, idx } => if ledger.counts.dom().contains((poll_id, idx)) {
            PollLedger {
                counts: ledger.counts.insert((poll_id, idx), ledger.counts[(poll_id, idx)] + 1),
                ..ledger
            }
        } else {
            ledger
        },
    }
}

/// The ledger after a row of changes.
pub open spec fn after_writes(ledger: PollLedger, writes: Seq<VoteWrite>) -> PollLedger
    decreases writes.len(),
{
    if writes.len() == 0 {
        ledger
    } else {
        after_write(after_writes(ledger, writes.drop_last()), writes.last())
    }
}

/// How many vote rows chose an option.
pub open spec fn rows_for(votes: Seq<PollVote>, poll_id: Id, idx: i32) -> nat {
    votes.filter(|v: PollVote| v.poll_id == poll_id && v.choice == idx).len()
}

/// Whether every option's count is the number of its vote rows.
pub open spec fn counts_agree(ledger: PollLedger) -> bool {
    forall|poll_id: Id, idx: i32| #[trigger]
        ledger.counts.dom().contains((poll_id, idx)) ==> ledger.counts[(poll_id, idx)]
            == rows_for(ledger.votes, poll_id, idx)
}

/// Whether an actor has a vote row in a poll.
pub open spec fn has_voted(votes: Seq<PollVote>, poll_id: Id, actor: Id) -> bool {
    voters_of(votes, poll_id).contains(actor)
}

proof fn lemma_ballot_step(
    ledger: PollLedger,
    poll_id: Id,
    actor_id: Id,
    ballot: Seq<i32>,
    now: Timestamp,
)
    requires
        ballot.len() > 0,
    ensures
        after_writes(ledger, ballot_writes(poll_id, actor_id, ballot, now)) == after_write(
            after_write(
                after_writes(ledger, ballot_writes(poll_id, actor_id, ballot.drop_last(), now)),
                VoteWrite::Insert(
                    PollVote { poll_id, actor_id, choice: ballot.last(), created_at: now },
                ),
            ),
            VoteWrite::Count { poll_id, idx: ballot.last() },
        ),
{
    let init = ballot_writes(poll_id, actor_id, ballot.drop_last(), now);
    let insert = VoteWrite::Insert(
        PollVote { poll_id, actor_id, choice: ballot.last(), created_at: now },
    );
    let count = VoteWrite::Count { poll_id, idx: ballot.last() };
    let all = ballot_writes(poll_id, actor_id, ballot, now);
    assert(all.drop_last() =~= init.push(insert));
    assert(init.push(insert).drop_last() =~= init);
    assert(all.last() == count);
    assert(init.push(insert).last() == insert);
    reveal_with_fuel(after_writes, 3);
}

/// Recording a ballot keeps every option's count equal to the number of its
/// vote rows.
pub proof fn law_recording_keeps_counts(
    ledger: PollLedger,
    poll_id: Id,
    actor_id: Id,
    ballot: Seq<i32>,
    now: Timestamp,
)
    requires
        counts_agree(ledger),
        forall|k: int|
            0 <= k < ballot.len() ==> ledger.counts.dom().contains(
                (poll_id, #[trigger] ballot[k]),
            ),
    ensures
        counts_agree(after_writes(ledger, ballot_writes(poll_id, actor_id, ballot, now))),
        after_writes(ledger, ballot_writes(poll_id, actor_id, ballot, now)).counts.dom()
            == ledger.counts.dom(),
    decreases ballot.len(),
{
    if ballot.len() > 0 {
        let init = ballot.drop_last();
        assert forall|k: int| 0 <= k < init.len() implies ledger.counts.dom().contains(
            (poll_id, #[trigger] init[k]),
        ) by {
            assert(init[k] == ballot[k]);
        }
        law_recording_keeps_counts(ledger, poll_id, actor_id, init, now);
        lemma_ballot_step(ledger, poll_id, actor_id, ballot, now);
        let mid = after_writes(ledger, ballot_writes(poll_id, actor_id, init, now));
        let done = after_writes(ledger, ballot_writes(poll_id, actor_id, ballot, now));
        let vote = PollVote { poll_id, actor_id, choice: ballot.last(), created_at: now };
        assert(ballot[ballot.len() - 1] == ballot.last());
        assert(done.votes == mid.votes.push(vote));
        assert forall|p: Id, idx: i32| #[trigger]
            done.counts.dom().contains((p, idx)) implies done.counts[(p, idx)] == rows_for(
            done.votes,
            p,
            idx,
        ) by {
            let pred = |v: PollVote| v.poll_id == p && v.choice == idx;
            mid.votes.lemma_filter_push(vote, pred);
            assert(mid.counts.dom().contains((p, idx)));
        }
        assert(done.counts.dom() =~= ledger.counts.dom());
    } else {
        assert(ballot_writes(poll_id, actor_id, ballot, now) =~= Seq::<VoteWrite>::empty());
    }
}

/// Recording the ballot of an actor who had not voted makes the ballot the
/// actor's own choices, makes the actor a voter, and leaves the voters and
/// choices of every other actor and poll as they were.
pub proof fn law_recording_is_what_a_tally_shows(
    ledger: PollLedger,
    poll_id: Id,
    actor_id: Id,
    ballot: Seq<i32>,
    now: Timestamp,
)
    ensures
        ({
            let done = after_writes(ledger, ballot_writes(poll_id, actor_id, ballot, now)).votes;
            &&& choices_of(done, poll_id, actor_id) == choices_of(ledger.votes, poll_id, actor_id)
                + ballot
            &&& ballot.len() > 0 ==> voters_of(done, poll_id) == voters_of(
                ledger.votes,
                poll_id,
            ).insert(actor_id)
            &&& forall|p: Id, a: Id|
                p != poll_id || a != actor_id ==> #[trigger] choices_of(done, p, a) == choices_of(
                    ledger.votes,
                    p,
                    a,
                )
            &&& forall|p: Id| p != poll_id ==> #[trigger] voters_of(done, p) == voters_of(
                ledger.votes,
                p,
            )
        }),
    decreases ballot.len(),
{
    let done = after_writes(ledger, ballot_writes(poll_id, actor_id, ballot, now)).votes;
    if ballot.len() == 0 {
        assert(ballot_writes(poll_id, actor_id, ballot, now) =~= Seq::<VoteWrite>::empty());
        assert(choices_of(done, poll_id, actor_id) + ballot =~= choices_of(
            done,
            poll_id,
            actor_id,
        ));
    } else {
        let init = ballot.drop_last();
        law_recording_is_what_a_tally_shows(ledger, poll_id, actor_id, init, now);
        lemma_ballot_step(ledger, poll_id, actor_id, ballot, now);
        let mid = after_writes(ledger, ballot_writes(poll_id, actor_id, init, now)).votes;
        let vote = PollVote { poll_id, actor_id, choice: ballot.last(), created_at: now };
        assert(done == mid.push(vote));
        assert forall|p: Id, a: Id| #[trigger]
            choices_of(done, p, a) == (if p == poll_id && a == actor_id {
                choices_of(mid, p, a).push(ballot.last())
            } else {
                choices_of(mid, p, a)
            }) by {
            let pred = |v: PollVote| v.poll_id == p && v.actor_id == a;
            mid.lemma_filter_push(vote, pred);
            if p == poll_id && a == actor_id {
                assert(choices_of(done, p, a) =~= choices_of(mid, p, a).push(ballot.last()));
            }
        }
        assert(choices_of(done, poll_id, actor_id) =~= choices_of(
            ledger.votes,
            poll_id,
            actor_id,
        ) + ballot);
        assert forall|p: Id| #[trigger]
            voters_of(done, p) == (if p == poll_id {
                voters_of(mid, p).insert(actor_id)
            } else {
                voters_of(mid, p)
            }) by {
            assert forall|a: Id|
                voters_of(done, p).contains(a) <==> (voters_of(mid, p).contains(a) || (p == poll_id
                    && a == actor_id)) by {
                if voters_of(mid, p).contains(a) {
                    let k = choose|k: int|
                        0 <= k < mid.len() && (#[trigger] mid[k]).poll_id == p && mid[k].actor_id
                            == a;
                    assert(done[k] == mid[k]);
                }
                if p == poll_id && a == actor_id {
                    assert(done[mid.len() as int] == vote);
                }
                if voters_of(done, p).contains(a) {
                    let k = choose|k: int|
                        0 <= k < done.len() && (#[trigger] done[k]).poll_id == p
                            && done[k].actor_id == a;
                    if k < mid.len() {
                        assert(done[k] == mid[k]);
                    }
                }
            }
            assert(voters_of(done, p) =~= (if p == poll_id {
                voters_of(mid, p).insert(actor_id)
            } else {
                voters_of(mid, p)
            }));
        }
        if init.len() > 0 {
            assert(voters_of(ledger.votes, poll_id).insert(actor_id).insert(actor_id)
                =~= voters_of(ledger.votes, poll_id).insert(actor_id));
        } else {
            assert(ballot_writes(poll_id, actor_id, init, now) =~= Seq::<VoteWrite>::empty());
        }
    }
}

/// An actor has at most one recorded ballot per poll: once one is recorded,
/// every further vote of the actor is refused, whatever it selects. One that
/// would be accepted of an actor who had not voted is refused as the second
/// one that it is.
pub proof fn law_one_ballot_per_actor(
    ledger: PollLedger,
    poll_id: Id,
    actor_id: Id,
    ballot: Seq<i32>,
    now: Timestamp,
    later_choices: Seq<i32>,
    poll: Option<Poll>,
    valid_indices: Seq<i32>,
    later: Timestamp,
)
    requires
        ballot.len() > 0,
    ensures
        ({
            let votes = after_writes(ledger, ballot_writes(poll_id, actor_id, ballot, now)).votes;
            vote_refusal(
                later_choices,
                poll,
                valid_indices,
                has_voted(votes, poll_id, actor_id),
                later,
            ) is Some
        }),
        vote_refusal(later_choices, poll, valid_indices, false, later) is None ==> ({
            let votes = after_writes(ledger, ballot_writes(poll_id, actor_id, ballot, now)).votes;
            vote_refusal(
                later_choices,
                poll,
                valid_indices,
                has_voted(votes, poll_id, actor_id),
                later,
            ) == Some(
                (
                    UNPROCESSABLE_ENTITY,
                    "actor has already voted in this poll"@,
                    Some(ErrorTag::DuplicateVote),
                ),
            )
        }),
{
    law_recording_is_what_a_tally_shows(ledger, poll_id, actor_id, ballot, now);
}

/// An accepted ballot is never empty.
pub proof fn law_accepted_ballots_are_not_empty(
    choices: Seq<i32>,
    poll: Option<Poll>,
    valid_indices: Seq<i32>,
    already_voted: bool,
    now: Timestamp,
    ballot: Seq<i32>,
)
    requires
        vote_refusal(choices, poll, valid_indices, already_voted, now) is None,
        is_ballot(ballot, choices),
    ensures
        ballot.len() > 0,
        forall|k: int| 0 <= k < ballot.len() ==> valid_indices.contains(#[trigger] ballot[k]),
        poll matches Some(p) && !p.multiple ==> ballot.len() == 1,
{
    assert(choices.contains(choices[0]));
    assert(ballot.contains(choices[0]));
    lemma_ballot_size(ballot, choices);
    lemma_ballot_valid(ballot, choices, valid_indices);
}

/// Whether no two option rows share poll and index.
pub open spec fn options_are_keyed(rows: Seq<PollOption>) -> bool {
    forall|i: int, j: int|
        0 <= i < j < rows.len() ==> (#[trigger] rows[i]).poll_id != (#[trigger] rows[j]).poll_id
            || rows[i].idx != rows[j].idx
}

/// Whether no two vote rows share poll, actor and choice.
pub open spec fn votes_are_keyed(rows: Seq<PollVote>) -> bool {
    forall|i: int, j: int|
        0 <= i < j < rows.len() ==> (#[trigger] rows[i]).poll_id != (#[trigger] rows[j]).poll_id
            || rows[i].actor_id != rows[j].actor_id || rows[i].choice != rows[j].choice
}

/// Whether a vote row holds this choice of an actor in a poll.
pub open spec fn chose(rows: Seq<PollVote>, poll_id: Id, actor: Id, choice: i32) -> bool {
    exists|i: int|
        0 <= i < rows.len() && (#[trigger] rows[i]).poll_id == poll_id && rows[i].actor_id == actor
            && rows[i].choice == choice
}

proof fn lemma_choices_are_rows(rows: Seq<PollVote>, poll_id: Id, actor: Id)
    ensures
        forall|c: i32| #[trigger]
            choices_of(rows, poll_id, actor).contains(c) <==> chose(rows, poll_id, actor, c),
        votes_are_keyed(rows) ==> choices_of(rows, poll_id, actor).no_duplicates(),
    decreases rows.len(),
{
    let pred = |v: PollVote| v.poll_id == poll_id && v.actor_id == actor;
    let all = choices_of(rows, poll_id, actor);
    reveal(Seq::filter);
    if rows.len() > 0 {
        let init = rows.drop_last();
        let last = rows.last();
        let before = choices_of(init, poll_id, actor);
        lemma_choices_are_rows(init, poll_id, actor);
        assert(all =~= if pred(last) {
            before.push(last.choice)
        } else {
            before
        });
        assert forall|c: i32| all.contains(c) <==> chose(rows, poll_id, actor, c) by {
            if all.contains(c) {
                let k = choose|k: int| 0 <= k < all.len() && all[k] == c;
                if k < before.len() {
                    assert(before[k] == c);
                    assert(before.contains(c));
                    let i = choose|i: int|
                        0 <= i < init.len() && (#[trigger] init[i]).poll_id == poll_id
                            && init[i].actor_id == actor && init[i].choice == c;
                    assert(rows[i] == init[i]);
                } else {
                    assert(rows[rows.len() - 1] == last);
                }
            }
            if chose(rows, poll_id, actor, c) {
                let i = choose|i: int|
                    0 <= i < rows.len() && (#[trigger] rows[i]).poll_id == poll_id
                        && rows[i].actor_id == actor && rows[i].choice == c;
                if i < init.len() {
                    assert(init[i] == rows[i]);
                    assert(chose(init, poll_id, actor, c));
                    assert(before.contains(c));
                    let k = choose|k: int| 0 <= k < before.len() && before[k] == c;
                    assert(all[k] == c);
                } else {
                    assert(all[before.len() as int] == c);
                }
            }
        }
        if votes_are_keyed(rows) {
            assert(votes_are_keyed(init)) by {
                assert forall|i: int, j: int| 0 <= i < j < init.len() implies (
                #[trigger] init[i]).poll_id != (#[trigger] init[j]).poll_id || init[i].actor_id
                    != init[j].actor_id || init[i].choice != init[j].choice by {
                    assert(init[i] == rows[i] && init[j] == rows[j]);
                }
            }
            if pred(last) && before.contains(last.choice) {
                assert(chose(init, poll_id, actor, last.choice));
                let i = choose|i: int|
                    0 <= i < init.len() && (#[trigger] init[i]).poll_id == poll_id
                        && init[i].actor_id == actor && init[i].choice == last.choice;
                assert(rows[i] == init[i] && rows[rows.len() - 1] == last);
            }
        }
    }
}

proof fn lemma_options_are_rows(rows: Seq<PollOption>, poll_id: Id)
    ensures
        forall|o: PollOption| #[trigger]
            options_of(rows, poll_id).contains(o) <==> rows.contains(o) && o.poll_id == poll_id,
        options_are_keyed(rows) ==> (forall|i: int, j: int|
            0 <= i < j < options_of(rows, poll_id).len() ==> options_of(rows, poll_id)[i].idx
                != options_of(rows, poll_id)[j].idx),
    decreases rows.len(),
{
    let all = options_of(rows, poll_id);
    reveal(Seq::filter);
    if rows.len() > 0 {
        let init = rows.drop_last();
        let last = rows.last();
        let before = options_of(init, poll_id);
        lemma_options_are_rows(init, poll_id);
        assert(rows =~= init.push(last));
        assert(all =~= if last.poll_id == poll_id {
            before.push(last)
        } else {
            before
        });
        assert forall|o: PollOption|
            all.contains(o) <==> rows.contains(o) && o.poll_id == poll_id by {
            if all.contains(o) {
                let k = choose|k: int| 0 <= k < all.len() && all[k] == o;
                if k < before.len() {
                    assert(before[k] == o);
                    assert(before.contains(o));
                    let i = choose|i: int| 0 <= i < init.len() && init[i] == o;
                    assert(rows[i] == o);
                } else {
                    assert(rows[rows.len() - 1] == o);
                }
            }
            if rows.contains(o) && o.poll_id == poll_id {
                let i = choose|i: int| 0 <= i < rows.len() && rows[i] == o;
                if i < init.len() {
                    assert(init[i] == o);
                    assert(init.contains(o));
                    assert(before.contains(o));
                    let k = choose|k: int| 0 <= k < before.len() && before[k] == o;
                    assert(all[k] == o);
                } else {
                    assert(all[before.len() as int] == o);
                }
            }
        }
        if options_are_keyed(rows) {
            assert(options_are_keyed(init)) by {
                assert forall|i: int, j: int| 0 <= i < j < init.len() implies (
                #[trigger] init[i]).poll_id != (#[trigger] init[j]).poll_id || init[i].idx
                    != init[j].idx by {
                    assert(init[i] == rows[i] && init[j] == rows[j]);
                }
            }
            assert forall|i: int, j: int| 0 <= i < j < all.len() implies all[i].idx
                != all[j].idx by {
                if j < before.len() {
                    assert(before[i] == all[i] && before[j] == all[j]);
                } else {
                    assert(before[i] == all[i]);
                    assert(before.contains(all[i]));
                    let k = choose|k: int| 0 <= k < init.len() && init[k] == all[i];
                    assert(rows[k] == all[i] && rows[rows.len() - 1] == all[j]);
                }
            }
        }
    }
}

/// What a poll shows does not depend on who looks, but for the viewer's own
/// choices: every viewer is told that there is no such poll, or every viewer
/// sees the same options and the same number of voters. The options are all
/// of the poll's, in the order of their indices, no index twice. The viewer's
/// own choices are those they voted for, ascending, none twice; there are none
/// without a viewer.
pub proof fn law_viewers_see_the_same_poll(
    first: Result<PollTally, AppError>,
    second: Result<PollTally, AppError>,
    poll_id: Id,
    exists_row: bool,
    option_rows: Seq<PollOption>,
    vote_rows: Seq<PollVote>,
    viewer: Option<Id>,
    other: Option<Id>,
)
    requires
        options_are_keyed(option_rows),
        votes_are_keyed(vote_rows),
        is_tally_answer(first, poll_id, exists_row, option_rows, vote_rows, viewer),
        is_tally_answer(second, poll_id, exists_row, option_rows, vote_rows, other),
    ensures
        match (first, second) {
            (Ok(a), Ok(b)) => {
                &&& exists_row
                &&& a.options@ == b.options@
                &&& a.voters_count == b.voters_count
                &&& a.voters_count == voters_of(vote_rows, poll_id).len()
                &&& forall|o: PollOption|
                    a.options@.contains(o) <==> option_rows.contains(o) && o.poll_id == poll_id
                &&& forall|i: int, j: int|
                    0 <= i < j < a.options@.len() ==> a.options@[i].idx < a.options@[j].idx
                &&& strictly_ascending(a.own_votes@)
                &&& forall|c: i32|
                    a.own_votes@.contains(c) <==> (viewer matches Some(actor) && chose(
                        vote_rows,
                        poll_id,
                        actor,
                        c,
                    ))
                &&& viewer is None ==> a.own_votes@.len() == 0
            },
            (Err(a), Err(b)) => {
                &&& !exists_row
                &&& a.is_client(NOT_FOUND, "poll not found"@)
                &&& b.is_client(NOT_FOUND, "poll not found"@)
            },
            _ => false,
        },
{
    broadcast use vstd::seq_lib::group_to_multiset_ensures;

    if let Ok(a) = first {
        let rows = options_of(option_rows, poll_id);
        let shown = by_index(rows);
        lemma_options_are_rows(option_rows, poll_id);
        law_by_index_is_sorted(rows);
        assert forall|o: PollOption|
            shown.contains(o) <==> option_rows.contains(o) && o.poll_id == poll_id by {
            assert(shown.to_multiset().count(o) == rows.to_multiset().count(o));
            assert(shown.contains(o) <==> rows.contains(o));
        }
        assert(rows.no_duplicates()) by {
            assert forall|i: int, j: int| 0 <= i < rows.len() && 0 <= j < rows.len() && i
                != j implies rows[i] != rows[j] by {
                if i < j {
                    assert(rows[i].idx != rows[j].idx);
                } else {
                    assert(rows[j].idx != rows[i].idx);
                }
            }
        }
        rows.lemma_multiset_has_no_duplicates();
        shown.lemma_multiset_has_no_duplicates_conv();
        assert forall|i: int, j: int| 0 <= i < j < shown.len() implies shown[i].idx
            < shown[j].idx by {
            assert(shown[i].idx <= shown[j].idx);
            assert(shown.contains(shown[i]) && shown.contains(shown[j]));
            assert(rows.contains(shown[i]) && rows.contains(shown[j]));
            let k = choose|k: int| 0 <= k < rows.len() && rows[k] == shown[i];
            let l = choose|l: int| 0 <= l < rows.len() && rows[l] == shown[j];
            assert(shown[i] != shown[j]);
            if k < l {
                assert(rows[k].idx != rows[l].idx);
            } else {
                assert(rows[l].idx != rows[k].idx);
            }
        }
        let own = own_choices(vote_rows, poll_id, viewer);
        if let Some(actor) = viewer {
            lemma_choices_are_rows(vote_rows, poll_id, actor);
        }
        assert(own.no_duplicates());
        own.lemma_multiset_has_no_duplicates();
        a.own_votes@.lemma_multiset_has_no_duplicates_conv();
        assert forall|c: i32| a.own_votes@.contains(c) <==> (viewer matches Some(actor) && chose(
            vote_rows,
            poll_id,
            actor,
            c,
        )) by {
            assert(a.own_votes@.to_multiset().count(c) == own.to_multiset().count(c));
            assert(a.own_votes@.contains(c) <==> own.contains(c));
        }
        assert(a.own_votes@.len() == own.len()) by {
            assert(a.own_votes@.to_multiset().len() == own.to_multiset().len());
        }
    }
}

/// Recording the ballot of an actor who had not voted keeps the vote rows
/// apart: no two share poll, actor and choice.
pub proof fn law_recording_keeps_votes_keyed(
    ledger: PollLedger,
    poll_id: Id,
    actor_id: Id,
    ballot: Seq<i32>,
    now: Timestamp,
)
    requires
        votes_are_keyed(ledger.votes),
        !has_voted(ledger.votes, poll_id, actor_id),
        strictly_ascending(ballot),
    ensures
        votes_are_keyed(
            after_writes(ledger, ballot_writes(poll_id, actor_id, ballot, now)).votes,
        ),
    decreases ballot.len(),
{
    let done = after_writes(ledger, ballot_writes(poll_id, actor_id, ballot, now)).votes;
    if ballot.len() == 0 {
        assert(ballot_writes(poll_id, actor_id, ballot, now) =~= Seq::<VoteWrite>::empty());
    } else {
        let init = ballot.drop_last();
        law_recording_keeps_votes_keyed(ledger, poll_id, actor_id, init, now);
        law_recording_is_what_a_tally_shows(ledger, poll_id, actor_id, init, now);
        lemma_ballot_step(ledger, poll_id, actor_id, ballot, now);
        let mid = after_writes(ledger, ballot_writes(poll_id, actor_id, init, now)).votes;
        let vote = PollVote { poll_id, actor_id, choice: ballot.last(), created_at: now };
        assert(done == mid.push(vote));
        lemma_choices_are_rows(mid, poll_id, actor_id);
        lemma_choices_are_rows(ledger.votes, poll_id, actor_id);
        let chosen = choices_of(mid, poll_id, actor_id);
        let earlier = choices_of(ledger.votes, poll_id, actor_id);
        assert(earlier.len() == 0) by {
            if earlier.len() > 0 {
                assert(earlier.contains(earlier[0]));
                assert(chose(ledger.votes, poll_id, actor_id, earlier[0]));
            }
        }
        assert(chosen =~= init);
        assert forall|i: int, j: int| 0 <= i < j < done.len() implies (
        #[trigger] done[i]).poll_id != (#[trigger] done[j]).poll_id || done[i].actor_id
            != done[j].actor_id || done[i].choice != done[j].choice by {
            assert(done[i] == mid[i]);
            if j < mid.len() {
                assert(done[j] == mid[j]);
            } else if mid[i].poll_id == poll_id && mid[i].actor_id == actor_id && mid[i].choice
                == ballot.last() {
                assert(chose(mid, poll_id, actor_id, ballot.last()));
                assert(init.contains(ballot.last()));
                let k = choose|k: int| 0 <= k < init.len() && init[k] == ballot.last();
                assert(ballot[k] < ballot[ballot.len() - 1]);
            }
        }
    }
}

} // verus!
