//! Polls: which votes count, what a vote writes, and what a poll shows.

use vstd::prelude::*;

use crate::account_provider::RequiredPolls;
use crate::clock::Timestamp;
use crate::create_note::{NoteRoute, VoteCast, VoteProbe, VoteTally};
use crate::domain::Id;
use crate::effects::{Effect, HandleOutcome, Plan};
use crate::error::{AppError, ErrorKind, ErrorTag};
use crate::laws::{nanos, refuses};
use crate::model::{Poll, PollOption, PollVote, Status};
use crate::order::law_by_index_is_sorted;
use crate::poll_repository::{
    ballot_writes, choices_of, find_poll_by_id, find_polls_by_ids, options_of, poll_in,
    polls_found, record_vote, tally, tally_many, voters_of, AcceptedVote, PollBook, PollTally,
    VoteOutcome, VoteWrite,
};
use crate::poll_service::{
    choice_titles, chosen_titles, PollService, PollStatusLookup, PollVisible,
};

verus! {

/// A vote at or after the deadline of its poll is refused, whatever kind of
/// poll it is and whatever is chosen. Where something is chosen, the reason
/// is that the poll has closed.
pub proof fn law_closed_polls_take_no_votes(
    poll_id: Id,
    actor_id: Id,
    choices: &[i32],
    now: Timestamp,
    book: &PollBook,
    poll: Poll,
    deadline: Timestamp,
    r: Result<AcceptedVote, AppError>,
)
    requires
        call_ensures(record_vote, (poll_id, actor_id, choices, now, book), r),
        book.poll == Some(poll),
        poll.expires_at == Some(deadline),
        nanos(now) >= nanos(deadline),
    ensures
        r is Err,
        choices@.len() > 0 ==> refuses(r->Err_0, 422, "poll has already closed"@),
{
}

/// A vote is accepted where it chooses something, the poll is there and still
/// open, it chooses one option or the poll takes several, every choice is the
/// index of an option, and the actor has not voted; and nowhere else.
pub proof fn law_votes_are_accepted_by_the_rules(
    poll_id: Id,
    actor_id: Id,
    choices: &[i32],
    now: Timestamp,
    book: &PollBook,
    r: Result<AcceptedVote, AppError>,
)
    requires
        call_ensures(record_vote, (poll_id, actor_id, choices, now, book), r),
    ensures
        r is Ok <==> {
            &&& choices@.len() > 0
            &&& book.poll matches Some(poll) && (poll.expires_at matches Some(deadline)
                ==> nanos(now) < nanos(deadline)) && (poll.multiple || (forall|i: int, j: int|
                0 <= i < choices@.len() && 0 <= j < choices@.len() ==> choices@[i] == choices@[j]))
            &&& forall|i: int|
                0 <= i < choices@.len() ==> book.valid_indices@.contains(#[trigger] choices@[i])
            &&& !book.already_voted
        },
{
}

/// A refused vote is refused for the first of these that holds: nothing is
/// chosen, there is no such poll, it has closed, several options are chosen
/// where one may be, an index is none of an option, the actor has voted.
pub proof fn law_refused_votes_say_why(
    poll_id: Id,
    actor_id: Id,
    choices: &[i32],
    now: Timestamp,
    book: &PollBook,
    r: Result<AcceptedVote, AppError>,
)
    requires
        call_ensures(record_vote, (poll_id, actor_id, choices, now, book), r),
    ensures
        choices@.len() == 0 ==> r is Err && refuses(
            r->Err_0,
            422,
            "at least one poll option must be selected"@,
        ),
        choices@.len() > 0 && book.poll is None ==> r is Err && refuses(
            r->Err_0,
            404,
            "poll not found"@,
        ),
        choices@.len() > 0 && (book.poll matches Some(poll) && (poll.expires_at matches Some(
            deadline,
        ) ==> nanos(now) < nanos(deadline)) && !poll.multiple) && (exists|i: int, j: int|
            0 <= i < choices@.len() && 0 <= j < choices@.len() && choices@[i] != choices@[j])
            ==> r is Err && refuses(
            r->Err_0,
            422,
            "a single-choice poll accepts only one selected option"@,
        ),
        choices@.len() > 0 && (book.poll matches Some(poll) && (poll.expires_at matches Some(
            deadline,
        ) ==> nanos(now) < nanos(deadline)) && (poll.multiple || (forall|i: int, j: int|
            0 <= i < choices@.len() && 0 <= j < choices@.len() ==> choices@[i] == choices@[j])))
            && (exists|i: int|
            0 <= i < choices@.len() && !book.valid_indices@.contains(#[trigger] choices@[i]))
            ==> r is Err && refuses(r->Err_0, 422, "selected option index is out of range"@),
        choices@.len() > 0 && (book.poll matches Some(poll) && (poll.expires_at matches Some(
            deadline,
        ) ==> nanos(now) < nanos(deadline)) && (poll.multiple || (forall|i: int, j: int|
            0 <= i < choices@.len() && 0 <= j < choices@.len() ==> choices@[i] == choices@[j])))
            && (forall|i: int|
            0 <= i < choices@.len() ==> book.valid_indices@.contains(#[trigger] choices@[i]))
            && book.already_voted ==> r is Err && r->Err_0.kind == ErrorKind::Client
            && r->Err_0.status == 422 && r->Err_0.public_message@
            == "actor has already voted in this poll"@ && r->Err_0.tag == Some(
            ErrorTag::DuplicateVote,
        ),
{
}

proof fn lemma_ballot_writes(poll_id: Id, actor_id: Id, ballot: Seq<i32>, now: Timestamp)
    ensures
        ballot_writes(poll_id, actor_id, ballot, now).len() == 2 * ballot.len(),
        forall|k: int|
            0 <= k < ballot.len() ==> ballot_writes(poll_id, actor_id, ballot, now)[2 * k]
                == VoteWrite::Insert(
                PollVote { poll_id, actor_id, choice: #[trigger] ballot[k], created_at: now },
            ),
        forall|k: int|
            0 <= k < ballot.len() ==> ballot_writes(poll_id, actor_id, ballot, now)[2 * k + 1]
                == (VoteWrite::Count { poll_id, idx: #[trigger] ballot[k] }),
    decreases ballot.len(),
{
    if ballot.len() > 0 {
        let init = ballot.drop_last();
        lemma_ballot_writes(poll_id, actor_id, init, now);
        assert forall|k: int| 0 <= k < init.len() implies #[trigger] ballot[k] == init[k] by {}
        let all = ballot_writes(poll_id, actor_id, ballot, now);
        let before = ballot_writes(poll_id, actor_id, init, now);
        assert forall|k: int| 0 <= k < ballot.len() implies all[2 * k] == VoteWrite::Insert(
            PollVote { poll_id, actor_id, choice: #[trigger] ballot[k], created_at: now },
        ) && all[2 * k + 1] == (VoteWrite::Count { poll_id, idx: ballot[k] }) by {
            if k < init.len() {
                assert(ballot[k] == init[k]);
                assert(all[2 * k] == before[2 * k]);
                assert(all[2 * k + 1] == before[2 * k + 1]);
            }
        }
    }
}

/// An accepted vote writes, for each index that was chosen, one vote row of
/// the actor and one more in the count of that option, each index once and in
/// ascending order, and nothing else.
pub proof fn law_accepted_votes_are_written_down(
    poll_id: Id,
    actor_id: Id,
    choices: &[i32],
    now: Timestamp,
    book: &PollBook,
    vote: AcceptedVote,
)
    requires
        call_ensures(
            record_vote,
            (poll_id, actor_id, choices, now, book),
            Ok::<AcceptedVote, AppError>(vote),
        ),
    ensures
        vote.outcome == VoteOutcome::Recorded,
        forall|i: int, j: int| 0 <= i < j < vote.ballot@.len() ==> vote.ballot@[i] < vote.ballot@[j],
        forall|c: i32| vote.ballot@.contains(c) <==> choices@.contains(c),
        vote.writes@.len() == 2 * vote.ballot@.len(),
        forall|k: int|
            0 <= k < vote.ballot@.len() ==> vote.writes@[2 * k] == VoteWrite::Insert(
                PollVote { poll_id, actor_id, choice: #[trigger] vote.ballot@[k], created_at: now },
            ),
        forall|k: int|
            0 <= k < vote.ballot@.len() ==> vote.writes@[2 * k + 1] == (VoteWrite::Count {
                poll_id,
                idx: #[trigger] vote.ballot@[k],
            }),
{
    lemma_ballot_writes(poll_id, actor_id, vote.ballot@, now);
}

/// Whether a tally is what the rows say of a poll to one viewer: every option
/// of the poll as often as it is stored, by index; how many different actors
/// voted; and the choices of the viewer, ascending.
pub open spec fn tells_of(
    t: PollTally,
    poll_id: Id,
    option_rows: Seq<PollOption>,
    vote_rows: Seq<PollVote>,
    viewer: Option<Id>,
) -> bool {
    &&& t.poll_id == poll_id
    &&& t.options@.to_multiset() == option_rows.filter(
        |o: PollOption| o.poll_id == poll_id,
    ).to_multiset()
    &&& forall|i: int, j: int|
        0 <= i < j < t.options@.len() ==> t.options@[i].idx <= t.options@[j].idx
    &&& t.voters_count == Set::new(
        |actor: Id|
            exists|i: int|
                0 <= i < vote_rows.len() && (#[trigger] vote_rows[i]).poll_id == poll_id
                    && vote_rows[i].actor_id == actor,
    ).len()
    &&& forall|i: int, j: int| 0 <= i < j < t.own_votes@.len() ==> t.own_votes@[i] <= t.own_votes@[j]
    &&& t.own_votes@.to_multiset() == (match viewer {
        Some(actor) => vote_rows.filter(
            |v: PollVote| v.poll_id == poll_id && v.actor_id == actor,
        ).map_values(|v: PollVote| v.choice),
        None => Seq::empty(),
    }).to_multiset()
}

/// A poll that is there shows what its rows say, and nothing of another
/// poll's; one that is not there is a `404`.
pub proof fn law_tallies_are_told_by_the_rows(
    poll_id: Id,
    exists_row: bool,
    option_rows: &[PollOption],
    vote_rows: &[PollVote],
    viewer: Option<Id>,
    r: Result<PollTally, AppError>,
)
    requires
        call_ensures(tally, (poll_id, exists_row, option_rows, vote_rows, viewer), r),
    ensures
        r is Ok <==> exists_row,
        r matches Ok(t) ==> tells_of(t, poll_id, option_rows@, vote_rows@, viewer),
        r matches Err(e) ==> refuses(e, 404, "poll not found"@),
{
    law_by_index_is_sorted(options_of(option_rows@, poll_id));
    if let Ok(t) = r {
        assert(options_of(option_rows@, poll_id) =~= option_rows@.filter(
            |o: PollOption| o.poll_id == poll_id,
        ));
        assert(voters_of(vote_rows@, poll_id) =~= Set::new(
            |actor: Id|
                exists|i: int|
                    0 <= i < vote_rows@.len() && (#[trigger] vote_rows@[i]).poll_id == poll_id
                        && vote_rows@[i].actor_id == actor,
        ));
        if let Some(actor) = viewer {
            assert(choices_of(vote_rows@, poll_id, actor) =~= vote_rows@.filter(
                |v: PollVote| v.poll_id == poll_id && v.actor_id == actor,
            ).map_values(|v: PollVote| v.choice));
        }
    }
}

/// Whether a poll with the given id is among the rows.
pub open spec fn has_poll(rows: Seq<Poll>, poll_id: Id) -> bool {
    exists|i: int| 0 <= i < rows.len() && (#[trigger] rows[i]).id == poll_id
}

proof fn lemma_poll_in(rows: Seq<Poll>, poll_id: Id)
    ensures
        match poll_in(rows, poll_id) {
            Some(poll) => exists|k: int|
                0 <= k < rows.len() && #[trigger] rows[k] == poll && poll.id == poll_id && (forall|
                    j: int,
                | 0 <= j < k ==> (#[trigger] rows[j]).id != poll_id),
            None => !has_poll(rows, poll_id),
        },
    decreases rows.len(),
{
    if rows.len() > 0 {
        if rows[0].id == poll_id {
            assert(rows[0] == rows[0]);
        } else {
            let rest = rows.skip(1);
            lemma_poll_in(rest, poll_id);
            match poll_in(rest, poll_id) {
                Some(poll) => {
                    let k = choose|k: int|
                        0 <= k < rest.len() && #[trigger] rest[k] == poll && poll.id == poll_id && (
                        forall|j: int| 0 <= j < k ==> (#[trigger] rest[j]).id != poll_id);
                    assert(rows[k + 1] == poll);
                    assert forall|j: int| 0 <= j < k + 1 implies (#[trigger] rows[j]).id
                        != poll_id by {
                        if j > 0 {
                            assert(rest[j - 1] == rows[j]);
                        }
                    }
                },
                None => {
                    if has_poll(rows, poll_id) {
                        let i = choose|i: int|
                            0 <= i < rows.len() && (#[trigger] rows[i]).id == poll_id;
                        assert(rest[i - 1] == rows[i]);
                    }
                },
            }
        }
    }
}

/// Looking a poll up gives the first row with its id, and nothing only where
/// there is none.
pub proof fn law_polls_are_found_by_id(rows: &[Poll], poll_id: Id, r: Option<Poll>)
    requires
        call_ensures(find_poll_by_id, (rows, poll_id), r),
    ensures
        match r {
            Some(poll) => exists|k: int|
                0 <= k < rows@.len() && #[trigger] rows@[k] == poll && poll.id == poll_id && (
                forall|j: int| 0 <= j < k ==> (#[trigger] rows@[j]).id != poll_id),
            None => !has_poll(rows@, poll_id),
        },
{
    lemma_poll_in(rows@, poll_id);
}

proof fn lemma_polls_found(rows: Seq<Poll>, poll_ids: Seq<Id>)
    ensures
        polls_found(rows, poll_ids).map_values(|pair: (Id, Poll)| pair.0) == poll_ids.filter(
            |id: Id| has_poll(rows, id),
        ),
        forall|k: int|
            0 <= k < polls_found(rows, poll_ids).len() ==> {
                &&& (#[trigger] polls_found(rows, poll_ids)[k]).1.id == polls_found(
                    rows,
                    poll_ids,
                )[k].0
                &&& rows.contains(polls_found(rows, poll_ids)[k].1)
            },
    decreases poll_ids.len(),
{
    reveal(Seq::filter);
    let there = |id: Id| has_poll(rows, id);
    let all = polls_found(rows, poll_ids);
    if poll_ids.len() > 0 {
        let init = poll_ids.drop_last();
        let id = poll_ids.last();
        let before = polls_found(rows, init);
        lemma_polls_found(rows, init);
        lemma_poll_in(rows, id);
        if let Some(poll) = poll_in(rows, id) {
            assert(all =~= before.push((id, poll)));
            assert(all.map_values(|pair: (Id, Poll)| pair.0) =~= before.map_values(
                |pair: (Id, Poll)| pair.0,
            ).push(id));
            assert forall|k: int| 0 <= k < all.len() implies (#[trigger] all[k]).1.id == all[k].0
                && rows.contains(all[k].1) by {
                if k < before.len() {
                    assert(all[k] == before[k]);
                }
            }
        }
    } else {
        assert(all.map_values(|pair: (Id, Poll)| pair.0) =~= poll_ids.filter(there));
    }
}

/// Looking several polls up gives those that are there, in the order they
/// were asked for, each under its own id.
pub proof fn law_several_polls_are_found_by_id(
    rows: &[Poll],
    poll_ids: &[Id],
    r: Vec<(Id, Poll)>,
)
    requires
        call_ensures(find_polls_by_ids, (rows, poll_ids), r),
    ensures
        r@.map_values(|pair: (Id, Poll)| pair.0) == poll_ids@.filter(
            |id: Id| has_poll(rows@, id),
        ),
        forall|k: int|
            0 <= k < r@.len() ==> (#[trigger] r@[k]).1.id == r@[k].0 && rows@.contains(r@[k].1),
{
    lemma_polls_found(rows@, poll_ids@);
}

/// Adding several polls up gives those that are there, in the order they were
/// asked for, each as its own rows tell it.
pub proof fn law_several_tallies_are_told_by_the_rows(
    poll_ids: &[Id],
    polls: &[Poll],
    option_rows: &[PollOption],
    vote_rows: &[PollVote],
    viewer: Option<Id>,
    r: Vec<(Id, PollTally)>,
)
    requires
        call_ensures(tally_many, (poll_ids, polls, option_rows, vote_rows, viewer), r),
    ensures
        r@.map_values(|pair: (Id, PollTally)| pair.0) == poll_ids@.filter(
            |id: Id| has_poll(polls@, id),
        ),
        forall|k: int|
            0 <= k < r@.len() ==> tells_of(
                (#[trigger] r@[k]).1,
                r@[k].0,
                option_rows@,
                vote_rows@,
                viewer,
            ),
{
    lemma_polls_found(polls@, poll_ids@);
    let found = polls_found(polls@, poll_ids@);
    assert(r@.map_values(|pair: (Id, PollTally)| pair.0) =~= found.map_values(
        |pair: (Id, Poll)| pair.0,
    ));
    assert forall|k: int| 0 <= k < r@.len() implies tells_of(
        (#[trigger] r@[k]).1,
        r@[k].0,
        option_rows@,
        vote_rows@,
        viewer,
    ) by {
        lemma_is_tally_tells(r@[k].1, r@[k].0, option_rows@, vote_rows@, viewer);
    }
}

proof fn lemma_is_tally_tells(
    t: PollTally,
    poll_id: Id,
    option_rows: Seq<PollOption>,
    vote_rows: Seq<PollVote>,
    viewer: Option<Id>,
)
    requires
        crate::poll_repository::is_tally(t, poll_id, option_rows, vote_rows, viewer),
    ensures
        tells_of(t, poll_id, option_rows, vote_rows, viewer),
{
    law_by_index_is_sorted(options_of(option_rows, poll_id));
    assert(options_of(option_rows, poll_id) =~= option_rows.filter(
        |o: PollOption| o.poll_id == poll_id,
    ));
    assert(voters_of(vote_rows, poll_id) =~= Set::new(
        |actor: Id|
            exists|i: int|
                0 <= i < vote_rows.len() && (#[trigger] vote_rows[i]).poll_id == poll_id
                    && vote_rows[i].actor_id == actor,
    ));
    if let Some(actor) = viewer {
        assert(choices_of(vote_rows, poll_id, actor) =~= vote_rows.filter(
            |v: PollVote| v.poll_id == poll_id && v.actor_id == actor,
        ).map_values(|v: PollVote| v.choice));
    }
}

/// The polls of a page are all there or the page is a `404`; each comes with
/// what its rows tell, in the order they were asked for.
pub proof fn law_required_polls_are_all_there(
    required: &RequiredPolls,
    poll_ids: &[Id],
    viewer: Option<Id>,
    r: Result<Vec<(Id, Poll, PollTally)>, AppError>,
)
    requires
        call_ensures(RequiredPolls::resolve_many, (required, poll_ids, viewer), r),
    ensures
        r is Ok <==> (forall|k: int|
            0 <= k < poll_ids@.len() ==> has_poll(required.polls@, #[trigger] poll_ids@[k])),
        r matches Err(e) ==> refuses(e, 404, "status not found"@),
        r matches Ok(resolved) ==> {
            &&& resolved@.len() == poll_ids@.len()
            &&& forall|k: int|
                0 <= k < resolved@.len() ==> {
                    &&& (#[trigger] resolved@[k]).0 == poll_ids@[k]
                    &&& resolved@[k].1.id == poll_ids@[k]
                    &&& required.polls@.contains(resolved@[k].1)
                    &&& tells_of(
                        resolved@[k].2,
                        poll_ids@[k],
                        required.options@,
                        required.votes@,
                        viewer,
                    )
                }
        },
{
    match r {
        Ok(resolved) => {
            assert forall|k: int| 0 <= k < poll_ids@.len() implies has_poll(
                required.polls@,
                #[trigger] poll_ids@[k],
            ) by {
                assert(resolved@[k].0 == poll_ids@[k]);
                lemma_poll_in(required.polls@, poll_ids@[k]);
            }
            assert forall|k: int| 0 <= k < resolved@.len() implies (#[trigger] resolved@[k]).0
                == poll_ids@[k] && resolved@[k].1.id == poll_ids@[k] && required.polls@.contains(
                resolved@[k].1,
            ) && tells_of(
                resolved@[k].2,
                poll_ids@[k],
                required.options@,
                required.votes@,
                viewer,
            ) by {
                lemma_poll_in(required.polls@, poll_ids@[k]);
                lemma_is_tally_tells(
                    resolved@[k].2,
                    poll_ids@[k],
                    required.options@,
                    required.votes@,
                    viewer,
                );
            }
        },
        Err(e) => {
            let k = choose|k: int|
                0 <= k < poll_ids@.len() && poll_in(
                    required.polls@,
                    #[trigger] poll_ids@[k],
                ) is None;
            lemma_poll_in(required.polls@, poll_ids@[k]);
            assert(!has_poll(required.polls@, poll_ids@[k]));
        },
    }
}

proof fn lemma_chosen_titles(options: Seq<PollOption>, own_votes: Seq<i32>)
    ensures
        chosen_titles(options, own_votes) == options.filter(
            |o: PollOption| own_votes.contains(o.idx),
        ).map_values(|o: PollOption| o.title@),
    decreases options.len(),
{
    reveal(Seq::filter);
    let chosen = |o: PollOption| own_votes.contains(o.idx);
    if options.len() > 0 {
        lemma_chosen_titles(options.drop_last(), own_votes);
    }
    assert(chosen_titles(options, own_votes) =~= options.filter(chosen).map_values(
        |o: PollOption| o.title@,
    ));
}

/// The titles that a vote is sent with are those of the options that the
/// viewer voted for, each once and in the order of the options.
pub proof fn law_titles_are_those_of_the_chosen_options(t: &PollTally, r: Vec<String>)
    requires
        call_ensures(choice_titles, (t,), r),
    ensures
        ({
            let chosen = t.options@.filter(|o: PollOption| t.own_votes@.contains(o.idx));
            &&& r@.len() == chosen.len()
            &&& forall|k: int| 0 <= k < r@.len() ==> (#[trigger] r@[k])@ == chosen[k].title@
        }),
{
    lemma_chosen_titles(t.options@, t.own_votes@);
    let chosen = t.options@.filter(|o: PollOption| t.own_votes@.contains(o.idx));
    let titles = chosen_titles(t.options@, t.own_votes@);
    assert(crate::json::string_views(r@).len() == r@.len());
    assert forall|k: int| 0 <= k < r@.len() implies (#[trigger] r@[k])@ == chosen[k].title@ by {
        assert(crate::json::string_views(r@)[k] == r@[k]@);
        assert(titles[k] == chosen[k].title@);
    }
}

/// A poll is seen where it is there, its status is there and the viewer may
/// see that status; otherwise it is a `404`. What is seen is that poll and
/// that status.
pub proof fn law_polls_are_seen_with_their_status(
    service: &PollService,
    found: Option<Poll>,
    lookup: Result<PollStatusLookup, AppError>,
    stage: PollStatusLookup,
    status: Option<Status>,
    looked: Result<PollVisible, AppError>,
    shown: PollVisible,
    visible: bool,
    seen: Result<PollVisible, AppError>,
)
    requires
        call_ensures(PollService::poll, (service, found), lookup),
        call_ensures(PollStatusLookup::found, (stage, status), looked),
        call_ensures(PollVisible::seen, (shown, visible), seen),
    ensures
        lookup is Ok <==> found is Some,
        lookup matches Ok(next) ==> Some(next.poll) == found,
        lookup matches Err(e) ==> refuses(e, 404, "poll not found"@),
        looked is Ok <==> status is Some,
        looked matches Ok(next) ==> next.poll == stage.poll && Some(next.status) == status,
        looked matches Err(e) ==> refuses(e, 404, "poll not found"@),
        seen is Ok <==> visible,
        seen matches Ok(next) ==> next.poll == shown.poll && next.status == shown.status,
        seen matches Err(e) ==> refuses(e, 404, "poll not found"@),
{
}

/// A `Note` goes on as a vote only where it replies to a local status with a
/// poll, and then in that poll; otherwise it is taken in.
pub proof fn law_votes_reply_to_local_polls(
    probe: VoteProbe,
    target: Option<Status>,
    r: NoteRoute<VoteTally>,
)
    requires
        call_ensures(VoteProbe::found, (probe, target), r),
    ensures
        match r {
            NoteRoute::Vote(next) => {
                &&& target matches Some(status) && status.local && status.poll_id == Some(
                    next.poll_id,
                )
                &&& next.object == probe.object
                &&& next.actor_id == probe.actor_id
                &&& next.name == probe.name
            },
            NoteRoute::Ingest { object, actor_id } => {
                &&& object == probe.object
                &&& actor_id == probe.actor_id
                &&& target matches Some(status) ==> !status.local || status.poll_id is None
            },
        },
{
}

proof fn lemma_option_titled(options: Seq<PollOption>, title: Seq<char>)
    ensures
        match crate::create_note::option_titled(options, title) {
            Some(idx) => exists|k: int|
                0 <= k < options.len() && (#[trigger] options[k]).title@ == title && options[k].idx
                    == idx && (forall|j: int|
                    0 <= j < k ==> (#[trigger] options[j]).title@ != title),
            None => forall|k: int| 0 <= k < options.len() ==> (#[trigger] options[k]).title@ != title,
        },
    decreases options.len(),
{
    if options.len() > 0 && options[0].title@ != title {
        let rest = options.skip(1);
        lemma_option_titled(rest, title);
        match crate::create_note::option_titled(rest, title) {
            Some(idx) => {
                let k = choose|k: int|
                    0 <= k < rest.len() && (#[trigger] rest[k]).title@ == title && rest[k].idx == idx
                        && (forall|j: int| 0 <= j < k ==> (#[trigger] rest[j]).title@ != title);
                assert(options[k + 1] == rest[k]);
                assert forall|j: int| 0 <= j < k + 1 implies (#[trigger] options[j]).title@
                    != title by {
                    if j > 0 {
                        assert(rest[j - 1] == options[j]);
                    }
                }
            },
            None => {
                assert forall|k: int| 0 <= k < options.len() implies (#[trigger] options[k]).title@
                    != title by {
                    if k > 0 {
                        assert(rest[k - 1] == options[k]);
                    }
                }
            },
        }
    } else if options.len() > 0 {
        assert(options[0].title@ == title);
    }
}

/// A vote is for the first option that has exactly the title it names; where
/// no option has it, the `Note` is taken in.
pub proof fn law_votes_name_an_option(stage: VoteTally, t: &PollTally, r: NoteRoute<VoteCast>)
    requires
        call_ensures(VoteTally::tallied, (stage, t), r),
    ensures
        match r {
            NoteRoute::Vote(cast) => {
                &&& cast.actor_id == stage.actor_id
                &&& cast.poll_id == stage.poll_id
                &&& exists|k: int|
                    0 <= k < t.options@.len() && (#[trigger] t.options@[k]).title@ == stage.name@
                        && t.options@[k].idx == cast.idx && (forall|j: int|
                        0 <= j < k ==> (#[trigger] t.options@[j]).title@ != stage.name@)
            },
            NoteRoute::Ingest { object, actor_id } => {
                &&& object == stage.object
                &&& actor_id == stage.actor_id
                &&& forall|k: int|
                    0 <= k < t.options@.len() ==> (#[trigger] t.options@[k]).title@ != stage.name@
            },
        },
{
    lemma_option_titled(t.options@, stage.name@);
}

/// A vote from afar for one option: it is written down as a local one would
/// be; a second one of the same actor is handled and changes nothing; one
/// that breaks another rule is refused.
pub proof fn law_votes_from_afar_are_cast(
    cast: VoteCast,
    now: Timestamp,
    book: &PollBook,
    r: Result<Plan, AppError>,
)
    requires
        call_ensures(VoteCast::cast, (cast, now, book), r),
    ensures
        r matches Ok(plan) ==> plan.outcome == HandleOutcome::Handled,
        book.poll is None ==> r is Err && refuses(r->Err_0, 404, "poll not found"@),
        (book.poll matches Some(poll) && (poll.expires_at matches Some(deadline) && nanos(now)
            >= nanos(deadline))) ==> r is Err && refuses(r->Err_0, 422, "poll has already closed"@),
        (book.poll matches Some(poll) && (poll.expires_at matches Some(deadline) ==> nanos(now)
            < nanos(deadline))) ==> (if !book.valid_indices@.contains(cast.idx) {
            r is Err && refuses(r->Err_0, 422, "selected option index is out of range"@)
        } else if book.already_voted {
            r matches Ok(plan) && plan.effects@.len() == 0
        } else {
            r matches Ok(plan) && plan.effects@ == seq![
                Effect::Vote(
                    VoteWrite::Insert(
                        PollVote {
                            poll_id: cast.poll_id,
                            actor_id: cast.actor_id,
                            choice: cast.idx,
                            created_at: now,
                        },
                    ),
                ),
                Effect::Vote(VoteWrite::Count { poll_id: cast.poll_id, idx: cast.idx }),
            ]
        }),
{
    let choices = seq![cast.idx];
    assert(choices[0] == cast.idx);
    assert(crate::poll_repository::all_valid(choices, book.valid_indices@)
        <==> book.valid_indices@.contains(cast.idx)) by {
        if crate::poll_repository::all_valid(choices, book.valid_indices@) {
            assert(book.valid_indices@.contains(choices[0]));
        }
    }
    lemma_ballot_writes(cast.poll_id, cast.actor_id, choices, now);
    let writes = ballot_writes(cast.poll_id, cast.actor_id, choices, now);
    assert(writes[0] == VoteWrite::Insert(
        PollVote {
            poll_id: cast.poll_id,
            actor_id: cast.actor_id,
            choice: choices[0],
            created_at: now,
        },
    ));
    assert(writes[1] == (VoteWrite::Count { poll_id: cast.poll_id, idx: choices[0] }));
    if let Ok(plan) = r {
        if plan.effects@.len() > 0 {
            assert(plan.effects@ =~= seq![
                Effect::Vote(
                    VoteWrite::Insert(
                        PollVote {
                            poll_id: cast.poll_id,
                            actor_id: cast.actor_id,
                            choice: cast.idx,
                            created_at: now,
                        },
                    ),
                ),
                Effect::Vote(VoteWrite::Count { poll_id: cast.poll_id, idx: cast.idx }),
            ]);
        }
    }
}

} // verus!
