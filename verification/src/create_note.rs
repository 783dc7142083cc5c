//! The handler of inbound `Create`s: a `Note` is either a vote in a local
//! poll or a status to take in.

use vstd::prelude::*;

use crate::clock::Timestamp;
use crate::domain::Id;
use crate::effects::{Effect, HandleOutcome, Plan, Step};
use crate::error::{AppError, ErrorTag};
use crate::inbound_handlers::{embedded_note, note_of, ParsedActivity};
use crate::json::{text_prop, JsonObject};
use crate::model::{PollOption, Status};
use crate::order::strictly_ascending;
use crate::poll_repository::{
    ballot_writes, is_ballot, record_vote, vote_refusal, PollBook, PollTally,
    VoteWrite,
};
use crate::text::same_text;

verus! {

/// Handles `Create`.
#[derive(Debug, PartialEq, Eq)]
pub struct CreateNoteHandler {
    /// The domain of this instance.
    pub domain: String,
}

/// Asks for the id of the signing actor.
#[derive(Debug, PartialEq, Eq)]
pub struct CreateActor<'a> {
    pub object: &'a JsonObject,
}

/// Asks for the status with the URI `in_reply_to_uri`.
#[derive(Debug, PartialEq, Eq)]
pub struct VoteProbe<'a> {
    pub object: &'a JsonObject,
    pub actor_id: Id,
    pub name: &'a String,
    pub in_reply_to_uri: &'a String,
}

/// Asks for the tally of the poll `poll_id`, without a viewer.
#[derive(Debug, PartialEq, Eq)]
pub struct VoteTally<'a> {
    pub object: &'a JsonObject,
    pub actor_id: Id,
    pub name: &'a String,
    pub poll_id: Id,
}

/// Asks for what is to be read of the poll `poll_id` while its row is
/// locked.
#[derive(Debug, PartialEq, Eq)]
pub struct VoteCast {
    pub actor_id: Id,
    pub poll_id: Id,
    pub idx: i32,
}

/// Where a `Note` goes: on to the next question of the vote path, or to
/// being taken in as a status.
#[derive(Debug, PartialEq, Eq)]
pub enum NoteRoute<'a, N> {
    Vote(N),
    Ingest { object: &'a JsonObject, actor_id: Id },
}

impl<'a, N> NoteRoute<'a, N> {
    /// Whether the given `Note` of the given actor is to be taken in.
    pub open spec fn ingests(self, note: &JsonObject, author: Id) -> bool {
        self matches NoteRoute::Ingest { object, actor_id } && object == note && actor_id == author
    }
}

impl CreateNoteHandler {
    pub fn new(domain: &str) -> (r: CreateNoteHandler)
        ensures
            r.domain@ == domain@,
    {
        CreateNoteHandler { domain: domain.to_owned() }
    }

    /// Only an embedded `Note` is this handler's concern.
    pub fn handle<'a>(&self, activity: &'a ParsedActivity) -> (r: Step<CreateActor<'a>>)
        ensures
            match embedded_note(activity.raw@) {
                Some(note) => r matches Step::Next(next) && next.object@ == note,
                None => r == Step::<CreateActor>::Done(HandleOutcome::Ignored),
            },
    {
        match note_of(activity) {
            Some(object) => Step::Next(CreateActor { object }),
            None => Step::Done(HandleOutcome::Ignored),
        }
    }
}

impl<'a> CreateActor<'a> {
    /// A `Note` with a `name` that replies to something may be a vote.
    pub fn resolved(self, actor_id: Id) -> (r: NoteRoute<'a, VoteProbe<'a>>)
        ensures
            match (text_prop(self.object@, "name"@), text_prop(self.object@, "inReplyTo"@)) {
                (Some(name), Some(uri)) => r matches NoteRoute::Vote(next) && next.object
                    == self.object && next.actor_id == actor_id && next.name@ == name
                    && next.in_reply_to_uri@ == uri,
                _ => r.ingests(self.object, actor_id),
            },
    {
        match self.object.get_text("name") {
            Some(name) => match self.object.get_text("inReplyTo") {
                Some(in_reply_to_uri) => NoteRoute::Vote(
                    VoteProbe { object: self.object, actor_id, name, in_reply_to_uri },
                ),
                None => NoteRoute::Ingest { object: self.object, actor_id },
            },
            None => NoteRoute::Ingest { object: self.object, actor_id },
        }
    }
}

impl<'a> VoteProbe<'a> {
    /// A vote replies to a local status with a poll.
    pub fn found(self, target: Option<Status>) -> (r: NoteRoute<'a, VoteTally<'a>>)
        ensures
            match target {
                Some(status) => if status.local && status.poll_id is Some {
                    r == NoteRoute::Vote(
                        VoteTally {
                            object: self.object,
                            actor_id: self.actor_id,
                            name: self.name,
                            poll_id: status.poll_id->0,
                        },
                    )
                } else {
                    r.ingests(self.object, self.actor_id)
                },
                None => r.ingests(self.object, self.actor_id),
            },
    {
        if let Some(status) = target {
            if status.local {
                if let Some(poll_id) = status.poll_id {
                    return NoteRoute::Vote(
                        VoteTally {
                            object: self.object,
                            actor_id: self.actor_id,
                            name: self.name,
                            poll_id,
                        },
                    );
                }
            }
        }
        NoteRoute::Ingest { object: self.object, actor_id: self.actor_id }
    }
}

/// The index of the first option with the given title.
pub open spec fn option_titled(options: Seq<PollOption>, title: Seq<char>) -> Option<i32>
    decreases options.len(),
{
    if options.len() == 0 {
        None
    } else if options[0].title@ == title {
        Some(options[0].idx)
    } else {
        option_titled(options.skip(1), title)
    }
}

/// Where no two options share a title, the title of an option names that
/// option.
pub proof fn law_titles_name_their_options(options: Seq<PollOption>, k: int)
    requires
        0 <= k < options.len(),
        forall|i: int, j: int|
            0 <= i < j < options.len() ==> (#[trigger] options[i]).title@ != (
            #[trigger] options[j]).title@,
    ensures
        option_titled(options, options[k].title@) == Some(options[k].idx),
    decreases options.len(),
{
    if k > 0 {
        let rest = options.skip(1);
        assert forall|i: int, j: int| 0 <= i < j < rest.len() implies (#[trigger] rest[i]).title@
            != (#[trigger] rest[j]).title@ by {
            assert(rest[i] == options[i + 1]);
            assert(rest[j] == options[j + 1]);
        }
        law_titles_name_their_options(rest, k - 1);
        assert(rest[k - 1] == options[k]);
        assert(options[0].title@ != options[k].title@);
    }
}

impl<'a> VoteTally<'a> {
    /// A vote names an option of the poll by its title.
    pub fn tallied(self, tally: &PollTally) -> (r: NoteRoute<'a, VoteCast>)
        ensures
            match option_titled(tally.options@, self.name@) {
                Some(idx) => r == NoteRoute::Vote(
                    VoteCast { actor_id: self.actor_id, poll_id: self.poll_id, idx },
                ),
                None => r.ingests(self.object, self.actor_id),
            },
    {
        let mut i: usize = 0;
        assert(tally.options@.skip(0) =~= tally.options@);
        while i < tally.options.len()
            invariant
                i <= tally.options.len(),
                option_titled(tally.options@, self.name@) == option_titled(
                    tally.options@.skip(i as int),
                    self.name@,
                ),
            decreases tally.options.len() - i,
        {
            assert(tally.options@.skip(i as int)[0] == tally.options@[i as int]);
            assert(tally.options@.skip(i as int).skip(1) =~= tally.options@.skip(i + 1));
            if same_text(tally.options[i].title.as_str(), self.name.as_str()) {
                return NoteRoute::Vote(
                    VoteCast {
                        actor_id: self.actor_id,
                        poll_id: self.poll_id,
                        idx: tally.options[i].idx,
                    },
                );
            }
            i += 1;
        }
        NoteRoute::Ingest { object: self.object, actor_id: self.actor_id }
    }
}

/// The row changes of a vote, as changes to make.
pub open spec fn vote_effects(writes: Seq<VoteWrite>) -> Seq<Effect> {
    writes.map_values(|w: VoteWrite| Effect::Vote(w))
}

/// The row changes of a vote, as changes to make.
pub fn effects_of_vote(writes: &[VoteWrite]) -> (r: Vec<Effect>)
    ensures
        r@ == vote_effects(writes@),
{
    let mut effects: Vec<Effect> = Vec::new();
    let mut i: usize = 0;
    while i < writes.len()
        invariant
            i <= writes.len(),
            effects@ == vote_effects(writes@).take(i as int),
        decreases writes.len() - i,
    {
        effects.push(Effect::Vote(writes[i]));
        i += 1;
    }
    assert(vote_effects(writes@).take(i as int) =~= vote_effects(writes@));
    effects
}

proof fn lemma_single_choice_ballot(ballot: Seq<i32>, idx: i32)
    requires
        is_ballot(ballot, seq![idx]),
    ensures
        ballot == seq![idx],
{
    assert(seq![idx][0] == idx);
    assert(seq![idx].contains(idx));
    assert(ballot.contains(idx));
    assert forall|k: int| 0 <= k < ballot.len() implies ballot[k] == idx by {
        assert(ballot.contains(ballot[k]));
        assert(seq![idx].contains(ballot[k]));
    }
    if ballot.len() > 1 {
        assert(strictly_ascending(ballot));
        assert(ballot[0] < ballot[1]);
    }
    assert(ballot =~= seq![idx]);
}

impl VoteCast {
    /// Records the vote. A vote that was recorded before is handled without
    /// a further change; any other refusal is an error.
    pub fn cast(self, now: Timestamp, book: &PollBook) -> (r: Result<Plan, AppError>)
        ensures
            match vote_refusal(
                seq![self.idx],
                book.poll,
                book.valid_indices@,
                book.already_voted,
                now,
            ) {
                None => r matches Ok(plan) && plan.outcome == HandleOutcome::Handled
                    && plan.effects@ == vote_effects(
                    ballot_writes(self.poll_id, self.actor_id, seq![self.idx], now),
                ),
                Some((_, _, Some(ErrorTag::DuplicateVote))) => r matches Ok(plan) && plan.outcome
                    == HandleOutcome::Handled && plan.effects@.len() == 0,
                Some((status, message, None)) => r matches Err(e) && e.is_client(status, message),
            },
    {
        let mut choices: Vec<i32> = Vec::new();
        choices.push(self.idx);
        assert(choices@ =~= seq![self.idx]);
        match record_vote(self.poll_id, self.actor_id, choices.as_slice(), now, book) {
            Ok(accepted) => {
                proof {
                    lemma_single_choice_ballot(accepted.ballot@, self.idx);
                }
                Ok(
                    Plan {
                        effects: effects_of_vote(accepted.writes.as_slice()),
                        outcome: HandleOutcome::Handled,
                    },
                )
            },
            Err(e) => match e.tag {
                Some(ErrorTag::DuplicateVote) => Ok(
                    Plan { effects: Vec::new(), outcome: HandleOutcome::Handled },
                ),
                None => Err(e),
            },
        }
    }
}

} // verus!
