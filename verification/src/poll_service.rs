//! Reading polls and voting in them on behalf of local actors.

use vstd::prelude::*;

use crate::activity_builder::{DeliveryRequest, StatusActivityBuilder};
use crate::addressing::ActorRef;
use crate::domain::{Handle, Id, Recipient};
use crate::error::{AppError, NOT_FOUND};
use crate::json::string_views;
use crate::model::{Poll, PollOption, Status};
use crate::poll_repository::{poll_not_found, PollTally};

verus! {

/// Polls as local actors use them.
#[derive(Debug, PartialEq, Eq)]
pub struct PollService {
    pub activity_builder: StatusActivityBuilder,
}

/// Asks for the status `poll.status_id`.
#[derive(Debug, PartialEq, Eq)]
pub struct PollStatusLookup {
    pub poll: Poll,
}

/// Asks whether `status` is visible to the viewer.
#[derive(Debug, PartialEq, Eq)]
pub struct PollVisible {
    pub poll: Poll,
    pub status: Status,
}

/// Whether an error is the `404` of a poll that cannot be seen.
pub open spec fn is_poll_not_found(error: AppError) -> bool {
    error.is_client(NOT_FOUND, "poll not found"@)
}

/// The titles of the options that were chosen, in option order.
pub open spec fn chosen_titles(options: Seq<PollOption>, own_votes: Seq<i32>) -> Seq<Seq<char>>
    decreases options.len(),
{
    if options.len() == 0 {
        Seq::empty()
    } else {
        let rest = chosen_titles(options.drop_last(), own_votes);
        if own_votes.contains(options.last().idx) {
            rest.push(options.last().title@)
        } else {
            rest
        }
    }
}

fn voted_for(own_votes: &Vec<i32>, idx: i32) -> (r: bool)
    ensures
        r == own_votes@.contains(idx),
{
    let mut i: usize = 0;
    while i < own_votes.len()
        invariant
            i <= own_votes.len(),
            forall|j: int| 0 <= j < i ==> own_votes@[j] != idx,
        decreases own_votes.len() - i,
    {
        if own_votes[i] == idx {
            assert(own_votes@[i as int] == idx);
            return true;
        }
        i += 1;
    }
    false
}

/// The titles of the viewer's own choices, in option order.
pub fn choice_titles(tally: &PollTally) -> (r: Vec<String>)
    ensures
        string_views(r@) == chosen_titles(tally.options@, tally.own_votes@),
{
    let mut out: Vec<String> = Vec::new();
    assert(string_views(out@) =~= chosen_titles(tally.options@.take(0), tally.own_votes@));
    let mut i: usize = 0;
    while i < tally.options.len()
        invariant
            i <= tally.options.len(),
            string_views(out@) == chosen_titles(tally.options@.take(i as int), tally.own_votes@),
        decreases tally.options.len() - i,
    {
        assert(tally.options@.take(i + 1).drop_last() =~= tally.options@.take(i as int));
        if voted_for(&tally.own_votes, tally.options[i].idx) {
            let ghost before = out@;
            out.push(tally.options[i].title.clone());
            assert(string_views(out@) =~= string_views(before).push(
                tally.options@[i as int].title@,
            ));
        }
        i += 1;
    }
    assert(tally.options@.take(i as int) =~= tally.options@);
    out
}

/// Whether an option with the given title was voted for.
pub open spec fn is_voted_for(options: Seq<PollOption>, own_votes: Seq<i32>, title: Seq<char>) -> bool {
    exists|k: int|
        0 <= k < options.len() && own_votes.contains((#[trigger] options[k]).idx)
            && options[k].title@ == title
}

/// The chosen titles are those of the options that were voted for, and no
/// others.
pub proof fn law_chosen_titles_are_those_voted_for(
    options: Seq<PollOption>,
    own_votes: Seq<i32>,
    title: Seq<char>,
)
    ensures
        chosen_titles(options, own_votes).contains(title) <==> is_voted_for(
            options,
            own_votes,
            title,
        ),
    decreases options.len(),
{
    let all = chosen_titles(options, own_votes);
    if options.len() > 0 {
        let init = options.drop_last();
        let rest = chosen_titles(init, own_votes);
        law_chosen_titles_are_those_voted_for(init, own_votes, title);
        if all.contains(title) {
            let t = choose|t: int| 0 <= t < all.len() && all[t] == title;
            if t < rest.len() {
                assert(rest[t] == title);
                let k = choose|k: int|
                    0 <= k < init.len() && own_votes.contains((#[trigger] init[k]).idx)
                        && init[k].title@ == title;
                assert(options[k] == init[k]);
            } else {
                assert(options[options.len() - 1].title@ == title);
            }
        }
        if is_voted_for(options, own_votes, title) {
            let k = choose|k: int|
                0 <= k < options.len() && own_votes.contains((#[trigger] options[k]).idx)
                    && options[k].title@ == title;
            if k < init.len() {
                assert(init[k] == options[k]);
                let t = choose|t: int| 0 <= t < rest.len() && rest[t] == title;
                assert(all[t] == title);
            } else {
                assert(all[rest.len() as int] == title);
            }
        }
    }
}

impl PollService {
    pub fn new(activity_builder: StatusActivityBuilder) -> (r: PollService)
        ensures
            r.activity_builder == activity_builder,
    {
        PollService { activity_builder }
    }

    /// Begins to read or to vote in a poll, by what was found for its id.
    pub fn poll(&self, found: Option<Poll>) -> (r: Result<PollStatusLookup, AppError>)
        ensures
            match found {
                Some(poll) => r == Ok::<PollStatusLookup, AppError>(PollStatusLookup { poll }),
                None => r matches Err(e) && is_poll_not_found(e),
            },
    {
        match found {
            Some(poll) => Ok(PollStatusLookup { poll }),
            None => Err(poll_not_found()),
        }
    }

    /// The deliveries of a recorded vote, to the author of the poll.
    /// `fresh_ids` holds two ids for each title.
    pub fn vote(
        &self,
        voter: &Handle,
        author: &Handle,
        seen: &PollVisible,
        titles: &[String],
        fresh_ids: &[Id],
    ) -> (r: Vec<DeliveryRequest>)
        requires
            seen.poll.status_id == seen.status.id,
            fresh_ids.len() == 2 * titles.len(),
        ensures
            r.len() == titles.len(),
            forall|k: int|
                0 <= k < r.len() ==> (#[trigger] r@[k]).sends(
                    self.activity_builder.vote_for(
                        *voter,
                        fresh_ids@[2 * k],
                        fresh_ids@[2 * k + 1],
                        titles@[k]@,
                        seen.status,
                        self.activity_builder.urls.actor_url_of(author.name@),
                    ),
                    *voter,
                    seq![Recipient::Local(*author)],
                ),
    {
        let recipient: ActorRef = ActorRef {
            uri: self.activity_builder.urls.actor_url(author),
            recipient: Recipient::Local(author.clone()),
        };
        self.activity_builder.deliver_vote(
            voter,
            fresh_ids,
            &seen.poll,
            &seen.status,
            titles,
            &recipient,
        )
    }
}

impl PollStatusLookup {
    /// A poll without its status does not exist.
    pub fn found(self, status: Option<Status>) -> (r: Result<PollVisible, AppError>)
        ensures
            match status {
                Some(status) => r == Ok::<PollVisible, AppError>(
                    PollVisible { poll: self.poll, status },
                ),
                None => r matches Err(e) && is_poll_not_found(e),
            },
    {
        match status {
            Some(status) => Ok(PollVisible { poll: self.poll, status }),
            None => Err(poll_not_found()),
        }
    }
}

impl PollVisible {
    /// The poll of a status that the viewer may not see does not exist to
    /// them.
    pub fn seen(self, visible: bool) -> (r: Result<PollVisible, AppError>)
        ensures
            if visible {
                r == Ok::<PollVisible, AppError>(self)
            } else {
                r matches Err(e) && is_poll_not_found(e)
            },
    {
        if visible {
            Ok(self)
        } else {
            Err(poll_not_found())
        }
    }
}

} // verus!
