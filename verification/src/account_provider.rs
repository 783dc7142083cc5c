//! The statuses of an account: which of them a viewer is shown, and what
//! they count up to.

use vstd::prelude::*;

use crate::clock::Timestamp;
use crate::domain::{AccountRef, Id};
use crate::error::{not_found, AppError, NOT_FOUND};
use crate::model::{Poll, PollOption, PollVote, Status};
use crate::poll_repository::{find_poll_by_id, is_tally, poll_in, tally, PollTally};

verus! {

/// The id of an account, wherever it lives.
pub open spec fn ref_id(target: AccountRef) -> Id {
    match target {
        AccountRef::Local(id) => id,
        AccountRef::Remote(id) => id,
    }
}

/// The id of an account, wherever it lives.
pub fn account_ref_id(target: &AccountRef) -> (r: Id)
    ensures
        r == ref_id(*target),
{
    match *target {
        AccountRef::Local(id) => id,
        AccountRef::Remote(id) => id,
    }
}

/// Which statuses of an account are asked for.
#[derive(Debug, Clone, Copy, PartialEq, Eq, Structural)]
pub struct StatusFilters {
    pub exclude_replies: bool,
    pub exclude_reblogs: bool,
    pub only_media: bool,
    pub pinned: bool,
}

/// A status of the account with what the filters ask of it.
#[derive(Debug, PartialEq, Eq)]
pub struct Candidate {
    pub status: Status,
    /// Whether the viewer may see it.
    pub visible: bool,
    /// Its media; read only where the filters ask for media.
    pub media_ids: Vec<Id>,
    /// Whether the account pinned it; read only where the filters ask for
    /// pinned statuses.
    pub is_pinned: bool,
}

/// Whether a status passes the filters.
pub open spec fn passes(
    status: Status,
    filters: StatusFilters,
    has_media: bool,
    is_pinned: bool,
) -> bool {
    &&& filters.exclude_replies ==> status.in_reply_to_id is None
    &&& filters.exclude_reblogs ==> status.reblog_of_id is None
    &&& filters.only_media ==> has_media
    &&& filters.pinned ==> is_pinned
}

/// Whether a status passes the filters.
pub fn passes_filters(
    status: &Status,
    filters: &StatusFilters,
    media_ids: &[Id],
    is_pinned: bool,
) -> (r: bool)
    ensures
        r == passes(*status, *filters, media_ids@.len() > 0, is_pinned),
{
    if filters.exclude_replies && status.in_reply_to_id.is_some() {
        return false;
    }
    if filters.exclude_reblogs && status.reblog_of_id.is_some() {
        return false;
    }
    if filters.only_media && media_ids.len() == 0 {
        return false;
    }
    if filters.pinned && !is_pinned {
        return false;
    }
    true
}

/// Whether a candidate is listed.
pub open spec fn is_listed(candidate: Candidate, filters: StatusFilters) -> bool {
    candidate.visible && passes(
        candidate.status,
        filters,
        candidate.media_ids@.len() > 0,
        candidate.is_pinned,
    )
}

/// The statuses that are listed, in the order of the candidates.
pub open spec fn listed(candidates: Seq<Candidate>, filters: StatusFilters) -> Seq<Status>
    decreases candidates.len(),
{
    if candidates.len() == 0 {
        Seq::empty()
    } else {
        let rest = listed(candidates.drop_last(), filters);
        if is_listed(candidates.last(), filters) {
            rest.push(candidates.last().status)
        } else {
            rest
        }
    }
}

/// The statuses that a viewer is shown: those they may see and that pass
/// the filters, in order.
pub fn list_statuses(candidates: &[Candidate], filters: &StatusFilters) -> (r: Vec<Status>)
    ensures
        r@ == listed(candidates@, *filters),
{
    let mut out: Vec<Status> = Vec::new();
    let mut i: usize = 0;
    assert(candidates@.take(0) =~= Seq::<Candidate>::empty());
    while i < candidates.len()
        invariant
            i <= candidates.len(),
            out@ == listed(candidates@.take(i as int), *filters),
        decreases candidates.len() - i,
    {
        assert(candidates@.take(i + 1).drop_last() =~= candidates@.take(i as int));
        let candidate: &Candidate = &candidates[i];
        if candidate.visible && passes_filters(
            &candidate.status,
            filters,
            candidate.media_ids.as_slice(),
            candidate.is_pinned,
        ) {
            out.push(candidate.status.clone());
        }
        i += 1;
    }
    assert(candidates@.take(i as int) =~= candidates@);
    out
}

/// The status that a boost shows: its target, where it exists and the viewer
/// may see it.
pub fn resolve_reblog_target(status: &Status, target: Option<Status>, visible: bool) -> (r: Option<
    Status,
>)
    ensures
        r == (if status.reblog_of_id is Some && visible {
            target
        } else {
            None
        }),
{
    if status.reblog_of_id.is_some() && visible {
        target
    } else {
        None
    }
}

/// The polls of a page of statuses, all of which have to exist.
#[derive(Debug, PartialEq, Eq)]
pub struct RequiredPolls {
    pub polls: Vec<Poll>,
    pub options: Vec<PollOption>,
    pub votes: Vec<PollVote>,
}

impl RequiredPolls {
    /// Every requested poll with its tally, in the order they were asked
    /// for; `404` where one of them does not exist.
    pub fn resolve_many(&self, poll_ids: &[Id], viewer: Option<Id>) -> (r: Result<
        Vec<(Id, Poll, PollTally)>,
        AppError,
    >)
        requires
            self.votes.len() <= i64::MAX,
        ensures
            match r {
                Ok(resolved) => {
                    &&& resolved.len() == poll_ids.len()
                    &&& forall|k: int|
                        0 <= k < resolved.len() ==> {
                            &&& (#[trigger] resolved@[k]).0 == poll_ids@[k]
                            &&& poll_in(self.polls@, poll_ids@[k]) == Some(resolved@[k].1)
                            &&& is_tally(
                                resolved@[k].2,
                                poll_ids@[k],
                                self.options@,
                                self.votes@,
                                viewer,
                            )
                        }
                },
                Err(e) => {
                    &&& e.is_client(NOT_FOUND, "status not found"@)
                    &&& exists|k: int|
                        0 <= k < poll_ids.len() && poll_in(
                            self.polls@,
                            #[trigger] poll_ids@[k],
                        ) is None
                },
            },
    {
        let mut out: Vec<(Id, Poll, PollTally)> = Vec::new();
        let mut i: usize = 0;
        while i < poll_ids.len()
            invariant
                self.votes.len() <= i64::MAX,
                i <= poll_ids.len(),
                out.len() == i,
                forall|k: int|
                    0 <= k < i ==> {
                        &&& (#[trigger] out@[k]).0 == poll_ids@[k]
                        &&& poll_in(self.polls@, poll_ids@[k]) == Some(out@[k].1)
                        &&& is_tally(
                            out@[k].2,
                            poll_ids@[k],
                            self.options@,
                            self.votes@,
                            viewer,
                        )
                    },
            decreases poll_ids.len() - i,
        {
            let poll_id: Id = poll_ids[i];
            let poll: Poll = match find_poll_by_id(self.polls.as_slice(), poll_id) {
                Some(poll) => poll,
                None => {
                    assert(poll_in(self.polls@, poll_ids@[i as int]) is None);
                    return Err(not_found());
                },
            };
            if let Ok(one) = tally(
                poll_id,
                true,
                self.options.as_slice(),
                self.votes.as_slice(),
                viewer,
            ) {
                out.push((poll_id, poll, one));
            }
            i += 1;
        }
        Ok(out)
    }
}

/// What an account counts up to.
#[derive(Debug, Clone, Copy, PartialEq, Eq, Structural)]
pub struct AccountCounts {
    pub followers: i64,
    pub following: i64,
    pub statuses: i64,
    pub last_status_at: Option<Timestamp>,
}

/// What the statuses of an account add to its counts: nothing to its
/// followers or followed accounts.
pub fn contributed_counts(statuses: i64, last_status_at: Option<Timestamp>) -> (r: AccountCounts)
    ensures
        r == (AccountCounts { followers: 0, following: 0, statuses, last_status_at }),
{
    AccountCounts { followers: 0, following: 0, statuses, last_status_at }
}

} // verus!
