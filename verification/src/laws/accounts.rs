//! The statuses of an account.

use vstd::prelude::*;

use crate::account_provider::{
    account_ref_id, contributed_counts, is_listed, list_statuses, listed, passes_filters,
    resolve_reblog_target, AccountCounts, Candidate, StatusFilters,
};
use crate::clock::Timestamp;
use crate::domain::{AccountRef, Id};
use crate::model::Status;

verus! {

/// Whether a status is left in by the filters.
pub open spec fn is_left_in(
    status: Status,
    filters: StatusFilters,
    media_ids: Seq<Id>,
    is_pinned: bool,
) -> bool {
    &&& !(filters.exclude_replies && status.in_reply_to_id is Some)
    &&& !(filters.exclude_reblogs && status.reblog_of_id is Some)
    &&& !(filters.only_media && media_ids.len() == 0)
    &&& !(filters.pinned && !is_pinned)
}

/// A status is left out where a filter that is set leaves it out, and by
/// nothing else.
pub proof fn law_filters_leave_out_what_they_name(
    status: &Status,
    filters: &StatusFilters,
    media_ids: &[Id],
    is_pinned: bool,
    r: bool,
)
    requires
        call_ensures(passes_filters, (status, filters, media_ids, is_pinned), r),
    ensures
        r == is_left_in(*status, *filters, media_ids@, is_pinned),
{
}

proof fn lemma_listed(candidates: Seq<Candidate>, filters: StatusFilters)
    ensures
        listed(candidates, filters) == candidates.filter(
            |c: Candidate| c.visible && is_left_in(c.status, filters, c.media_ids@, c.is_pinned),
        ).map_values(|c: Candidate| c.status),
    decreases candidates.len(),
{
    reveal(Seq::filter);
    let shown = |c: Candidate|
        c.visible && is_left_in(c.status, filters, c.media_ids@, c.is_pinned);
    if candidates.len() > 0 {
        lemma_listed(candidates.drop_last(), filters);
        assert(shown(candidates.last()) == is_listed(candidates.last(), filters));
    }
    assert(listed(candidates, filters) =~= candidates.filter(shown).map_values(
        |c: Candidate| c.status,
    ));
}

/// Of the statuses of an account those are shown that the viewer may see and
/// that the filters leave in, all of them and in order.
pub proof fn law_visible_statuses_are_shown(
    candidates: &[Candidate],
    filters: &StatusFilters,
    r: Vec<Status>,
)
    requires
        call_ensures(list_statuses, (candidates, filters), r),
    ensures
        r@ == candidates@.filter(
            |c: Candidate| c.visible && is_left_in(c.status, *filters, c.media_ids@, c.is_pinned),
        ).map_values(|c: Candidate| c.status),
{
    lemma_listed(candidates@, *filters);
}

/// A boost shows the boosted status where that is there and may be seen;
/// nothing else shows another status.
pub proof fn law_boosts_show_their_target(
    status: &Status,
    target: Option<Status>,
    visible: bool,
    r: Option<Status>,
)
    requires
        call_ensures(resolve_reblog_target, (status, target, visible), r),
    ensures
        r is Some <==> status.reblog_of_id is Some && target is Some && visible,
        r is Some ==> r == target,
{
}

/// The id of an account does not depend on where it lives, and what statuses
/// count for is statuses alone.
pub proof fn law_accounts_are_counted(
    target: &AccountRef,
    id: Id,
    statuses: i64,
    last_status_at: Option<Timestamp>,
    r: AccountCounts,
)
    requires
        call_ensures(account_ref_id, (target,), id),
        call_ensures(contributed_counts, (statuses, last_status_at), r),
    ensures
        *target == AccountRef::Local(id) || *target == AccountRef::Remote(id),
        r.statuses == statuses,
        r.last_status_at == last_status_at,
        r.followers == 0,
        r.following == 0,
{
}

} // verus!
