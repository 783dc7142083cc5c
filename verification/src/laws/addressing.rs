//! Who a status is addressed to and delivered to.

use vstd::prelude::*;

use crate::addressing::{
    addressed_cc, addressed_to, derive_addressing, derive_recipients, mention_recipients,
    mention_uris, ActorRef, Addressing,
};
use crate::domain::Recipient;
use crate::json::string_views;
use crate::model::Status;

verus! {

/// Whatever the visibility, every mentioned actor is delivered to; where the
/// followers are addressed every follower is too, before them; and nobody
/// else is: each gets one delivery.
pub proof fn law_everyone_addressed_is_delivered_to(
    addressing: &Addressing,
    mentions: &[ActorRef],
    followers: &[Recipient],
    r: Vec<Recipient>,
)
    requires
        call_ensures(derive_recipients, (addressing, mentions, followers), r),
    ensures
        ({
            let first: int = if addressing.addresses_followers {
                followers@.len() as int
            } else {
                0
            };
            &&& r@.len() == first + mentions@.len()
            &&& forall|i: int| 0 <= i < first ==> #[trigger] r@[i] == followers@[i]
            &&& forall|i: int|
                0 <= i < mentions@.len() ==> r@[first + i] == (#[trigger] mentions@[i]).recipient
        }),
{
    let m = mention_recipients(mentions@);
    assert(m.len() == mentions@.len());
    assert forall|i: int| 0 <= i < mentions@.len() implies m[i] == (
    #[trigger] mentions@[i]).recipient by {}
}

/// Whether a list of texts is one text followed by the URIs of the mentioned
/// actors.
pub open spec fn leads_mentions(
    texts: Seq<String>,
    first: Seq<char>,
    mentions: Seq<ActorRef>,
) -> bool {
    &&& texts.len() == mentions.len() + 1
    &&& texts[0]@ == first
    &&& forall|i: int| 0 <= i < mentions.len() ==> texts[i + 1]@ == (#[trigger] mentions[i]).uri@
}

/// A public status is to everyone, with the followers and the mentioned actors
/// in copy; an unlisted one is to the followers and the mentioned actors, with
/// everyone in copy; a private one is to the followers and the mentioned
/// actors; a direct one is to the mentioned actors alone. All but a direct one
/// reach the followers.
pub proof fn law_visibility_decides_who_is_addressed(
    status: &Status,
    mentions: &[ActorRef],
    followers_uri: &str,
    r: Addressing,
)
    requires
        call_ensures(derive_addressing, (status, mentions, followers_uri), r),
    ensures
        r.addresses_followers <==> !(status.visibility is Direct),
        status.visibility is Public ==> r.to@.len() == 1 && r.to@[0]@
            == "https://www.w3.org/ns/activitystreams#Public"@ && leads_mentions(
            r.cc@,
            followers_uri@,
            mentions@,
        ),
        status.visibility is Unlisted ==> r.cc@.len() == 1 && r.cc@[0]@
            == "https://www.w3.org/ns/activitystreams#Public"@ && leads_mentions(
            r.to@,
            followers_uri@,
            mentions@,
        ),
        status.visibility is Private ==> r.cc@.len() == 0 && leads_mentions(
            r.to@,
            followers_uri@,
            mentions@,
        ),
        status.visibility is Direct ==> r.cc@.len() == 0 && r.to@.len() == mentions@.len() && (
        forall|i: int| 0 <= i < mentions@.len() ==> r.to@[i]@ == (#[trigger] mentions@[i]).uri@),
{
    let uris = mention_uris(mentions@);
    let to = addressed_to(status.visibility, uris, followers_uri@);
    let cc = addressed_cc(status.visibility, uris, followers_uri@);
    assert(string_views(r.to@).len() == r.to@.len());
    assert(string_views(r.cc@).len() == r.cc@.len());
    assert(forall|i: int| 0 <= i < r.to@.len() ==> string_views(r.to@)[i] == (#[trigger] r.to@[i])@);
    assert(forall|i: int| 0 <= i < r.cc@.len() ==> string_views(r.cc@)[i] == (#[trigger] r.cc@[i])@);
    assert forall|i: int| 0 <= i < mentions@.len() implies uris[i] == (
    #[trigger] mentions@[i]).uri@ by {}
    assert(to[0] == to[0] && cc[0] == cc[0]);
}

} // verus!
