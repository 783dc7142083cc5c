//! Who a status is addressed to, and who it is delivered to.

use vstd::prelude::*;

use crate::domain::{Recipient, Visibility};
use crate::json::string_views;
use crate::model::Status;

verus! {

/// The collection that stands for everyone.
pub const PUBLIC_COLLECTION_URI: &'static str = "https://www.w3.org/ns/activitystreams#Public";

/// A mentioned actor: the URI to address and where to deliver to.
#[derive(Debug, PartialEq, Eq)]
pub struct ActorRef {
    pub uri: String,
    pub recipient: Recipient,
}

impl Clone for ActorRef {
    fn clone(&self) -> (r: ActorRef)
        ensures
            r == *self,
    {
        ActorRef { uri: self.uri.clone(), recipient: self.recipient.clone() }
    }
}

/// The `to` and `cc` of an Activity, and whether the author's followers are
/// among those addressed.
#[derive(Debug, PartialEq, Eq)]
pub struct Addressing {
    pub to: Vec<String>,
    pub cc: Vec<String>,
    pub addresses_followers: bool,
}

/// The URIs of the mentioned actors, in order.
pub open spec fn mention_uris(mentions: Seq<ActorRef>) -> Seq<Seq<char>> {
    mentions.map_values(|m: ActorRef| m.uri@)
}

/// The recipients of the mentioned actors, in order.
pub open spec fn mention_recipients(mentions: Seq<ActorRef>) -> Seq<Recipient> {
    mentions.map_values(|m: ActorRef| m.recipient)
}

/// The `to` of a status.
pub open spec fn addressed_to(
    visibility: Visibility,
    mentions: Seq<Seq<char>>,
    followers_uri: Seq<char>,
) -> Seq<Seq<char>> {
    match visibility {
        Visibility::Public => seq![PUBLIC_COLLECTION_URI@],
        Visibility::Unlisted => seq![followers_uri] + mentions,
        Visibility::Private => seq![followers_uri] + mentions,
        Visibility::Direct => mentions,
    }
}

/// The `cc` of a status.
pub open spec fn addressed_cc(
    visibility: Visibility,
    mentions: Seq<Seq<char>>,
    followers_uri: Seq<char>,
) -> Seq<Seq<char>> {
    match visibility {
        Visibility::Public => seq![followers_uri] + mentions,
        Visibility::Unlisted => seq![PUBLIC_COLLECTION_URI@],
        Visibility::Private => Seq::empty(),
        Visibility::Direct => Seq::empty(),
    }
}

/// Whether a status addresses the followers of its author.
pub open spec fn reaches_followers(visibility: Visibility) -> bool {
    visibility != Visibility::Direct
}

/// Who an Activity is delivered to.
pub open spec fn delivered_to(
    followers_addressed: bool,
    mentions: Seq<ActorRef>,
    followers: Seq<Recipient>,
) -> Seq<Recipient> {
    if followers_addressed {
        followers + mention_recipients(mentions)
    } else {
        mention_recipients(mentions)
    }
}

/// Appends the URIs of the mentioned actors.
fn extend_with_mentions(out: &mut Vec<String>, mentions: &[ActorRef])
    ensures
        string_views(final(out)@) == string_views(old(out)@) + mention_uris(mentions@),
{
    let ghost start = string_views(out@);
    let mut i: usize = 0;
    assert(string_views(out@) =~= start + mention_uris(mentions@).take(0));
    while i < mentions.len()
        invariant
            i <= mentions.len(),
            string_views(out@) == start + mention_uris(mentions@).take(i as int),
        decreases mentions.len() - i,
    {
        let ghost before = out@;
        out.push(mentions[i].uri.clone());
        proof {
            assert(string_views(out@) =~= string_views(before).push(mentions@[i as int].uri@));
            assert(mention_uris(mentions@).take(i + 1) =~= mention_uris(mentions@).take(
                i as int,
            ).push(mentions@[i as int].uri@));
            assert(string_views(out@) =~= start + mention_uris(mentions@).take(i + 1));
        }
        i += 1;
    }
    assert(mention_uris(mentions@).take(i as int) =~= mention_uris(mentions@));
}

/// A list of one text.
fn just(text: &str) -> (r: Vec<String>)
    ensures
        string_views(r@) == seq![text@],
{
    let mut out: Vec<String> = Vec::new();
    out.push(text.to_owned());
    assert(string_views(out@) =~= seq![text@]);
    out
}

/// The addressing of a status: public posts go to everyone, unlisted posts
/// to the followers with everyone in copy, private posts to the followers,
/// and direct posts to the mentioned actors alone. Mentioned actors are
/// addressed in every case.
pub fn derive_addressing(status: &Status, mentions: &[ActorRef], followers_uri: &str) -> (r:
    Addressing)
    ensures
        string_views(r.to@) == addressed_to(
            status.visibility,
            mention_uris(mentions@),
            followers_uri@,
        ),
        string_views(r.cc@) == addressed_cc(
            status.visibility,
            mention_uris(mentions@),
            followers_uri@,
        ),
        r.addresses_followers == reaches_followers(status.visibility),
{
    match status.visibility {
        Visibility::Public => {
            let mut cc: Vec<String> = just(followers_uri);
            extend_with_mentions(&mut cc, mentions);
            Addressing { to: just(PUBLIC_COLLECTION_URI), cc, addresses_followers: true }
        },
        Visibility::Unlisted => {
            let mut to: Vec<String> = just(followers_uri);
            extend_with_mentions(&mut to, mentions);
            Addressing { to, cc: just(PUBLIC_COLLECTION_URI), addresses_followers: true }
        },
        Visibility::Private => {
            let mut to: Vec<String> = just(followers_uri);
            extend_with_mentions(&mut to, mentions);
            let cc: Vec<String> = Vec::new();
            assert(string_views(cc@) =~= Seq::<Seq<char>>::empty());
            Addressing { to, cc, addresses_followers: true }
        },
        Visibility::Direct => {
            let mut to: Vec<String> = Vec::new();
            assert(string_views(to@) =~= Seq::<Seq<char>>::empty());
            extend_with_mentions(&mut to, mentions);
            let cc: Vec<String> = Vec::new();
            assert(string_views(cc@) =~= Seq::<Seq<char>>::empty());
            assert(string_views(to@) =~= mention_uris(mentions@));
            Addressing { to, cc, addresses_followers: false }
        },
    }
}

/// Who a status with the given addressing is delivered to: the followers,
/// where they are addressed, then the mentioned actors.
pub fn derive_recipients(
    addressing: &Addressing,
    mentions: &[ActorRef],
    followers: &[Recipient],
) -> (r: Vec<Recipient>)
    ensures
        r@ == delivered_to(addressing.addresses_followers, mentions@, followers@),
{
    let mut out: Vec<Recipient> = Vec::new();
    let ghost base: Seq<Recipient> = if addressing.addresses_followers {
        followers@
    } else {
        Seq::empty()
    };
    if addressing.addresses_followers {
        let mut i: usize = 0;
        while i < followers.len()
            invariant
                i <= followers.len(),
                out@ == followers@.take(i as int),
            decreases followers.len() - i,
        {
            out.push(followers[i].clone());
            i += 1;
        }
    }
    assert(out@ =~= base);
    let mut j: usize = 0;
    while j < mentions.len()
        invariant
            j <= mentions.len(),
            out@ == base + mention_recipients(mentions@).take(j as int),
        decreases mentions.len() - j,
    {
        out.push(mentions[j].recipient.clone());
        j += 1;
    }
    assert(mention_recipients(mentions@).take(j as int) =~= mention_recipients(mentions@));
    out
}

/// A private or direct status never addresses everyone, as long as neither
/// the followers collection nor a mentioned actor goes by that URI.
pub proof fn law_limited_posts_never_address_everyone(
    visibility: Visibility,
    mentions: Seq<Seq<char>>,
    followers_uri: Seq<char>,
)
    requires
        visibility == Visibility::Private || visibility == Visibility::Direct,
        followers_uri != PUBLIC_COLLECTION_URI@,
        !mentions.contains(PUBLIC_COLLECTION_URI@),
    ensures
        !addressed_to(visibility, mentions, followers_uri).contains(PUBLIC_COLLECTION_URI@),
        !addressed_cc(visibility, mentions, followers_uri).contains(PUBLIC_COLLECTION_URI@),
{
    let to = addressed_to(visibility, mentions, followers_uri);
    if to.contains(PUBLIC_COLLECTION_URI@) {
        let i = choose|i: int| 0 <= i < to.len() && to[i] == PUBLIC_COLLECTION_URI@;
        if visibility == Visibility::Private {
            assert(i > 0);
            assert(mentions[i - 1] == PUBLIC_COLLECTION_URI@);
        } else {
            assert(mentions[i] == PUBLIC_COLLECTION_URI@);
        }
    }
}

/// A direct status addresses the mentioned actors and nobody else, and is
/// delivered to them and nobody else, whatever followers there are.
pub proof fn law_direct_posts_reach_only_mentions(
    mentions: Seq<ActorRef>,
    followers_uri: Seq<char>,
    followers: Seq<Recipient>,
)
    ensures
        addressed_to(Visibility::Direct, mention_uris(mentions), followers_uri) == mention_uris(
            mentions,
        ),
        addressed_cc(Visibility::Direct, mention_uris(mentions), followers_uri).len() == 0,
        delivered_to(reaches_followers(Visibility::Direct), mentions, followers)
            == mention_recipients(mentions),
{
}

} // verus!
