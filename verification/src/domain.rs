//! Identities shared by the whole server: ids, handles, accounts,
//! visibilities, delivery recipients and the instance's URL scheme.

use vstd::prelude::*;

use crate::text::{i64_to_text, integer_text, joined, law_integer_round_trip};

verus! {

/// A 64-bit row identity.
#[derive(Debug, Clone, Copy, PartialEq, Eq, PartialOrd, Ord, Hash, Structural)]
pub struct Id(pub i64);

impl Id {
    pub fn from_i64(value: i64) -> (r: Id)
        ensures
            r == Id(value),
    {
        Id(value)
    }

    pub fn as_i64(&self) -> (r: i64)
        ensures
            r == self.0,
    {
        self.0
    }
}

/// Who may see a status.
#[derive(Debug, Clone, Copy, PartialEq, Eq, Hash, Structural)]
pub enum Visibility {
    Public,
    Unlisted,
    Private,
    Direct,
}

/// An account, with where it lives.
#[derive(Debug, Clone, Copy, PartialEq, Eq, Hash, Structural)]
pub enum AccountRef {
    Local(Id),
    Remote(Id),
}

/// The handle of a local actor, as the actor directory validated it.
#[derive(Debug, PartialEq, Eq)]
pub struct Handle {
    pub name: String,
}

impl Handle {
    pub fn new(name: &str) -> (r: Handle)
        ensures
            r.name@ == name@,
    {
        Handle { name: name.to_owned() }
    }
}

impl Clone for Handle {
    fn clone(&self) -> (r: Handle)
        ensures
            r == *self,
    {
        Handle { name: self.name.clone() }
    }
}

/// A copy of an optional text.
pub fn copy_text(text: &Option<String>) -> (r: Option<String>)
    ensures
        r == *text,
{
    match text {
        Some(s) => Some(s.clone()),
        None => None,
    }
}

/// Where an Activity is delivered to.
#[derive(Debug, PartialEq, Eq)]
pub enum Recipient {
    Local(Handle),
    Remote { inbox: String, shared_inbox: Option<String> },
}

impl Clone for Recipient {
    fn clone(&self) -> (r: Recipient)
        ensures
            r == *self,
    {
        match self {
            Recipient::Local(handle) => Recipient::Local(handle.clone()),
            Recipient::Remote { inbox, shared_inbox } => Recipient::Remote {
                inbox: inbox.clone(),
                shared_inbox: copy_text(shared_inbox),
            },
        }
    }
}

/// The URL scheme of the instance.
#[derive(Debug, PartialEq, Eq)]
pub struct ActorUrls {
    pub domain: String,
}

impl ActorUrls {
    pub fn new(domain: &str) -> (r: ActorUrls)
        ensures
            r.domain@ == domain@,
    {
        ActorUrls { domain: domain.to_owned() }
    }

    /// `https://{domain}/users/{handle}`.
    pub open spec fn actor_url_of(self, handle: Seq<char>) -> Seq<char> {
        "https://"@ + self.domain@ + "/users/"@ + handle
    }

    /// `https://{domain}/{kind}/{id}`.
    pub open spec fn object_url_of(self, kind: Seq<char>, id: Id) -> Seq<char> {
        "https://"@ + self.domain@ + "/"@ + kind + "/"@ + integer_text(id.0 as int)
    }

    /// The URL of a local actor.
    pub fn actor_url(&self, handle: &Handle) -> (r: String)
        ensures
            r@ == self.actor_url_of(handle.name@),
    {
        let mut out: String = joined("https://", self.domain.as_str());
        out.append("/users/");
        out.append(handle.name.as_str());
        out
    }

    /// The URL of a local object of the given kind.
    pub fn object_url(&self, kind: &str, id: Id) -> (r: String)
        ensures
            r@ == self.object_url_of(kind@, id),
    {
        let mut out: String = joined("https://", self.domain.as_str());
        out.append("/");
        out.append(kind);
        out.append("/");
        out.append(i64_to_text(id.0).as_str());
        out
    }

    /// Objects of one kind have different URLs when their ids differ.
    pub proof fn law_object_urls_are_distinct(self, kind: Seq<char>, a: Id, b: Id)
        requires
            a != b,
        ensures
            self.object_url_of(kind, a) != self.object_url_of(kind, b),
    {
        let base = "https://"@ + self.domain@ + "/"@ + kind + "/"@;
        let x = integer_text(a.0 as int);
        let y = integer_text(b.0 as int);
        law_integer_round_trip(a.0);
        law_integer_round_trip(b.0);
        if base + x == base + y {
            assert((base + x).skip(base.len() as int) =~= x);
            assert((base + y).skip(base.len() as int) =~= y);
        }
    }
}

} // verus!
