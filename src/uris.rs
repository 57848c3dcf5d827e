//! Canonical URIs of a local actor, derived from the node's domain and a username.
use vstd::prelude::*;

verus! {

/// `{domain}/users/{username}`.
pub open spec fn actor_id_of(domain: Seq<char>, username: Seq<char>) -> Seq<char> {
    domain + "/users/"@ + username
}

/// `{actor_id}/inbox`.
pub open spec fn inbox_of(actor_id: Seq<char>) -> Seq<char> {
    actor_id + "/inbox"@
}

/// `{actor_id}#main-key`.
pub open spec fn key_id_of(actor_id: Seq<char>) -> Seq<char> {
    actor_id + "#main-key"@
}

/// `{actor_id}/notes/{note_id}`.
pub open spec fn note_uri_of(actor_id: Seq<char>, note_id: Seq<char>) -> Seq<char> {
    actor_id + "/notes/"@ + note_id
}

/// The three URIs that identify a local actor.
pub struct IdentityUris {
    pub actor_id: String,
    pub inbox: String,
    pub key_id: String,
}

impl IdentityUris {
    pub open spec fn derived_from(&self, domain: Seq<char>, username: Seq<char>) -> bool {
        &&& self.actor_id@ == actor_id_of(domain, username)
        &&& self.inbox@ == inbox_of(actor_id_of(domain, username))
        &&& self.key_id@ == key_id_of(actor_id_of(domain, username))
    }
}

pub fn actor_id(domain: &str, username: &str) -> (r: String)
    ensures
        r@ == actor_id_of(domain@, username@),
{
    let s = String::from_str(domain);
    let s = s.concat("/users/");
    s.concat(username)
}

pub fn inbox(actor_id: &str) -> (r: String)
    ensures
        r@ == inbox_of(actor_id@),
{
    String::from_str(actor_id).concat("/inbox")
}

pub fn key_id(actor_id: &str) -> (r: String)
    ensures
        r@ == key_id_of(actor_id@),
{
    String::from_str(actor_id).concat("#main-key")
}

pub fn note_uri(actor_id: &str, note_id: &str) -> (r: String)
    ensures
        r@ == note_uri_of(actor_id@, note_id@),
{
    String::from_str(actor_id).concat("/notes/").concat(note_id)
}

/// Derives the actor id, inbox and key id of `username` on `domain`.
pub fn identity_uris(domain: &str, username: &str) -> (r: IdentityUris)
    ensures
        r.derived_from(domain@, username@),
{
    let id = actor_id(domain, username);
    let inbox = inbox(id.as_str());
    let key_id = key_id(id.as_str());
    IdentityUris { actor_id: id, inbox, key_id }
}

} // verus!
