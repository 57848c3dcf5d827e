//! The documents a node publishes: the actor profile, the WebFinger
//! discovery document, and Create(Note) activities.
use vstd::prelude::*;
use crate::crypto::{public_key_der_to_pem, public_pem_of};
use crate::error::FederationError;
use crate::uris::{actor_id, actor_id_of, inbox, inbox_of, key_id, key_id_of, note_uri, note_uri_of};
use crate::user_repository::User;

verus! {

pub open spec fn activitystreams_context() -> Seq<char> {
    "https://www.w3.org/ns/activitystreams"@
}

pub open spec fn security_context() -> Seq<char> {
    "https://w3id.org/security/v1"@
}

pub open spec fn public_collection() -> Seq<char> {
    "https://www.w3.org/ns/activitystreams#Public"@
}

pub open spec fn activity_json_type() -> Seq<char> {
    "application/activity+json"@
}

/// The public key of an actor, as published in its profile.
#[derive(Debug)]
pub struct PublicKey {
    pub id: String,
    pub owner: String,
    pub public_key_pem: String,
}

/// The profile document of a local actor.
#[derive(Debug)]
pub struct Person {
    pub context: Vec<String>,
    pub id: String,
    pub kind: String,
    pub preferred_username: String,
    pub inbox: String,
    pub public_key: PublicKey,
}

impl Person {
    /// This is the profile of `username` on `domain` whose key is published as `pem`.
    pub open spec fn is_profile(&self, username: Seq<char>, domain: Seq<char>, pem: Seq<char>) -> bool {
        let id = actor_id_of(domain, username);
        &&& self.context@.len() == 2
        &&& self.context@[0]@ == activitystreams_context()
        &&& self.context@[1]@ == security_context()
        &&& self.id@ == id
        &&& self.kind@ == "Person"@
        &&& self.preferred_username@ == username
        &&& self.inbox@ == inbox_of(id)
        &&& self.public_key.id@ == key_id_of(id)
        &&& self.public_key.owner@ == id
        &&& self.public_key.public_key_pem@ == pem
    }

    /// The profile of `username` on `domain`, with `pem` as its public key.
    pub fn with_public_key_pem(username: &str, domain: &str, pem: String) -> (r: Person)
        ensures
            r.is_profile(username@, domain@, pem@),
    {
        let id = actor_id(domain, username);
        let mut context: Vec<String> = Vec::new();
        context.push(String::from_str("https://www.w3.org/ns/activitystreams"));
        context.push(String::from_str("https://w3id.org/security/v1"));
        let inbox = inbox(id.as_str());
        let public_key = PublicKey { id: key_id(id.as_str()), owner: id.clone(), public_key_pem: pem };
        Person {
            context,
            id,
            kind: String::from_str("Person"),
            preferred_username: String::from_str(username),
            inbox,
            public_key,
        }
    }

    /// The profile of `user` on `domain`; its public key is re-encoded from
    /// DER to PEM, and key material that does not decode is
    /// `KeyEncodingFailed`.
    pub fn from_user(user: &User, domain: &str) -> (r: Result<Person, FederationError>)
        ensures
            match r {
                Ok(p) => public_pem_of(user.public_key@) matches Some(pem) && p.is_profile(
                    user.username@,
                    domain@,
                    pem,
                ),
                Err(e) => public_pem_of(user.public_key@) is None && e
                    == FederationError::KeyEncodingFailed,
            },
    {
        match public_key_der_to_pem(user.public_key.as_slice()) {
            Ok(pem) => Ok(Person::with_public_key_pem(user.username.as_str(), domain, pem)),
            Err(_) => Err(FederationError::KeyEncodingFailed),
        }
    }
}

/// A link of a WebFinger document.
#[derive(Debug)]
pub struct Link {
    pub rel: String,
    pub kind: String,
    pub href: String,
}

/// The WebFinger discovery document of a local actor.
#[derive(Debug)]
pub struct WebFinger {
    pub subject: String,
    pub aliases: Vec<String>,
    pub links: Vec<Link>,
}

/// `acct:{username}@{domain}`.
pub open spec fn acct_uri_of(username: Seq<char>, domain: Seq<char>) -> Seq<char> {
    "acct:"@ + username + "@"@ + domain
}

impl WebFinger {
    /// This is the WebFinger document of `username` on `domain`.
    pub open spec fn describes(&self, username: Seq<char>, domain: Seq<char>) -> bool {
        let id = actor_id_of(domain, username);
        &&& self.subject@ == acct_uri_of(username, domain)
        &&& self.aliases@.len() == 1
        &&& self.aliases@[0]@ == id
        &&& self.links@.len() == 1
        &&& self.links@[0].rel@ == "self"@
        &&& self.links@[0].kind@ == activity_json_type()
        &&& self.links@[0].href@ == id
    }

    /// The WebFinger document of `user` on `domain`.
    pub fn from_user(user: &User, domain: &str) -> (r: WebFinger)
        ensures
            r.describes(user.username@, domain@),
    {
        let id = actor_id(domain, user.username.as_str());
        let subject = String::from_str("acct:").concat(user.username.as_str()).concat("@").concat(domain);
        let mut aliases: Vec<String> = Vec::new();
        aliases.push(id.clone());
        let mut links: Vec<Link> = Vec::new();
        links.push(Link {
            rel: String::from_str("self"),
            kind: String::from_str("application/activity+json"),
            href: id,
        });
        WebFinger { subject, aliases, links }
    }
}

/// A note, as carried by a Create activity.
#[derive(Debug)]
pub struct Note {
    pub id: String,
    pub kind: String,
    pub attributed_to: String,
    pub to: String,
    pub content: String,
    pub in_reply_to: Option<String>,
}

/// A Create activity wrapping a note.
#[derive(Debug)]
pub struct Create {
    pub context: String,
    pub kind: String,
    pub id: String,
    pub actor: String,
    pub object: Note,
}

impl Create {
    /// This is the Create activity by `actor` of note `note_id` with `content`,
    /// replying to `in_reply_to`.
    pub open spec fn creates_note(
        &self,
        actor: Seq<char>,
        note_id: Seq<char>,
        content: Seq<char>,
        in_reply_to: Option<Seq<char>>,
    ) -> bool {
        let id = note_uri_of(actor, note_id);
        &&& self.context@ == activitystreams_context()
        &&& self.kind@ == "Create"@
        &&& self.id@ == id
        &&& self.actor@ == actor
        &&& self.object.id@ == id
        &&& self.object.kind@ == "Note"@
        &&& self.object.attributed_to@ == actor
        &&& self.object.to@ == public_collection()
        &&& self.object.content@ == content
        &&& match (self.object.in_reply_to, in_reply_to) {
            (Some(a), Some(b)) => a@ == b,
            (None, None) => true,
            _ => false,
        }
    }
}

/// The Create activity by the actor `actor_id` that publishes note `note_id`
/// with `content`, addressed to the public collection.
pub fn build_create_note(actor_id: &str, note_id: &str, content: String, in_reply_to: Option<String>) -> (r: Create)
    ensures
        r.creates_note(
            actor_id@,
            note_id@,
            content@,
            match in_reply_to {
                Some(s) => Some(s@),
                None => None,
            },
        ),
{
    let id = note_uri(actor_id, note_id);
    let object = Note {
        id: id.clone(),
        kind: String::from_str("Note"),
        attributed_to: String::from_str(actor_id),
        to: String::from_str("https://www.w3.org/ns/activitystreams#Public"),
        content,
        in_reply_to,
    };
    Create {
        context: String::from_str("https://www.w3.org/ns/activitystreams"),
        kind: String::from_str("Create"),
        id,
        actor: String::from_str(actor_id),
        object,
    }
}

} // verus!
