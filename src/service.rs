//! The lookups that a routing layer serves: actor profiles and WebFinger
//! resources, over any user repository.
use vstd::prelude::*;
use crate::acct::{acct_parts, parse_acct};
use crate::crypto::public_pem_of;
use crate::documents::{Person, WebFinger};
use crate::error::FederationError;
use crate::user_repository::UserRepository;

verus! {

/// The profile of `username` on `domain`, with the user created on first use.
pub fn get_actor<R: UserRepository>(repo: &R, username: &str, domain: &str) -> (r: Result<Person, FederationError>)
    ensures
        r matches Ok(p) ==> exists|der: Seq<u8>, pem: Seq<char>|
            public_pem_of(der) == Some(pem) && p.is_profile(username@, domain@, pem),
{
    let user = repo.get_user(username)?;
    let person = Person::from_user(&user, domain)?;
    Ok(person)
}

/// The WebFinger document that `resource` asks for. A resource that is not of
/// the form `acct:user@domain` matches nothing: `Ok(None)`.
pub fn resolve_webfinger<R: UserRepository>(repo: &R, resource: &str) -> (r: Result<Option<WebFinger>, FederationError>)
    ensures
        match acct_parts(resource@) {
            Some((user, domain)) => match r {
                Ok(Some(w)) => w.describes(user, domain),
                Ok(None) => false,
                Err(_) => true,
            },
            None => r matches Ok(None),
        },
{
    match parse_acct(resource) {
        Some((name, domain)) => {
            let user = repo.get_user(name)?;
            Ok(Some(WebFinger::from_user(&user, domain)))
        },
        None => Ok(None),
    }
}

} // verus!
