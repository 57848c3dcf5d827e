use activitypub_core::documents::Person;
use activitypub_core::service::{get_actor, resolve_webfinger};
use activitypub_core::user_repository::{InMemoryUserRepository, KeyCache, User, UserRepository};

fn user(name: &str, key: u8) -> User {
    User { username: name.to_string(), public_key: vec![key], private_key: vec![key, key] }
}

#[test]
fn cache_keeps_first_entry() {
    let mut cache = KeyCache::new();
    assert!(cache.lookup("alice").is_none());
    let first = cache.get_or_insert(user("alice", 1));
    assert_eq!(first.public_key, vec![1]);
    let second = cache.get_or_insert(user("alice", 2));
    assert_eq!(second.public_key, vec![1]);
    assert_eq!(second.private_key, vec![1, 1]);
    let found = cache.lookup("alice").unwrap();
    assert_eq!(found.public_key, vec![1]);
}

#[test]
fn cache_keeps_users_apart() {
    let mut cache = KeyCache::new();
    cache.get_or_insert(user("alice", 1));
    let bob = cache.get_or_insert(user("bob", 2));
    assert_eq!(bob.username, "bob");
    assert_eq!(bob.public_key, vec![2]);
    assert_eq!(cache.lookup("alice").unwrap().public_key, vec![1]);
    assert!(cache.lookup("carol").is_none());
}

#[test]
fn repository_returns_same_keys_twice() {
    let repo = InMemoryUserRepository::new("example.com".to_string());
    assert_eq!(repo.domain, "example.com");
    let a = repo.get_user("alice").unwrap();
    let b = repo.get_user("alice").unwrap();
    assert_eq!(a.username, "alice");
    assert!(!a.public_key.is_empty());
    assert!(!a.private_key.is_empty());
    assert_eq!(a.public_key, b.public_key);
    assert_eq!(a.private_key, b.private_key);
}

#[test]
fn generated_key_encodes_as_pem() {
    let repo = InMemoryUserRepository::new("example.com".to_string());
    let u = repo.get_user("alice").unwrap();
    let p = Person::from_user(&u, "https://example.com").unwrap();
    assert!(p.public_key.public_key_pem.starts_with("-----BEGIN PUBLIC KEY-----"));
    assert_eq!(p.id, "https://example.com/users/alice");
    let again = get_actor(&repo, "alice", "https://example.com").unwrap();
    assert_eq!(again.public_key.public_key_pem, p.public_key.public_key_pem);
}

#[test]
fn webfinger_resolution() {
    let repo = InMemoryUserRepository::new("example.com".to_string());
    let w = resolve_webfinger(&repo, "acct:alice@example.com").unwrap().unwrap();
    assert_eq!(w.subject, "acct:alice@example.com");
    assert!(resolve_webfinger(&repo, "alice@example.com").unwrap().is_none());
}

#[test]
fn repository_exposes_its_domain() {
    let repo = InMemoryUserRepository::new("social.example".to_string());
    assert_eq!(repo.domain(), "social.example");
}

#[test]
fn repository_mints_4096_bit_keys() {
    let repo = InMemoryUserRepository::new("example.com".to_string());
    let u = repo.get_user("dave").unwrap();
    let public = openssl::rsa::Rsa::public_key_from_der(&u.public_key).unwrap();
    assert_eq!(public.size() * 8, 4096);
    let private = openssl::rsa::Rsa::private_key_from_der(&u.private_key).unwrap();
    assert_eq!(private.n(), public.n());
}

#[test]
fn profile_ignores_private_key() {
    let repo = InMemoryUserRepository::new("example.com".to_string());
    let u = repo.get_user("erin").unwrap();
    let other = User { username: u.username.clone(), public_key: u.public_key.clone(), private_key: vec![9] };
    let a = Person::from_user(&u, "https://example.com").unwrap();
    let b = Person::from_user(&other, "https://example.com").unwrap();
    assert_eq!(a.public_key.public_key_pem, b.public_key.public_key_pem);
    assert_eq!(a.id, b.id);
}

#[test]
fn vault_creates_once_and_returns_cached_user() {
    let mut cache = KeyCache::new();
    let a = cache.get_or_create("frank").unwrap();
    let b = cache.get_or_create("frank").unwrap();
    assert_eq!(a.username, "frank");
    assert_eq!(a.public_key, b.public_key);
    assert_eq!(a.private_key, b.private_key);
    let public = openssl::rsa::Rsa::public_key_from_der(&a.public_key).unwrap();
    assert_eq!(public.size() * 8, 4096);
}

#[test]
fn vault_returns_filed_user_without_generating() {
    let mut cache = KeyCache::new();
    cache.get_or_insert(user("gina", 7));
    let g = cache.get_or_create("gina").unwrap();
    assert_eq!(g.public_key, vec![7]);
    assert_eq!(g.private_key, vec![7, 7]);
}
