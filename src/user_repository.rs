//! Users and their key material: a cache that mints one RSA key pair per
//! username on first access and hands out that same pair ever after.
use vstd::prelude::*;
use vstd::rwlock::{RwLock, RwLockPredicate};
use crate::crypto::{generate_rsa_der, rsa_modulus_bits_of, rsa_private_key_consistent, rsa_public_der_of};
use crate::error::FederationError;

verus! {

/// Modulus size of the key pairs minted for new users.
pub const KEY_BITS: u32 = 4096;

/// A local account and its key pair, both halves DER-encoded: the public key
/// as SubjectPublicKeyInfo, the private key as PKCS#1.
#[derive(Debug)]
pub struct User {
    pub username: String,
    pub public_key: Vec<u8>,
    pub private_key: Vec<u8>,
}

/// What a `User` holds, as mathematical values.
pub ghost struct UserView {
    pub username: Seq<char>,
    pub public_key: Seq<u8>,
    pub private_key: Seq<u8>,
}

impl View for User {
    type V = UserView;

    open spec fn view(&self) -> UserView {
        UserView {
            username: self.username@,
            public_key: self.public_key@,
            private_key: self.private_key@,
        }
    }
}

impl Clone for User {
    fn clone(&self) -> (r: Self)
        ensures
            r@ == self@,
    {
        User {
            username: self.username.clone(),
            public_key: self.public_key.clone(),
            private_key: self.private_key.clone(),
        }
    }
}

/// The cache after `get_or_insert` of `candidate`, and the user handed back:
/// a username already present keeps its entry, which is returned; otherwise
/// the candidate is stored and returned.
pub open spec fn get_or_insert_result(
    before: Map<Seq<char>, UserView>,
    candidate: UserView,
) -> (Map<Seq<char>, UserView>, UserView) {
    if before.contains_key(candidate.username) {
        (before, before[candidate.username])
    } else {
        (before.insert(candidate.username, candidate), candidate)
    }
}

/// Of the cache model: two `get_or_insert` steps for one username, one after
/// the other, hand back the same user, with byte-identical key material,
/// whatever candidates the two steps bring.
pub proof fn lemma_same_user_on_repeat(
    cache: Map<Seq<char>, UserView>,
    first: UserView,
    second: UserView,
)
    requires
        first.username == second.username,
    ensures
        ({
            let (after, r1) = get_or_insert_result(cache, first);
            let (_, r2) = get_or_insert_result(after, second);
            r1 == r2
        }),
{
}

/// Of the cache model: once a username is filed, its user never changes. A
/// later `get_or_insert` step, for that name or any other, keeps the entry, and
/// one for that name hands it back in place of its own candidate.
pub proof fn lemma_first_pair_wins(
    cache: Map<Seq<char>, UserView>,
    name: Seq<char>,
    candidate: UserView,
)
    requires
        cache.contains_key(name),
    ensures
        get_or_insert_result(cache, candidate).0.contains_key(name),
        get_or_insert_result(cache, candidate).0[name] == cache[name],
        candidate.username == name ==> get_or_insert_result(cache, candidate).1 == cache[name],
{
}

/// Usernames mapped to their users; each entry is filed under its own username.
pub struct KeyCache {
    entries: Vec<User>,
    model: Ghost<Map<Seq<char>, UserView>>,
}

impl View for KeyCache {
    type V = Map<Seq<char>, UserView>;

    closed spec fn view(&self) -> Map<Seq<char>, UserView> {
        self.model@
    }
}

impl KeyCache {
    pub closed spec fn wf(&self) -> bool {
        &&& forall|i: int|
            0 <= i < self.entries.len() ==> #[trigger] self.model@.contains_key(
                self.entries[i].username@,
            ) && self.model@[self.entries[i].username@] == self.entries[i]@
        &&& forall|k: Seq<char>| #[trigger]
            self.model@.contains_key(k) ==> exists|i: int|
                0 <= i < self.entries.len() && #[trigger] self.entries[i].username@ == k
        &&& forall|k: Seq<char>| #[trigger]
            self.model@.contains_key(k) ==> self.model@[k].username == k
    }

    /// Every user in a well-formed cache is filed under its own username.
    pub proof fn lemma_filed_by_username(&self, name: Seq<char>)
        requires
            self.wf(),
            self@.contains_key(name),
        ensures
            self@[name].username == name,
    {
    }

    pub fn new() -> (r: KeyCache)
        ensures
            r.wf(),
            r@ == Map::<Seq<char>, UserView>::empty(),
    {
        KeyCache { entries: Vec::new(), model: Ghost(Map::empty()) }
    }

    /// The user filed under `username`, if any.
    pub fn lookup(&self, username: &str) -> (r: Option<User>)
        requires
            self.wf(),
        ensures
            match r {
                Some(u) => self@.contains_key(username@) && u@ == self@[username@],
                None => !self@.contains_key(username@),
            },
    {
        let key = username.to_owned();
        let mut i: usize = 0;
        while i < self.entries.len()
            invariant
                self.wf(),
                key@ == username@,
                i <= self.entries.len(),
                forall|j: int| 0 <= j < i ==> self.entries[j].username@ != username@,
            decreases self.entries.len() - i,
        {
            if self.entries[i].username == key {
                assert(self.model@.contains_key(self.entries[i as int].username@));
                return Some(self.entries[i].clone());
            }
            i = i + 1;
        }
        None
    }

    /// Files `candidate` under its username unless a user is filed there
    /// already; returns the user that is filed there afterwards.
    pub fn get_or_insert(&mut self, candidate: User) -> (r: User)
        requires
            old(self).wf(),
        ensures
            final(self).wf(),
            (final(self)@, r@) == get_or_insert_result(old(self)@, candidate@),
    {
        match self.lookup(candidate.username.as_str()) {
            Some(existing) => existing,
            None => {
                let ghost before = self.model@;
                let r = candidate.clone();
                self.model = Ghost(before.insert(candidate@.username, candidate@));
                self.entries.push(candidate);
                assert forall|k: Seq<char>| #[trigger]
                    self.model@.contains_key(k) implies exists|i: int|
                        0 <= i < self.entries.len() && #[trigger] self.entries[i].username@ == k by {
                    if k == candidate@.username {
                        assert(self.entries[self.entries.len() - 1].username@ == k);
                    } else {
                        let i = choose|i: int|
                            0 <= i < old(self).entries.len() && #[trigger] old(self).entries[i].username@ == k;
                        assert(self.entries[i].username@ == k);
                    }
                }
                r
            },
        }
    }

    /// The user called `username`: the one filed under that name, or else a
    /// new user with a freshly minted key pair, which is filed. When no key
    /// pair can be generated the result is `KeyGenerationFailed` and the cache
    /// is unchanged.
    pub fn get_or_create(&mut self, username: &str) -> (r: Result<User, FederationError>)
        requires
            old(self).wf(),
        ensures
            final(self).wf(),
            old(self)@.contains_key(username@) ==> (r matches Ok(u) && u@ == old(self)@[username@]
                && final(self)@ == old(self)@),
            !old(self)@.contains_key(username@) ==> match r {
                Ok(u) => {
                    &&& u.username@ == username@
                    &&& minted(u@)
                    &&& final(self)@ == old(self)@.insert(username@, u@)
                },
                Err(e) => e == FederationError::KeyGenerationFailed && final(self)@ == old(self)@,
            },
    {
        if let Some(user) = self.lookup(username) {
            return Ok(user);
        }
        let (public_key, private_key) = match generate_rsa_der(KEY_BITS) {
            Ok(pair) => pair,
            Err(_) => {
                return Err(FederationError::KeyGenerationFailed);
            },
        };
        let candidate = User { username: username.to_owned(), public_key, private_key };
        Ok(self.get_or_insert(candidate))
    }
}

/// The user holds a key pair minted by this library: a consistent RSA private
/// key, whose public half is the public key, with a modulus of `KEY_BITS` bits.
pub open spec fn minted(u: UserView) -> bool {
    &&& rsa_modulus_bits_of(u.public_key) == KEY_BITS as nat
    &&& rsa_public_der_of(u.private_key) == Some(u.public_key)
    &&& rsa_private_key_consistent(u.private_key)
}

/// Looks users up by name.
pub trait UserRepository {
    /// The user called `username`.
    fn get_user(&self, username: &str) -> (r: Result<User, FederationError>)
        ensures
            r matches Ok(u) ==> u.username@ == username@,
    ;
}

/// The invariant that the cache lock keeps: the cache is well formed, and
/// each user in it holds a key pair minted by this library.
pub struct CacheIsWellFormed {}

impl RwLockPredicate<KeyCache> for CacheIsWellFormed {
    open spec fn inv(self, v: KeyCache) -> bool {
        &&& v.wf()
        &&& forall|k: Seq<char>| #[trigger] v@.contains_key(k) ==> minted(v@[k])
    }
}

/// A user repository held in memory: users are created on first lookup, with
/// a fresh key pair, and kept for the life of the process.
pub struct InMemoryUserRepository {
    pub domain: String,
    cache: RwLock<KeyCache, CacheIsWellFormed>,
}

impl InMemoryUserRepository {
    /// The domain the repository serves.
    pub closed spec fn served_domain(&self) -> Seq<char> {
        self.domain@
    }

    pub fn new(domain: String) -> (r: Self)
        ensures
            r.served_domain() == domain@,
    {
        let cache = KeyCache::new();
        assert forall|k: Seq<char>| #[trigger] cache@.contains_key(k) implies minted(cache@[k]) by {
        }
        InMemoryUserRepository {
            domain,
            cache: RwLock::new(cache, Ghost(CacheIsWellFormed {})),
        }
    }

    /// The domain the repository serves.
    pub fn domain(&self) -> (r: &str)
        ensures
            r@ == self.served_domain(),
    {
        self.domain.as_str()
    }
}

impl UserRepository for InMemoryUserRepository {
    /// Hands out the cached user when there is one. Otherwise a key pair is
    /// generated with no lock held, and the cache's `get_or_insert` decides
    /// under the write lock: when another caller filed `username` meanwhile,
    /// that user is returned and the new pair dropped. What the contract
    /// carries is the lock's invariant: every user handed out holds a minted
    /// key pair.
    fn get_user(&self, username: &str) -> (r: Result<User, FederationError>)
        ensures
            r matches Ok(u) ==> minted(u@),
            r matches Err(e) ==> e == FederationError::KeyGenerationFailed,
    {
        let read = self.cache.acquire_read();
        let found = read.borrow().lookup(username);
        read.release_read();
        if let Some(user) = found {
            return Ok(user);
        }
        let (public_key, private_key) = match generate_rsa_der(KEY_BITS) {
            Ok(pair) => pair,
            Err(_) => {
                return Err(FederationError::KeyGenerationFailed);
            },
        };
        let candidate = User { username: username.to_owned(), public_key, private_key };
        let (mut cache, write) = self.cache.acquire_write();
        let ghost before = cache@;
        let user = cache.get_or_insert(candidate);
        proof {
            cache.lemma_filed_by_username(username@);
            assert forall|k: Seq<char>| #[trigger] cache@.contains_key(k) implies minted(cache@[k]) by {
                if before.contains_key(k) {
                }
            }
        }
        write.release_write(cache);
        Ok(user)
    }
}

} // verus!
