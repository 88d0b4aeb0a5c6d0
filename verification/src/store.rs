//! Session storage: two independent keyed maps, one for user registrations
//! and one for pending authentications.
//!
//! Each store is a keyed collection with upsert semantics: an insert
//! overwrites any earlier value under the same key, a lookup returns the
//! most recently inserted value or nothing. The contract of every operation
//! is stated over [`Store::contents`], a mathematical map from key views to
//! stored values.

use vstd::prelude::*;

verus! {

/// The commitments a user registers: `y1 = g^x mod p`, `y2 = h^x mod p`.
#[derive(Clone, Copy, Debug, PartialEq, Eq, Structural)]
pub struct RegistrationSecret {
    pub y1: u64,
    pub y2: u64,
}

/// One pending authentication: the prover's session commitments `r1`, `r2`,
/// the challenge `c` issued for them, and the identity of the user being
/// authenticated.
#[derive(Debug)]
pub struct Authentication {
    pub r1: u64,
    pub r2: u64,
    pub c: u64,
    pub user: String,
}

impl Clone for Authentication {
    fn clone(&self) -> (res: Self)
        ensures
            res == *self,
    {
        Authentication {
            r1: self.r1,
            r2: self.r2,
            c: self.c,
            user: self.user.clone(),
        }
    }
}

impl PartialEq for Authentication {
    fn eq(&self, other: &Self) -> (r: bool) {
        self.r1 == other.r1 && self.r2 == other.r2 && self.c == other.c
            && self.user == other.user
    }
}

impl vstd::std_specs::cmp::PartialEqSpecImpl for Authentication {
    open spec fn obeys_eq_spec() -> bool {
        true
    }

    open spec fn eq_spec(&self, other: &Self) -> bool {
        self.r1 == other.r1 && self.r2 == other.r2 && self.c == other.c
            && self.user@ == other.user@
    }
}

/// The map an association list stands for: later entries overwrite earlier
/// ones under the same key.
pub open spec fn assoc_contents<T>(s: Seq<(String, T)>) -> Map<Seq<char>, T>
    decreases s.len(),
{
    if s.len() == 0 {
        Map::empty()
    } else {
        assoc_contents(s.drop_last()).insert(s.last().0@, s.last().1)
    }
}

/// If position `i` holds `key` and no later position does, the contents map
/// sends `key` to the value at `i`.
proof fn lemma_assoc_last_match<T>(s: Seq<(String, T)>, i: int, key: Seq<char>)
    requires
        0 <= i < s.len(),
        s[i].0@ == key,
        forall|j: int| i < j < s.len() ==> (#[trigger] s[j]).0@ != key,
    ensures
        assoc_contents(s).contains_key(key),
        assoc_contents(s)[key] == s[i].1,
    decreases s.len(),
{
    if i == s.len() - 1 {
    } else {
        lemma_assoc_last_match(s.drop_last(), i, key);
    }
}

/// If no position holds `key`, the contents map has no entry for it.
proof fn lemma_assoc_no_match<T>(s: Seq<(String, T)>, key: Seq<char>)
    requires
        forall|j: int| 0 <= j < s.len() ==> (#[trigger] s[j]).0@ != key,
    ensures
        !assoc_contents(s).contains_key(key),
    decreases s.len(),
{
    if s.len() > 0 {
        lemma_assoc_no_match(s.drop_last(), key);
    }
}

/// Round trip: after an insert of `value` under `key`, a lookup of the same
/// key in the new contents yields exactly `value`. Together with the
/// contracts of [`Store::insert`] and [`Store::get`], this says a
/// registration stored under a user identity is returned unchanged by an
/// immediately following lookup of that identity.
pub proof fn lemma_store_round_trip<T>(contents: Map<Seq<char>, T>, key: Seq<char>, value: T)
    ensures
        contents.insert(key, value).contains_key(key),
        contents.insert(key, value)[key] == value,
{
}

/// A keyed store with upsert inserts and clone-out lookups. `contents` is
/// the map the store currently holds; every operation's contract is stated
/// over it.
pub trait Store<T>: Sized {
    /// The map from key views to stored values.
    spec fn contents(&self) -> Map<Seq<char>, T>;

    /// An empty store.
    fn new() -> (s: Self)
        ensures
            s.contents() == Map::<Seq<char>, T>::empty(),
    ;

    /// Store `value` under `key`, overwriting any earlier value.
    fn insert(&mut self, key: String, value: T)
        ensures
            final(self).contents() == old(self).contents().insert(key@, value),
    ;

    /// Look up the value stored under `key`, or `None` when there is none.
    fn get(&self, key: String) -> (r: Option<T>)
        ensures
            match r {
                Some(v) => self.contents().contains_key(key@) && v == self.contents()[key@],
                None => !self.contents().contains_key(key@),
            },
    ;
}

/// Registrations, keyed by user identity.
#[derive(Debug)]
pub struct RegistrationStore {
    registrations: Vec<(String, RegistrationSecret)>,
}

/// Pending authentications, keyed by session identifier.
#[derive(Debug)]
pub struct AuthenticationStore {
    authentications: Vec<(String, Authentication)>,
}

impl Store<RegistrationSecret> for RegistrationStore {
    closed spec fn contents(&self) -> Map<Seq<char>, RegistrationSecret> {
        assoc_contents(self.registrations@)
    }

    fn new() -> (s: Self) {
        RegistrationStore { registrations: Vec::new() }
    }

    fn insert(&mut self, key: String, value: RegistrationSecret) {
        self.registrations.push((key, value));
        proof {
            assert(self.registrations@.drop_last() =~= old(self).registrations@);
        }
    }

    fn get(&self, key: String) -> (r: Option<RegistrationSecret>) {
        let n = self.registrations.len();
        let mut i = n;
        while i > 0
            invariant
                i <= n,
                n == self.registrations.len(),
                forall|j: int| i <= j < n ==> (#[trigger] self.registrations@[j]).0@ != key@,
            decreases i,
        {
            i = i - 1;
            if self.registrations[i].0 == key {
                proof {
                    lemma_assoc_last_match(self.registrations@, i as int, key@);
                }
                return Some(self.registrations[i].1);
            }
        }
        proof {
            lemma_assoc_no_match(self.registrations@, key@);
        }
        None
    }
}

impl Store<Authentication> for AuthenticationStore {
    closed spec fn contents(&self) -> Map<Seq<char>, Authentication> {
        assoc_contents(self.authentications@)
    }

    fn new() -> (s: Self) {
        AuthenticationStore { authentications: Vec::new() }
    }

    fn insert(&mut self, key: String, value: Authentication) {
        self.authentications.push((key, value));
        proof {
            assert(self.authentications@.drop_last() =~= old(self).authentications@);
        }
    }

    fn get(&self, key: String) -> (r: Option<Authentication>) {
        let n = self.authentications.len();
        let mut i = n;
        while i > 0
            invariant
                i <= n,
                n == self.authentications.len(),
                forall|j: int| i <= j < n ==> (#[trigger] self.authentications@[j]).0@ != key@,
            decreases i,
        {
            i = i - 1;
            if self.authentications[i].0 == key {
                proof {
                    lemma_assoc_last_match(self.authentications@, i as int, key@);
                }
                return Some(self.authentications[i].1.clone());
            }
        }
        proof {
            lemma_assoc_no_match(self.authentications@, key@);
        }
        None
    }
}

} // verus!
