use vstd::prelude::*;

use crate::recoverable::Recoverable;

verus! {

/// Whether an identity was seen before.
#[derive(Debug, Clone, Copy, PartialEq, Eq, Structural)]
pub enum CacheResponse {
    Hit,
    Miss,
}

/// The errors of [`HashCache`]; none can occur.
#[derive(Debug, Clone, Copy, PartialEq, Eq, Structural)]
pub enum HashCacheError {
    Unreachable,
}

impl HashCacheError {
    pub fn error_type(&self) -> (r: Recoverable)
        ensures
            r == Recoverable::Persistent,
    {
        Recoverable::Persistent
    }
}

/// An in-memory set of the identities of work already done.
pub struct HashCache {
    cache: Vec<Vec<u8>>,
}

fn bytes_eq(a: &Vec<u8>, b: &Vec<u8>) -> (r: bool)
    ensures
        r == (a@ == b@),
{
    if a.len() != b.len() {
        return false;
    }
    let mut i: usize = 0;
    while i < a.len()
        invariant
            i <= a.len(),
            a.len() == b.len(),
            forall|j: int| 0 <= j < i ==> a@[j] == b@[j],
        decreases a.len() - i,
    {
        if a[i] != b[i] {
            return false;
        }
        i = i + 1;
    }
    assert(a@ =~= b@);
    true
}

impl View for HashCache {
    type V = Set<Seq<u8>>;

    closed spec fn view(&self) -> Set<Seq<u8>> {
        Set::new(|s: Seq<u8>| exists|i: int| 0 <= i < self.cache@.len() && #[trigger] self.cache@[i]@ == s)
    }
}

impl HashCache {
    /// The cache holds each identity once.
    #[verifier::type_invariant]
    pub closed spec fn holds_each_once(self) -> bool {
        forall|i: int, j: int| 0 <= i < j < self.cache@.len() ==> self.cache@[i]@ != self.cache@[j]@
    }

    /// An empty cache.
    pub fn new() -> (r: HashCache)
        ensures
            r@ == Set::<Seq<u8>>::empty(),
    {
        let r = HashCache { cache: Vec::new() };
        assert(r@ =~= Set::<Seq<u8>>::empty());
        r
    }

    fn contains(&self, identity: &Vec<u8>) -> (r: bool)
        ensures
            r == self@.contains(identity@),
    {
        let mut i: usize = 0;
        while i < self.cache.len()
            invariant
                i <= self.cache.len(),
                forall|j: int| 0 <= j < i ==> self.cache@[j]@ != identity@,
            decreases self.cache.len() - i,
        {
            if bytes_eq(&self.cache[i], identity) {
                assert(self.cache@[i as int]@ == identity@);
                return true;
            }
            i = i + 1;
        }
        false
    }

    /// Tells whether `identity` was stored; never fails.
    pub fn get(&mut self, identity: &Vec<u8>) -> (r: Result<CacheResponse, HashCacheError>)
        ensures
            final(self)@ == old(self)@,
            r == Ok::<CacheResponse, HashCacheError>(lookup(old(self)@, identity@)),
            r == Ok::<CacheResponse, HashCacheError>(CacheResponse::Hit) <==> old(self)@.contains(identity@),
    {
        if self.contains(identity) {
            Ok(CacheResponse::Hit)
        } else {
            Ok(CacheResponse::Miss)
        }
    }

    /// Records `identity`; never fails.
    pub fn store(&mut self, identity: Vec<u8>) -> (r: Result<(), HashCacheError>)
        ensures
            final(self)@ == old(self)@.insert(identity@),
            r is Ok,
    {
        proof {
            use_type_invariant(&*self);
        }
        if !self.contains(&identity) {
            let ghost before = self.cache@;
            let mut cache: Vec<Vec<u8>> = Vec::new();
            std::mem::swap(&mut cache, &mut self.cache);
            cache.push(identity);
            assert forall|i: int, j: int| 0 <= i < j < cache@.len() implies cache@[i]@ != cache@[j]@ by {
                if j == before.len() {
                    assert(before[i] == cache@[i]);
                    assert(!old(self)@.contains(identity@));
                } else {
                    assert(before[i] == cache@[i] && before[j] == cache@[j]);
                }
            }
            self.cache = cache;
            assert(self@ =~= old(self)@.insert(identity@)) by {
                assert(self.cache@[before.len() as int] == identity);
                assert forall|s: Seq<u8>| old(self)@.contains(s) implies self@.contains(s) by {
                    let i = choose|i: int| 0 <= i < before.len() && #[trigger] before[i]@ == s;
                    assert(self.cache@[i] == before[i]);
                }
                assert forall|s: Seq<u8>| self@.contains(s) implies old(self)@.insert(identity@).contains(s) by {
                    let i = choose|i: int| 0 <= i < self.cache@.len() && #[trigger] self.cache@[i]@ == s;
                    if i < before.len() {
                        assert(before[i] == self.cache@[i]);
                    }
                }
            }
        } else {
            assert(old(self)@.insert(identity@) =~= old(self)@);
        }
        Ok(())
    }
}

/// What looking `identity` up in a cache holding `stored` answers.
pub open spec fn lookup(stored: Set<Seq<u8>>, identity: Seq<u8>) -> CacheResponse {
    if stored.contains(identity) {
        CacheResponse::Hit
    } else {
        CacheResponse::Miss
    }
}

/// After an identity is stored, looking it up hits; looking up any other
/// identity answers as before.
pub proof fn lemma_store_then_get(stored: Set<Seq<u8>>, identity: Seq<u8>, other: Seq<u8>)
    ensures
        lookup(stored.insert(identity), identity) == CacheResponse::Hit,
        other != identity ==> lookup(stored.insert(identity), other) == lookup(stored, other),
{
}

/// Storing an identity twice is storing it once.
pub proof fn lemma_store_twice(stored: Set<Seq<u8>>, identity: Seq<u8>)
    ensures
        stored.insert(identity).insert(identity) == stored.insert(identity),
{
    assert(stored.insert(identity).insert(identity) =~= stored.insert(identity));
}

/// A cache answers `Hit` for exactly the identities stored in it, and
/// `Miss` for every other; an empty cache misses every identity.
pub proof fn lemma_lookup_hits_exactly_stored(stored: Set<Seq<u8>>, identity: Seq<u8>)
    ensures
        lookup(stored, identity) == CacheResponse::Hit <==> stored.contains(identity),
        lookup(stored, identity) == CacheResponse::Miss <==> !stored.contains(identity),
        lookup(Set::<Seq<u8>>::empty(), identity) == CacheResponse::Miss,
{
}

} // verus!
