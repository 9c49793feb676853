//! Managed native objects and the registry that routes callbacks to them.
//!
//! Every managed object lives in a pool and is named by a token, its place in
//! the pool. Beside the objects the pool keeps the instance registry: the map
//! from the identity of a live native handle to the token of the object that
//! owns it. The two change together, under the one exclusive borrow of the pool:
//! an object is registered exactly while its handle is live.

use vstd::prelude::*;
use crate::engine::EngineCall;
use crate::enums::OtcError;
use crate::handle::NativeHandle;
use crate::registry::Registry;

verus! {

/// What a pool needs to know of the objects it manages.
pub trait Managed: Sized {
    /// The object's native handle.
    spec fn native(&self) -> NativeHandle;

    /// The identity of the session that the object is attached to; zero if none.
    spec fn attached(&self) -> usize;

    /// The requests that give back the native object with this identity, given
    /// the session it is attached to, in the order in which they must be made.
    spec fn retire_calls(key: usize, attached: usize) -> Seq<EngineCall>;

    /// The object once its handle was given back.
    spec fn retired(self) -> Self;

    /// The object once it was given the native object that the engine created
    /// for it.
    spec fn adopted(self, native: usize) -> Self;

    fn handle(&self) -> (h: &NativeHandle)
        ensures
            *h == self.native(),
    ;

    /// Takes ownership of the native object that the engine created for this
    /// object.
    fn adopt(&mut self, native: usize)
        ensures
            *final(self) == old(self).adopted(native),
            final(self).native().key() == native,
            final(self).native().owned(),
    ;

    /// Gives the native object back. A live object returns its requests and is
    /// null afterwards; any other returns nothing.
    fn retire(&mut self) -> (calls: Vec<EngineCall>)
        ensures
            calls@ == (if old(self).native().live() {
                Self::retire_calls(old(self).native().key(), old(self).attached())
            } else {
                Seq::<EngineCall>::empty()
            }),
            *final(self) == old(self).retired(),
            !final(self).native().live(),
    ;
}

/// One place of a pool: the object, and how many application-side owners share it.
pub struct Slot<T> {
    pub(crate) object: T,
    pub(crate) owners: usize,
}

/// A pool of managed objects of one kind, with its instance registry.
pub struct Instances<T> {
    pub(crate) slots: Vec<Slot<T>>,
    pub(crate) routes: Registry<usize>,
}

impl<T: Managed> Instances<T> {
    /// The number of objects ever added; the tokens are the numbers below it.
    pub closed spec fn count(self) -> nat {
        self.slots@.len()
    }

    /// The object with this token.
    pub closed spec fn object(self, token: int) -> T {
        self.slots@[token].object
    }

    /// The number of application-side owners of the object with this token.
    pub closed spec fn owners(self, token: int) -> usize {
        self.slots@[token].owners
    }

    /// The instance registry: identity of a live handle to token.
    pub closed spec fn routes(self) -> Map<usize, usize> {
        self.routes@
    }

    /// The registered identities, oldest registration first.
    pub closed spec fn order(self) -> Seq<usize> {
        self.routes.keys()
    }

    /// Whether the object with this token has a live handle.
    pub open spec fn live(self, token: int) -> bool {
        0 <= token < self.count() && self.object(token).native().live()
    }

    /// Registry and handles agree: a route leads to the object whose live handle
    /// has that identity, every live handle has its route, and an object that no
    /// one owns has given its handle back.
    pub closed spec fn wf(self) -> bool {
        &&& forall|key: usize| #[trigger]
            self.routes@.contains_key(key) ==> {
                &&& key != 0
                &&& (self.routes@[key] as int) < self.slots@.len()
                &&& self.slots@[self.routes@[key] as int].object.native().key() == key
            }
        &&& forall|token: int|
            0 <= token < self.slots@.len() && (#[trigger] self.slots@[token]).object.native().live()
                ==> {
                &&& self.routes@.contains_key(self.slots@[token].object.native().key())
                &&& self.routes@[self.slots@[token].object.native().key()] == token
                &&& self.slots@[token].owners >= 1
            }
    }

    /// An object is registered in the instance registry if and only if its
    /// native handle is non-null and not yet deleted.
    pub proof fn lemma_registered_iff_live(self, token: int)
        requires
            self.wf(),
            0 <= token < self.count(),
        ensures
            self.live(token) <==> (exists|key: usize| #[trigger]
                self.routes().contains_key(key) && self.routes()[key] == token),
            self.live(token) ==> self.routes().contains_key(self.object(token).native().key())
                && self.routes()[self.object(token).native().key()] == token,
    {
        if self.live(token) {
            let key = self.object(token).native().key();
            assert(self.slots@[token].object.native().live());
            assert(self.routes().contains_key(key) && self.routes()[key] == token);
        }
    }

    /// A route never leads to an object whose handle is null or deleted.
    pub proof fn lemma_route_is_live(self, key: usize)
        requires
            self.wf(),
            self.routes().contains_key(key),
        ensures
            key != 0,
            self.live(self.routes()[key] as int),
            self.object(self.routes()[key] as int).native().key() == key,
    {
    }

    /// The null pointer is never registered.
    pub proof fn lemma_null_is_unrouted(self)
        requires
            self.wf(),
        ensures
            !self.routes().contains_key(0),
    {
    }

    /// Two live objects of a pool never share a handle.
    pub proof fn lemma_live_handles_differ(self, a: int, b: int)
        requires
            self.wf(),
            self.live(a),
            self.live(b),
            a != b,
        ensures
            self.object(a).native().key() != self.object(b).native().key(),
    {
        assert(self.slots@[a].object.native().live());
        assert(self.slots@[b].object.native().live());
    }

    /// What the pool's public view is made of.
    pub(crate) proof fn lemma_unfold(self)
        ensures
            self.count() == self.slots@.len(),
            self.routes() == self.routes@,
            forall|t: int| #![trigger self.object(t)] self.object(t) == self.slots@[t].object,
            forall|t: int| #![trigger self.owners(t)] self.owners(t) == self.slots@[t].owners,
    {
    }

    /// A pool changed in place is still well formed if its registry, its size,
    /// its handles and its owner counts are what they were.
    pub(crate) proof fn lemma_same_handles(self, before: Self)
        requires
            before.wf(),
            self.routes == before.routes,
            self.slots@.len() == before.slots@.len(),
            forall|t: int|
                0 <= t < self.slots@.len() ==> (#[trigger] self.slots@[t]).object.native()
                    == before.slots@[t].object.native() && self.slots@[t].owners
                    == before.slots@[t].owners,
        ensures
            self.wf(),
            self.routes() == before.routes(),
            self.order() == before.order(),
            self.count() == before.count(),
    {
        assert forall|key: usize| #[trigger] self.routes@.contains_key(key) implies {
            &&& key != 0
            &&& (self.routes@[key] as int) < self.slots@.len()
            &&& self.slots@[self.routes@[key] as int].object.native().key() == key
        } by {
            let t = before.routes@[key] as int;
            assert(self.slots@[t].object.native() == before.slots@[t].object.native());
        }
        assert forall|token: int|
            0 <= token < self.slots@.len() && (#[trigger] self.slots@[token]).object.native().live()
                implies {
            &&& self.routes@.contains_key(self.slots@[token].object.native().key())
            &&& self.routes@[self.slots@[token].object.native().key()] == token
            &&& self.slots@[token].owners >= 1
        } by {
            assert(before.slots@[token].object.native().live());
        }
    }

    /// The token of the object that is registered under an identity, if any.
    pub open spec fn routed(self, key: usize) -> Option<int> {
        if self.routes().contains_key(key) {
            Some(self.routes()[key] as int)
        } else {
            None
        }
    }

    /// This pool is the pool before with the identity routed to the object with
    /// this token. No other identity is added or removed. An identity that is
    /// new is last in the order of registration; one that was registered keeps
    /// its place, and the object that was registered under it is retired and
    /// left without owners. Every other object is as it was.
    pub open spec fn registers(self, before: Self, key: usize, token: usize) -> bool {
        &&& self.routes() == before.routes().insert(key, token)
        &&& self.order() == (if before.routes().contains_key(key) {
            before.order()
        } else {
            before.order().push(key)
        })
        &&& forall|t: int|
            0 <= t < before.count() && t != token ==> {
                &&& (#[trigger] self.object(t)) == (if before.routed(key) == Some(t) {
                    before.object(t).retired()
                } else {
                    before.object(t)
                })
                &&& self.owners(t) == (if before.routed(key) == Some(t) {
                    0usize
                } else {
                    before.owners(t)
                })
                &&& before.routed(key) == Some(t) ==> !self.object(t).native().live()
            }
    }

    /// What giving up one owner of the object with this token comes to, from
    /// the pool before to this pool, with the requests to make. While other
    /// owners remain, only the count goes down. When the last one leaves, the
    /// object gives its handle back and leaves the registry in the same step.
    pub open spec fn released(self, before: Self, token: usize, calls: Seq<EngineCall>) -> bool {
        &&& self.wf()
        &&& self.count() == before.count()
        &&& forall|t: int|
            0 <= t < before.count() && t != token ==> self.object(t) == before.object(t)
                && self.owners(t) == before.owners(t)
        &&& !(token < before.count()) || before.owners(token as int) == 0 ==> {
            &&& calls == Seq::<EngineCall>::empty()
            &&& self == before
        }
        &&& token < before.count() && before.owners(token as int) > 1 ==> {
            &&& calls == Seq::<EngineCall>::empty()
            &&& self.routes() == before.routes()
            &&& self.order() == before.order()
            &&& self.object(token as int) == before.object(token as int)
            &&& self.owners(token as int) == before.owners(token as int) - 1
        }
        &&& token < before.count() && before.owners(token as int) == 1 ==> {
            &&& calls == (if before.live(token as int) {
                T::retire_calls(
                    before.object(token as int).native().key(),
                    before.object(token as int).attached(),
                )
            } else {
                Seq::<EngineCall>::empty()
            })
            &&& self.routes() == before.routes().remove(before.object(token as int).native().key())
            &&& self.order() == before.order().filter(
                |k: usize| k != before.object(token as int).native().key(),
            )
            &&& self.object(token as int) == before.object(token as int).retired()
            &&& !self.live(token as int)
            &&& self.owners(token as int) == 0
        }
    }

    /// Whether releasing the object with this token gives its handle back: it
    /// does when the object is live and has one owner left.
    pub open spec fn gives_back(self, token: usize) -> bool {
        self.live(token as int) && self.owners(token as int) == 1
    }

    /// The requests that give back the objects registered under these
    /// identities, one object after the other in this order, each as the release
    /// of its last owner would.
    pub open spec fn retire_all_calls(self, keys: Seq<usize>) -> Seq<EngineCall>
        decreases keys.len(),
    {
        if keys.len() == 0 {
            Seq::<EngineCall>::empty()
        } else {
            self.retire_all_calls(keys.drop_last()) + (if self.routes().contains_key(keys.last()) {
                T::retire_calls(
                    keys.last(),
                    self.object(self.routes()[keys.last()] as int).attached(),
                )
            } else {
                Seq::<EngineCall>::empty()
            })
        }
    }

    /// This pool is the pool before with every live object given back: nothing
    /// is registered, no handle is live, and an object that was live is left
    /// without owners. What had no live handle is as it was.
    pub open spec fn drained(self, before: Self) -> bool {
        &&& self.wf()
        &&& self.count() == before.count()
        &&& self.routes() == Map::<usize, usize>::empty()
        &&& self.order() == Seq::<usize>::empty()
        &&& forall|t: int|
            0 <= t < before.count() ==> {
                &&& !#[trigger] self.live(t)
                &&& self.object(t) == (if before.live(t) {
                    before.object(t).retired()
                } else {
                    before.object(t)
                })
                &&& self.owners(t) == (if before.live(t) {
                    0usize
                } else {
                    before.owners(t)
                })
            }
    }

    /// After every object was given back, no identity is registered and no
    /// object has a live handle: an event that comes for any identity finds
    /// nothing.
    pub proof fn lemma_drained_routes_nothing(self, before: Self, key: usize)
        requires
            self.drained(before),
        ensures
            !self.routes().contains_key(key),
            self.routed(key) is None,
            forall|t: int| 0 <= t < self.count() ==> !#[trigger] self.live(t),
    {
    }

    /// An empty pool.
    pub fn new() -> (pool: Instances<T>)
        ensures
            pool.wf(),
            pool.count() == 0,
            pool.routes() == Map::<usize, usize>::empty(),
            pool.order() == Seq::<usize>::empty(),
    {
        Instances { slots: Vec::new(), routes: Registry::new() }
    }

    /// The number of objects ever added.
    pub fn len(&self) -> (n: usize)
        ensures
            n == self.count(),
    {
        self.slots.len()
    }

    /// The object with this token, if there is one.
    pub fn get(&self, token: usize) -> (found: Option<&T>)
        ensures
            found == (if token < self.count() {
                Some(&self.object(token as int))
            } else {
                None::<&T>
            }),
    {
        if token < self.slots.len() {
            Some(&self.slots[token].object)
        } else {
            None
        }
    }

    /// The number of application-side owners of an object; zero for a token
    /// that names none.
    pub fn owner_count(&self, token: usize) -> (n: usize)
        ensures
            n == (if token < self.count() {
                self.owners(token as int)
            } else {
                0usize
            }),
    {
        if token < self.slots.len() {
            self.slots[token].owners
        } else {
            0
        }
    }

    /// Looks a native identity up in the instance registry.
    pub fn route(&self, key: usize) -> (found: Option<usize>)
        ensures
            found == (if self.routes().contains_key(key) {
                Some(self.routes()[key])
            } else {
                None::<usize>
            }),
    {
        match self.routes.get(key) {
            Some(token) => Some(*token),
            None => None,
        }
    }

    /// Whether a native identity is registered.
    pub fn is_registered(&self, key: usize) -> (b: bool)
        ensures
            b == self.routes().contains_key(key),
    {
        self.routes.contains_key(key)
    }

    /// The object that a callback for this native identity belongs to.
    pub fn lookup(&self, key: usize) -> (found: Option<&T>)
        requires
            self.wf(),
        ensures
            found == (if self.routes().contains_key(key) {
                Some(&self.object(self.routes()[key] as int))
            } else {
                None::<&T>
            }),
            found matches Some(object) ==> object.native().key() == key && object.native().live(),
    {
        match self.routes.get(key) {
            Some(token) => Some(&self.slots[*token].object),
            None => None,
        }
    }

    /// The registered identities, oldest registration first.
    pub fn registered(&self) -> (keys: Vec<usize>)
        ensures
            keys@ == self.order(),
            keys@.no_duplicates(),
            forall|key: usize| self.routes().contains_key(key) <==> keys@.contains(key),
    {
        self.routes.key_list()
    }

    /// Takes the handle of the object registered under an identity out of use,
    /// without a request: the object is retired and left without owners. The
    /// route itself is left for the caller to replace.
    fn supersede(&mut self, key: usize)
        requires
            old(self).wf(),
        ensures
            final(self).routes == old(self).routes,
            final(self).slots@.len() == old(self).slots@.len(),
            forall|t: int|
                0 <= t < old(self).slots@.len() ==> (#[trigger] final(self).slots@[t]) == (if old(
                    self,
                ).routes@.contains_key(key) && old(self).routes@[key] == t {
                    Slot { object: old(self).slots@[t].object.retired(), owners: 0 }
                } else {
                    old(self).slots@[t]
                }),
            old(self).routes@.contains_key(key) ==> !final(self).slots@[old(self).routes@[key] as int].object.native().live(),
    {
        let displaced = match self.routes.get(key) {
            Some(token) => Some(*token),
            None => None,
        };
        match displaced {
            Some(token) => {
                let _ = self.slots[token].object.retire();
                self.slots[token].owners = 0;
            },
            None => {},
        }
    }

    /// Adds an object with one owner and returns its token. An object with a
    /// live handle is registered under the handle's identity in the same step.
    /// The engine hands an address out again only after the native object that
    /// had it is gone: an object that is still registered under the identity is
    /// stale, and is retired without a request as the new one takes its route.
    pub(crate) fn add(&mut self, object: T) -> (token: usize)
        requires
            old(self).wf(),
        ensures
            final(self).wf(),
            token == old(self).count(),
            final(self).count() == old(self).count() + 1,
            final(self).object(token as int) == object,
            final(self).owners(token as int) == 1,
            object.native().live() ==> final(self).registers(
                *old(self),
                object.native().key(),
                token,
            ),
            !object.native().live() ==> {
                &&& final(self).routes() == old(self).routes()
                &&& final(self).order() == old(self).order()
                &&& forall|t: int|
                    0 <= t < old(self).count() ==> final(self).object(t) == old(self).object(t)
                        && final(self).owners(t) == old(self).owners(t)
            },
    {
        let key = object.handle().inner();
        let token = self.slots.len();
        let live = !object.handle().is_null();
        let ghost before = *self;
        if live {
            self.supersede(key);
        }
        self.slots.push(Slot { object, owners: 1 });
        if live {
            self.routes.insert(key, token);
        }
        proof {
            assert(before.slots.len() == before.slots@.len());
            assert forall|k: usize| #[trigger] self.routes@.contains_key(k) implies {
                &&& k != 0
                &&& (self.routes@[k] as int) < self.slots@.len()
                &&& self.slots@[self.routes@[k] as int].object.native().key() == k
            } by {
                if !(live && k == key) {
                    assert(before.routes@.contains_key(k));
                    let t = before.routes@[k] as int;
                    assert(before.slots@[t].object.native().key() == k);
                }
            }
            assert forall|t: int|
                0 <= t < self.slots@.len() && (#[trigger] self.slots@[t]).object.native().live()
                    implies {
                &&& self.routes@.contains_key(self.slots@[t].object.native().key())
                &&& self.routes@[self.slots@[t].object.native().key()] == t
                &&& self.slots@[t].owners >= 1
            } by {
                if t < token {
                    assert(before.slots@[t].object.native().live());
                    assert(self.slots@[t] == before.slots@[t]);
                }
            }
        }
        token
    }

    /// Hands an object that has no live handle the native object that the engine
    /// created for it, and registers it under that identity in the same step; an
    /// object that is still registered under the identity is stale, and is
    /// retired without a request. Fails with `NullError` if there is no such
    /// object or the engine created nothing, and with `AlreadyInitialized` if
    /// the object has a live handle; a failed call changes nothing.
    pub(crate) fn attach(&mut self, token: usize, native: usize) -> (r: Result<(), OtcError>)
        requires
            old(self).wf(),
        ensures
            final(self).wf(),
            final(self).count() == old(self).count(),
            r == attach_outcome(token < old(self).count(), native, old(self).live(token as int)),
            r is Err ==> *final(self) == *old(self),
            r is Ok ==> {
                &&& final(self).registers(*old(self), native, token)
                &&& final(self).object(token as int) == old(self).object(token as int).adopted(
                    native,
                )
                &&& final(self).object(token as int).native().key() == native
                &&& final(self).object(token as int).native().owned()
                &&& final(self).owners(token as int) == (if old(self).owners(token as int) == 0 {
                    1usize
                } else {
                    old(self).owners(token as int)
                })
            },
    {
        if token >= self.slots.len() || native == 0 {
            return Err(OtcError::NullError);
        }
        if !self.slots[token].object.handle().is_null() {
            return Err(OtcError::AlreadyInitialized("handle"));
        }
        let ghost before = *self;
        self.supersede(native);
        self.slots[token].object.adopt(native);
        if self.slots[token].owners == 0 {
            self.slots[token].owners = 1;
        }
        self.routes.insert(native, token);
        proof {
            if before.routes@.contains_key(native) {
                assert(before.slots@[before.routes@[native] as int].object.native().key()
                    == native);
                assert(before.routes@[native] != token);
            }
            assert forall|k: usize| #[trigger] self.routes@.contains_key(k) implies {
                &&& k != 0
                &&& (self.routes@[k] as int) < self.slots@.len()
                &&& self.slots@[self.routes@[k] as int].object.native().key() == k
            } by {
                if k != native {
                    assert(before.routes@.contains_key(k));
                    let t = before.routes@[k] as int;
                    assert(before.slots@[t].object.native().key() == k);
                    assert(t != token);
                }
            }
            assert forall|t: int|
                0 <= t < self.slots@.len() && (#[trigger] self.slots@[t]).object.native().live()
                    implies {
                &&& self.routes@.contains_key(self.slots@[t].object.native().key())
                &&& self.routes@[self.slots@[t].object.native().key()] == t
                &&& self.slots@[t].owners >= 1
            } by {
                if t != token {
                    assert(before.slots@[t].object.native().live());
                    assert(self.slots@[t] == before.slots@[t]);
                }
            }
        }
        Ok(())
    }

    /// Records one more application-side owner of a live object. An object whose
    /// handle is null or deleted cannot be shared: the call fails with `NullError`.
    pub fn share(&mut self, token: usize) -> (r: Result<(), OtcError>)
        requires
            old(self).wf(),
            old(self).live(token as int) ==> old(self).owners(token as int) < usize::MAX,
        ensures
            final(self).wf(),
            final(self).routes() == old(self).routes(),
            final(self).order() == old(self).order(),
            final(self).count() == old(self).count(),
            forall|t: int| 0 <= t < old(self).count() ==> final(self).object(t) == old(self).object(t),
            forall|t: int|
                0 <= t < old(self).count() && t != token ==> final(self).owners(t) == old(
                    self,
                ).owners(t),
            old(self).live(token as int) ==> r is Ok && final(self).owners(token as int) == old(
                self,
            ).owners(token as int) + 1,
            !old(self).live(token as int) ==> r == Err::<(), OtcError>(OtcError::NullError)
                && *final(self) == *old(self),
    {
        if token >= self.slots.len() || self.slots[token].object.handle().is_null() {
            return Err(OtcError::NullError);
        }
        let owners = self.slots[token].owners;
        self.slots[token].owners = owners + 1;
        proof {
            assert forall|t: int|
                0 <= t < self.slots@.len() && (#[trigger] self.slots@[t]).object.native().live()
                    implies {
                &&& self.routes@.contains_key(self.slots@[t].object.native().key())
                &&& self.routes@[self.slots@[t].object.native().key()] == t
                &&& self.slots@[t].owners >= 1
            } by {
                assert(old(self).slots@[t].object.native().live());
            }
        }
        Ok(())
    }

    /// Gives up one application-side owner. While others remain, only the count
    /// goes down. When the last one leaves, the object gives its handle back and
    /// leaves the registry in the same step, and the requests to make are
    /// returned in order; they are made at most once, since the handle is null
    /// from then on.
    pub(crate) fn release(&mut self, token: usize) -> (calls: Vec<EngineCall>)
        requires
            old(self).wf(),
        ensures
            final(self).released(*old(self), token, calls@),
    {
        if token >= self.slots.len() {
            return Vec::new();
        }
        let owners = self.slots[token].owners;
        if owners == 0 {
            return Vec::new();
        }
        if owners > 1 {
            self.slots[token].owners = owners - 1;
            proof {
                assert forall|t: int|
                    0 <= t < self.slots@.len() && (#[trigger] self.slots@[t]).object.native().live()
                        implies {
                    &&& self.routes@.contains_key(self.slots@[t].object.native().key())
                    &&& self.routes@[self.slots@[t].object.native().key()] == t
                    &&& self.slots@[t].owners >= 1
                } by {
                    assert(old(self).slots@[t].object.native().live());
                }
            }
            return Vec::new();
        }
        let key = self.slots[token].object.handle().inner();
        let calls = self.slots[token].object.retire();
        self.slots[token].owners = 0;
        self.routes.remove(key);
        proof {
            let before = *old(self);
            assert(before.slots@[token as int].object.native().key() == key);
            assert forall|k: usize| #[trigger] self.routes@.contains_key(k) implies {
                &&& k != 0
                &&& (self.routes@[k] as int) < self.slots@.len()
                &&& self.slots@[self.routes@[k] as int].object.native().key() == k
            } by {
                assert(before.routes@.contains_key(k));
                let t = before.routes@[k] as int;
                if t == token {
                    assert(before.slots@[t].object.native().key() == k);
                }
            }
            assert forall|t: int|
                0 <= t < self.slots@.len() && (#[trigger] self.slots@[t]).object.native().live()
                    implies {
                &&& self.routes@.contains_key(self.slots@[t].object.native().key())
                &&& self.routes@[self.slots@[t].object.native().key()] == t
                &&& self.slots@[t].owners >= 1
            } by {
                assert(t != token);
                assert(before.slots@[t].object.native().live());
                if before.slots@[t].object.native().key() == key {
                    assert(before.routes@[key] == t);
                    if before.slots@[token as int].object.native().live() {
                        assert(before.routes@[key] == token);
                    } else {
                        assert(key == 0);
                    }
                }
            }
        }
        calls
    }
    /// Gives every registered object back, one after the other in the order of
    /// registration, and empties the registry in the same step.
    pub(crate) fn drain(&mut self) -> (calls: Vec<EngineCall>)
        requires
            old(self).wf(),
        ensures
            final(self).drained(*old(self)),
            calls@ == old(self).retire_all_calls(old(self).order()),
    {
        let keys = self.routes.key_list();
        let mut calls: Vec<EngineCall> = Vec::new();
        let ghost before = *self;
        let mut i: usize = 0;
        while i < keys.len()
            invariant
                i <= keys@.len(),
                before.wf(),
                keys@ == before.routes.keys(),
                keys@.no_duplicates(),
                forall|k: usize| before.routes@.contains_key(k) <==> keys@.contains(k),
                self.routes == before.routes,
                self.slots@.len() == before.slots@.len(),
                calls@ == before.retire_all_calls(keys@.subrange(0, i as int)),
                forall|t: int|
                    0 <= t < before.slots@.len() ==> slot_after(
                        #[trigger] self.slots@[t],
                        before.slots@[t],
                        given_back(before.routes@, keys@, i as int, t),
                    ),
            decreases keys@.len() - i,
        {
            let key = keys[i];
            proof {
                assert(keys@.contains(key));
                assert(before.routes@.contains_key(key));
                assert(keys@.subrange(0, i + 1).drop_last() =~= keys@.subrange(0, i as int));
                assert(keys@.subrange(0, i + 1).last() == key);
            }
            let token = match self.routes.get(key) {
                Some(token) => *token,
                None => 0,
            };
            proof {
                let t = token as int;
                assert(before.slots@[t].object.native().key() == key);
                if given_back(before.routes@, keys@, i as int, t) {
                    let j = choose|j: int| 0 <= j < i && #[trigger] before.routes@[keys@[j]] == t;
                    assert(keys@.contains(keys@[j]));
                    assert(before.slots@[before.routes@[keys@[j]] as int].object.native().key()
                        == keys@[j]);
                    assert(keys@[j] == keys@[i as int]);
                }
                assert(self.slots@[t] == before.slots@[t]);
            }
            let ghost previous = self.slots@;
            let mut given = self.slots[token].object.retire();
            self.slots[token].owners = 0;
            calls.append(&mut given);
            proof {
                assert(given_back(before.routes@, keys@, i + 1, token as int)) by {
                    assert(before.routes@[keys@[i as int]] == token);
                }
                assert forall|t: int| 0 <= t < before.slots@.len() implies slot_after(
                    #[trigger] self.slots@[t],
                    before.slots@[t],
                    given_back(before.routes@, keys@, i + 1, t),
                ) by {
                    if t != token {
                        assert(self.slots@[t] == previous[t]);
                        if given_back(before.routes@, keys@, i as int, t) {
                            let j = choose|j: int|
                                0 <= j < i && #[trigger] before.routes@[keys@[j]] == t;
                            assert(0 <= j < i + 1 && before.routes@[keys@[j]] == t);
                        } else {
                            if given_back(before.routes@, keys@, i + 1, t) {
                                let j = choose|j: int|
                                    0 <= j < i + 1 && #[trigger] before.routes@[keys@[j]] == t;
                                if j < i {
                                    assert(given_back(before.routes@, keys@, i as int, t));
                                }
                            }
                        }
                    }
                }
            }
            i += 1;
        }
        self.routes = Registry::new();
        proof {
            assert(keys@.subrange(0, keys@.len() as int) =~= keys@);
            assert forall|t: int| 0 <= t < before.slots@.len() implies !(
            #[trigger] self.slots@[t]).object.native().live() && (before.slots@[t].object.native().live()
                ==> self.slots@[t].object == before.slots@[t].object.retired() && self.slots@[t].owners
                == 0) && (!before.slots@[t].object.native().live() ==> self.slots@[t]
                == before.slots@[t]) by {
                if before.slots@[t].object.native().live() {
                    let k = before.slots@[t].object.native().key();
                    assert(before.routes@.contains_key(k) && before.routes@[k] == t);
                    assert(keys@.contains(k));
                    let j = choose|j: int| 0 <= j < keys@.len() && keys@[j] == k;
                    assert(before.routes@[keys@[j]] == t);
                    assert(given_back(before.routes@, keys@, keys@.len() as int, t));
                } else {
                    if given_back(before.routes@, keys@, keys@.len() as int, t) {
                    }
                }
            }
        }
        calls
    }
}

/// A slot during a walk that gives objects back: one that was given back held
/// a live object, which is retired and without owners now; any other is as it
/// was.
spec fn slot_after<T: Managed>(now: Slot<T>, was: Slot<T>, given: bool) -> bool {
    if given {
        &&& was.object.native().live()
        &&& now.object == was.object.retired()
        &&& !now.object.native().live()
        &&& now.owners == 0
    } else {
        now == was
    }
}

/// Whether the object with this token was given back in the first `done` steps
/// of a walk along these identities.
spec fn given_back(routes: Map<usize, usize>, keys: Seq<usize>, done: int, token: int) -> bool {
    exists|j: int| 0 <= j < done && #[trigger] routes[keys[j]] == token
}

/// What an attempt to attach a native object to a pooled object comes to.
pub open spec fn attach_outcome(present: bool, native: usize, live: bool) -> Result<(), OtcError> {
    if !present || native == 0 {
        Err(OtcError::NullError)
    } else if live {
        Err(OtcError::AlreadyInitialized("handle"))
    } else {
        Ok(())
    }
}

} // verus!
