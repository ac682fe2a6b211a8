//! The executable container.
//!
//! The container owns a write-once registry and two caches and is meant to
//! be driven through exclusive access (`&mut self`): an embedder that
//! shares it across threads wraps it in its own mutual-exclusion
//! primitive, which makes every registry-plus-cache step one atomic unit
//! and so keeps the exactly-one-construction guarantee for `Singleton` and
//! `Scoped` identities.

use crate::model::{
    bump, failed_step, init, is_hit, register_step, resolve_step, resolve_value, scope_step,
    Lifetime, Model, ResolveError,
};
use std::collections::HashMap;
use std::sync::Arc;
use vstd::prelude::*;

verus! {

broadcast use vstd::std_specs::hash::group_hash_axioms;

/// A service constructor, implemented by the embedder.
///
/// One registered entry holds one `Builder` value; an embedder that serves
/// several identities from one container registers one value per identity,
/// typically variants of a small enum. `build` may return `None` to signal
/// that construction failed; the container then commits nothing and reports
/// [`ResolveError::ConstructionFailed`].
pub trait Builder<T> {
    /// Construct one fresh instance, or decline.
    fn build(&self) -> Option<T>;
}

/// A dependency-resolution container for instances of type `T`, each
/// constructed by a value of the builder type `C`.
///
/// Identities are plain `u64` values chosen by the embedder; the same
/// number must be used at registration and at every resolution of the same
/// conceptual service. Because the registry is typed, a resolved handle is
/// always of the registered instance type — there is no downcast that
/// could fail.
pub struct IocApplicationContainer<T, C: Builder<T>> {
    factories: HashMap<u64, (Lifetime, C)>,
    singletons: HashMap<u64, Arc<T>>,
    scoped: HashMap<u64, Arc<T>>,
    builds: Ghost<Map<u64, nat>>,
}

impl<T, C: Builder<T>> View for IocApplicationContainer<T, C> {
    type V = Model<T>;

    closed spec fn view(&self) -> Model<T> {
        Model {
            registry: self.factories@.map_values(|e: (Lifetime, C)| e.0),
            singletons: self.singletons@,
            scoped: self.scoped@,
            builds: self.builds@,
        }
    }
}

/// Relies on `Arc::clone`: the returned handle points to the same
/// allocation as the argument, so it carries the very same value.
#[verifier::external_body]
fn share<T>(handle: &Arc<T>) -> (r: Arc<T>)
    ensures
        r == *handle,
{
    Arc::clone(handle)
}

impl<T, C: Builder<T>> IocApplicationContainer<T, C> {
    /// A fresh container: nothing registered, nothing cached.
    pub fn new() -> (c: Self)
        ensures
            c@ == init::<T>(),
    {
        let c = IocApplicationContainer {
            factories: HashMap::new(),
            singletons: HashMap::new(),
            scoped: HashMap::new(),
            builds: Ghost(Map::empty()),
        };
        proof {
            assert(c@ =~= init::<T>());
        }
        c
    }

    /// Register `factory` as the constructor for `id`, with the given
    /// lifetime. The latest registration for an identity wins.
    ///
    /// Registration is meant for the setup phase, before the first
    /// resolution. Re-registering an identity that has already been
    /// resolved is unsupported: instances cached under the old
    /// registration stay in place and keep being handed out.
    pub fn add(&mut self, id: u64, lifetime: Lifetime, factory: C)
        ensures
            final(self)@ == register_step(old(self)@, id, lifetime),
    {
        self.factories.insert(id, (lifetime, factory));
        proof {
            assert(self@ =~= register_step(old(self)@, id, lifetime));
        }
    }

    /// Resolve `id` to a shared handle on an instance, honouring the
    /// registered lifetime.
    ///
    /// A cache hit hands out the cached instance and does not invoke the
    /// constructor. A miss invokes the registered constructor — which may
    /// run arbitrary embedder code — and, for `Singleton` and `Scoped`,
    /// caches the result before handing it out. An unregistered identity
    /// is reported as `NotRegistered` and leaves the container untouched;
    /// a constructor that declines is reported as `ConstructionFailed`,
    /// commits nothing, and leaves the identity eligible for retry. A
    /// constructor that panics unwinds out of the call before anything is
    /// committed, so the container is left exactly as it was.
    pub fn resolve(&mut self, id: u64) -> (r: Result<Arc<T>, ResolveError>)
        ensures
            r == Err::<Arc<T>, ResolveError>(ResolveError::NotRegistered) <==> !old(
                self,
            )@.registry.contains_key(id),
            is_hit(old(self)@, id) ==> r is Ok,
            r matches Ok(v) ==> v == resolve_value(old(self)@, id, v) && final(self)@
                == resolve_step(old(self)@, id, v),
            r == Err::<Arc<T>, ResolveError>(ResolveError::NotRegistered) ==> final(self)@ == old(
                self,
            )@,
            r == Err::<Arc<T>, ResolveError>(ResolveError::ConstructionFailed) ==> final(self)@
                == failed_step(old(self)@, id),
    {
        let entry = self.factories.get(&id);
        match entry {
            None => Err(ResolveError::NotRegistered),
            Some(e) => {
                let lifetime = e.0;
                match lifetime {
                    Lifetime::Transient => {
                        let built = e.1.build();
                        self.builds = Ghost(bump(self.builds@, id));
                        match built {
                            Some(t) => {
                                let fresh = Arc::new(t);
                                proof {
                                    assert(self@ =~= resolve_step(old(self)@, id, fresh));
                                }
                                Ok(fresh)
                            },
                            None => {
                                proof {
                                    assert(self@ =~= failed_step(old(self)@, id));
                                }
                                Err(ResolveError::ConstructionFailed)
                            },
                        }
                    },
                    Lifetime::Singleton => {
                        let cached = self.singletons.get(&id);
                        match cached {
                            Some(existing) => Ok(share(existing)),
                            None => {
                                let built = e.1.build();
                                match built {
                                    Some(t) => {
                                        let fresh = Arc::new(t);
                                        let handle = share(&fresh);
                                        self.singletons.insert(id, fresh);
                                        self.builds = Ghost(bump(self.builds@, id));
                                        proof {
                                            assert(self@ =~= resolve_step(
                                                old(self)@,
                                                id,
                                                handle,
                                            ));
                                        }
                                        Ok(handle)
                                    },
                                    None => {
                                        self.builds = Ghost(bump(self.builds@, id));
                                        proof {
                                            assert(self@ =~= failed_step(old(self)@, id));
                                        }
                                        Err(ResolveError::ConstructionFailed)
                                    },
                                }
                            },
                        }
                    },
                    Lifetime::Scoped => {
                        let cached = self.scoped.get(&id);
                        match cached {
                            Some(existing) => Ok(share(existing)),
                            None => {
                                let built = e.1.build();
                                match built {
                                    Some(t) => {
                                        let fresh = Arc::new(t);
                                        let handle = share(&fresh);
                                        self.scoped.insert(id, fresh);
                                        self.builds = Ghost(bump(self.builds@, id));
                                        proof {
                                            assert(self@ =~= resolve_step(
                                                old(self)@,
                                                id,
                                                handle,
                                            ));
                                        }
                                        Ok(handle)
                                    },
                                    None => {
                                        self.builds = Ghost(bump(self.builds@, id));
                                        proof {
                                            assert(self@ =~= failed_step(old(self)@, id));
                                        }
                                        Err(ResolveError::ConstructionFailed)
                                    },
                                }
                            },
                        }
                    },
                }
            },
        }
    }

    /// Open a new scope: atomically discard every `Scoped` instance, so
    /// that the next resolution of each `Scoped` identity constructs
    /// afresh. Singletons, the registry and the invocation counts are
    /// untouched.
    pub fn begin_scope(&mut self)
        ensures
            final(self)@ == scope_step(old(self)@),
    {
        self.scoped.clear();
        proof {
            assert(self@ =~= scope_step(old(self)@));
        }
    }
}

} // verus!
