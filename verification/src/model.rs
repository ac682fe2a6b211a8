//! Mathematical model of the container.
//!
//! Every contract of the executable container is stated over a [`Model`]:
//! the registered lifetime per identity, the two caches, and how often each
//! identity's constructor has been invoked. The step functions below say
//! exactly how each container operation moves one model to the next.

use std::sync::Arc;
use vstd::prelude::*;

verus! {

/// How long a constructed service instance lives.
#[derive(Clone, Copy, Debug)]
pub enum Lifetime {
    /// Constructed at most once for the container's whole life and shared
    /// by every resolution thereafter.
    Singleton,
    /// Constructed at most once per scope epoch; the instance is dropped at
    /// the next scope boundary.
    Scoped,
    /// Constructed anew on every resolution; nothing is cached.
    Transient,
}

/// Why a resolution did not produce an instance.
#[derive(Clone, Copy, Debug, PartialEq, Eq, Structural)]
pub enum ResolveError {
    /// No registration exists for the requested identity.
    NotRegistered,
    /// The registered constructor was invoked and declined to produce an
    /// instance. Nothing was cached; the identity stays eligible for a
    /// fresh attempt.
    ConstructionFailed,
}

/// The abstract state of a container holding instances of type `T`.
#[verifier::ext_equal]
pub struct Model<T> {
    /// The lifetime registered for each known identity.
    pub registry: Map<u64, Lifetime>,
    /// Instances that live as long as the container.
    pub singletons: Map<u64, Arc<T>>,
    /// Instances that live until the next scope boundary.
    pub scoped: Map<u64, Arc<T>>,
    /// How often the constructor registered for each identity has run.
    pub builds: Map<u64, nat>,
}

/// The state of a freshly created container: nothing registered, nothing
/// cached, no constructor ever invoked.
pub open spec fn init<T>() -> Model<T> {
    Model {
        registry: Map::empty(),
        singletons: Map::empty(),
        scoped: Map::empty(),
        builds: Map::empty(),
    }
}

/// How often the constructor for `id` has run, counting never-invoked
/// identities as zero.
pub open spec fn build_count(builds: Map<u64, nat>, id: u64) -> nat {
    if builds.contains_key(id) {
        builds[id]
    } else {
        0
    }
}

/// One more constructor invocation for `id`.
pub open spec fn bump(builds: Map<u64, nat>, id: u64) -> Map<u64, nat> {
    builds.insert(id, build_count(builds, id) + 1)
}

/// The state after registering `id` with the given lifetime: latest
/// registration wins, caches and invocation counts are untouched.
pub open spec fn register_step<T>(m: Model<T>, id: u64, lifetime: Lifetime) -> Model<T> {
    Model {
        registry: m.registry.insert(id, lifetime),
        singletons: m.singletons,
        scoped: m.scoped,
        builds: m.builds,
    }
}

/// Whether resolving `id` would be served from a cache, without invoking
/// the registered constructor.
pub open spec fn is_hit<T>(m: Model<T>, id: u64) -> bool {
    m.registry.contains_key(id) && match m.registry[id] {
        Lifetime::Singleton => m.singletons.contains_key(id),
        Lifetime::Scoped => m.scoped.contains_key(id),
        Lifetime::Transient => false,
    }
}

/// The instance a successful resolution of `id` hands out, given that the
/// constructor — if it was invoked at all — produced `built`. On a cache
/// hit the cached instance is returned and `built` plays no part.
pub open spec fn resolve_value<T>(m: Model<T>, id: u64, built: Arc<T>) -> Arc<T> {
    if is_hit(m, id) {
        match m.registry[id] {
            Lifetime::Singleton => m.singletons[id],
            Lifetime::Scoped => m.scoped[id],
            Lifetime::Transient => built,
        }
    } else {
        built
    }
}

/// The state after a successful resolution of `id` whose constructor — if
/// it was invoked at all — produced `built`. A cache hit changes nothing;
/// a miss runs the constructor once and caches the result as the lifetime
/// demands.
pub open spec fn resolve_step<T>(m: Model<T>, id: u64, built: Arc<T>) -> Model<T> {
    if is_hit(m, id) {
        m
    } else {
        match m.registry[id] {
            Lifetime::Singleton => Model {
                registry: m.registry,
                singletons: m.singletons.insert(id, built),
                scoped: m.scoped,
                builds: bump(m.builds, id),
            },
            Lifetime::Scoped => Model {
                registry: m.registry,
                singletons: m.singletons,
                scoped: m.scoped.insert(id, built),
                builds: bump(m.builds, id),
            },
            Lifetime::Transient => Model {
                registry: m.registry,
                singletons: m.singletons,
                scoped: m.scoped,
                builds: bump(m.builds, id),
            },
        }
    }
}

/// The state after a resolution of `id` whose constructor ran and failed:
/// the invocation is counted, but no cache entry is committed, so the
/// identity stays eligible for a fresh attempt.
pub open spec fn failed_step<T>(m: Model<T>, id: u64) -> Model<T> {
    Model {
        registry: m.registry,
        singletons: m.singletons,
        scoped: m.scoped,
        builds: bump(m.builds, id),
    }
}

/// The state after a scope boundary: the scoped cache is discarded whole;
/// the registry, the singleton cache and the invocation counts survive.
pub open spec fn scope_step<T>(m: Model<T>) -> Model<T> {
    Model {
        registry: m.registry,
        singletons: m.singletons,
        scoped: Map::empty(),
        builds: m.builds,
    }
}

} // verus!
