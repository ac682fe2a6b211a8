//! Container-wide laws, proved over the model's step functions.
//!
//! [`resolve`](crate::container::IocApplicationContainer::resolve) pins its
//! whole effect to [`resolve_step`] / [`resolve_value`], and
//! [`begin_scope`](crate::container::IocApplicationContainer::begin_scope)
//! to [`scope_step`], so each law below is a statement about every possible
//! sequence of those calls.

use crate::model::{
    build_count, failed_step, is_hit, resolve_step, resolve_value, scope_step, Lifetime, Model,
};
use std::sync::Arc;
use vstd::prelude::*;

verus! {

/// Law: once a `Singleton` identity has been resolved successfully, every
/// later resolution is a cache hit — it returns the very instance the first
/// resolution handed out, changes nothing, and never invokes the
/// constructor again. Across the two resolutions the constructor ran at
/// most once, and exactly once when the identity was still unbuilt.
pub proof fn singleton_builds_once<T>(m: Model<T>, id: u64, v1: Arc<T>, v2: Arc<T>)
    requires
        m.registry.contains_key(id),
        m.registry[id] == Lifetime::Singleton,
    ensures
        ({
            let m1 = resolve_step(m, id, v1);
            let r1 = resolve_value(m, id, v1);
            &&& is_hit(m1, id)
            &&& m1.singletons[id] == r1
            &&& resolve_value(m1, id, v2) == r1
            &&& resolve_step(m1, id, v2) == m1
            &&& build_count(m1.builds, id) <= build_count(m.builds, id) + 1
            &&& !m.singletons.contains_key(id) ==> build_count(m1.builds, id) == build_count(
                m.builds,
                id,
            ) + 1
        }),
{
    let m1 = resolve_step(m, id, v1);
    assert(resolve_step(m1, id, v2) =~= m1);
}

/// Law: a `Transient` resolution always invokes the constructor and hands
/// its product straight to the caller; neither cache is touched.
pub proof fn transient_resolution_is_fresh<T>(m: Model<T>, id: u64, v: Arc<T>)
    requires
        m.registry.contains_key(id),
        m.registry[id] == Lifetime::Transient,
    ensures
        resolve_value(m, id, v) == v,
        resolve_step(m, id, v).singletons == m.singletons,
        resolve_step(m, id, v).scoped == m.scoped,
        resolve_step(m, id, v).registry == m.registry,
        build_count(resolve_step(m, id, v).builds, id) == build_count(m.builds, id) + 1,
{
}

/// The model after a run of successful `Transient` resolutions of `id`,
/// one per element of `built`.
pub open spec fn transient_run<T>(m: Model<T>, id: u64, built: Seq<Arc<T>>) -> Model<T>
    decreases built.len(),
{
    if built.len() == 0 {
        m
    } else {
        transient_run(resolve_step(m, id, built[0]), id, built.drop_first())
    }
}

/// Law: a run of `n` successful `Transient` resolutions invokes the
/// constructor exactly `n` times and leaves the registry and both caches
/// exactly as they were.
pub proof fn transient_builds_every_time<T>(m: Model<T>, id: u64, built: Seq<Arc<T>>)
    requires
        m.registry.contains_key(id),
        m.registry[id] == Lifetime::Transient,
    ensures
        ({
            let mn = transient_run(m, id, built);
            &&& build_count(mn.builds, id) == build_count(m.builds, id) + built.len()
            &&& mn.singletons == m.singletons
            &&& mn.scoped == m.scoped
            &&& mn.registry == m.registry
        }),
    decreases built.len(),
{
    if built.len() > 0 {
        transient_resolution_is_fresh(m, id, built[0]);
        transient_builds_every_time(resolve_step(m, id, built[0]), id, built.drop_first());
    }
}

/// Law: within one scope epoch, a `Scoped` identity behaves like a
/// singleton — after the first successful resolution, every later one
/// returns the very same instance, changes nothing, and does not invoke
/// the constructor.
pub proof fn scoped_same_within_epoch<T>(m: Model<T>, id: u64, v1: Arc<T>, v2: Arc<T>)
    requires
        m.registry.contains_key(id),
        m.registry[id] == Lifetime::Scoped,
    ensures
        ({
            let m1 = resolve_step(m, id, v1);
            let r1 = resolve_value(m, id, v1);
            &&& is_hit(m1, id)
            &&& m1.scoped[id] == r1
            &&& resolve_value(m1, id, v2) == r1
            &&& resolve_step(m1, id, v2) == m1
            &&& build_count(m1.builds, id) <= build_count(m.builds, id) + 1
        }),
{
    let m1 = resolve_step(m, id, v1);
    assert(resolve_step(m1, id, v2) =~= m1);
}

/// Law: after a scope boundary, the next resolution of a `Scoped` identity
/// is a miss: the constructor is invoked once more and the instance handed
/// out is its fresh product, not anything cached in an earlier epoch.
pub proof fn scope_boundary_forces_rebuild<T>(m: Model<T>, id: u64, v: Arc<T>)
    requires
        m.registry.contains_key(id),
        m.registry[id] == Lifetime::Scoped,
    ensures
        ({
            let m1 = scope_step(m);
            &&& !is_hit(m1, id)
            &&& resolve_value(m1, id, v) == v
            &&& resolve_step(m1, id, v).scoped[id] == v
            &&& build_count(resolve_step(m1, id, v).builds, id) == build_count(m.builds, id) + 1
        }),
{
}

/// Law: a resolution of one identity leaves every other identity exactly
/// as it was — same registration, same cached instance (or none), same
/// invocation count — whether the resolution hit a cache, constructed, or
/// failed. In particular, a resolution that fails for one identity cannot
/// disturb what any other identity resolves to.
pub proof fn resolution_leaves_other_identities_alone<T>(
    m: Model<T>,
    id: u64,
    v: Arc<T>,
    other: u64,
)
    requires
        other != id,
    ensures
        ({
            let m1 = resolve_step(m, id, v);
            let mf = failed_step(m, id);
            &&& m1.registry == m.registry
            &&& m1.singletons.contains_key(other) == m.singletons.contains_key(other)
            &&& m1.singletons.contains_key(other) ==> m1.singletons[other] == m.singletons[other]
            &&& m1.scoped.contains_key(other) == m.scoped.contains_key(other)
            &&& m1.scoped.contains_key(other) ==> m1.scoped[other] == m.scoped[other]
            &&& build_count(m1.builds, other) == build_count(m.builds, other)
            &&& mf.registry == m.registry
            &&& mf.singletons == m.singletons
            &&& mf.scoped == m.scoped
            &&& build_count(mf.builds, other) == build_count(m.builds, other)
        }),
{
}

/// Law: a scope boundary clears only the scoped cache. A `Singleton`
/// identity resolved before the boundary is still a cache hit after it and
/// still resolves to the very same instance, with no further construction.
pub proof fn begin_scope_preserves_singletons<T>(m: Model<T>, id: u64, v: Arc<T>)
    requires
        m.registry.contains_key(id),
        m.registry[id] == Lifetime::Singleton,
        m.singletons.contains_key(id),
    ensures
        ({
            let m1 = scope_step(m);
            &&& m1.singletons == m.singletons
            &&& m1.registry == m.registry
            &&& m1.builds == m.builds
            &&& m1.scoped == Map::<u64, Arc<T>>::empty()
            &&& is_hit(m1, id)
            &&& resolve_value(m1, id, v) == m.singletons[id]
            &&& resolve_value(m, id, v) == m.singletons[id]
            &&& resolve_step(m1, id, v) == m1
        }),
{
}

} // verus!
