//! A dependency-resolution container.
//!
//! A process keeps one registry that says how each service is constructed
//! and how long a constructed instance lives: forever (`Singleton`), for
//! one unit of work (`Scoped`), or only for the call that asked for it
//! (`Transient`). Callers resolve services by a stable numeric identity and
//! receive shared handles; the container caches instances according to the
//! registered lifetime and clears the scoped cache at each scope boundary.

pub mod container;
pub mod laws;
pub mod model;

pub use container::Builder;
pub use container::IocApplicationContainer;
pub use model::Lifetime;
pub use model::Model;
pub use model::ResolveError;
