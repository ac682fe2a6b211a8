use ioc_container::{Builder, IocApplicationContainer, Lifetime, ResolveError};
use std::cell::Cell;
use std::rc::Rc;
use std::sync::Arc;

/// Always produces the same configuration text.
struct ConfigBuilder;

impl Builder<String> for ConfigBuilder {
    fn build(&self) -> Option<String> {
        Some("Shared Config".to_string())
    }
}

/// Produces 1, 2, 3, ... and shares its invocation count with the test.
struct CountingBuilder {
    count: Rc<Cell<u64>>,
}

impl Builder<u64> for CountingBuilder {
    fn build(&self) -> Option<u64> {
        self.count.set(self.count.get() + 1);
        Some(self.count.get())
    }
}

/// Fails a configurable number of times before it starts producing.
struct FlakyBuilder {
    failures_left: Rc<Cell<u64>>,
    count: Rc<Cell<u64>>,
}

impl Builder<u64> for FlakyBuilder {
    fn build(&self) -> Option<u64> {
        self.count.set(self.count.get() + 1);
        if self.failures_left.get() > 0 {
            self.failures_left.set(self.failures_left.get() - 1);
            None
        } else {
            Some(self.count.get())
        }
    }
}

const CONFIG: u64 = 1;
const STAMP: u64 = 2;

#[test]
fn singleton_resolves_to_one_shared_instance() {
    let mut c: IocApplicationContainer<String, ConfigBuilder> = IocApplicationContainer::new();
    c.add(CONFIG, Lifetime::Singleton, ConfigBuilder);
    let first = c.resolve(CONFIG).unwrap();
    let second = c.resolve(CONFIG).unwrap();
    assert_eq!(*first, "Shared Config");
    assert_eq!(*second, "Shared Config");
    assert!(Arc::ptr_eq(&first, &second));
}

#[test]
fn singleton_constructor_runs_exactly_once() {
    let count = Rc::new(Cell::new(0));
    let mut c: IocApplicationContainer<u64, CountingBuilder> = IocApplicationContainer::new();
    c.add(STAMP, Lifetime::Singleton, CountingBuilder { count: Rc::clone(&count) });
    let first = c.resolve(STAMP).unwrap();
    let second = c.resolve(STAMP).unwrap();
    let third = c.resolve(STAMP).unwrap();
    assert_eq!(count.get(), 1);
    assert_eq!(*first, 1);
    assert!(Arc::ptr_eq(&first, &second));
    assert!(Arc::ptr_eq(&first, &third));
}

#[test]
fn transient_builds_a_distinct_instance_every_call() {
    let count = Rc::new(Cell::new(0));
    let mut c: IocApplicationContainer<u64, CountingBuilder> = IocApplicationContainer::new();
    c.add(STAMP, Lifetime::Transient, CountingBuilder { count: Rc::clone(&count) });
    let a = c.resolve(STAMP).unwrap();
    let b = c.resolve(STAMP).unwrap();
    let d = c.resolve(STAMP).unwrap();
    assert_eq!((*a, *b, *d), (1, 2, 3));
    assert!(!Arc::ptr_eq(&a, &b));
    assert!(!Arc::ptr_eq(&b, &d));
    assert!(!Arc::ptr_eq(&a, &d));
    assert_eq!(count.get(), 3);
}

#[test]
fn scoped_instance_is_shared_within_an_epoch_and_fresh_after_a_boundary() {
    let count = Rc::new(Cell::new(0));
    let mut c: IocApplicationContainer<u64, CountingBuilder> = IocApplicationContainer::new();
    c.add(STAMP, Lifetime::Scoped, CountingBuilder { count: Rc::clone(&count) });

    c.begin_scope();
    let s1 = c.resolve(STAMP).unwrap();
    let s2 = c.resolve(STAMP).unwrap();
    assert_eq!(*s1, *s2);
    assert!(Arc::ptr_eq(&s1, &s2));
    assert_eq!(count.get(), 1);

    c.begin_scope();
    let s3 = c.resolve(STAMP).unwrap();
    assert_ne!(*s1, *s3);
    assert!(!Arc::ptr_eq(&s1, &s3));
    assert_eq!(count.get(), 2);
}

#[test]
fn unregistered_identity_is_reported_and_container_stays_usable() {
    let mut c: IocApplicationContainer<String, ConfigBuilder> = IocApplicationContainer::new();
    c.add(CONFIG, Lifetime::Singleton, ConfigBuilder);
    assert_eq!(c.resolve(99).unwrap_err(), ResolveError::NotRegistered);
    let after = c.resolve(CONFIG).unwrap();
    assert_eq!(*after, "Shared Config");
}

#[test]
fn resolve_on_empty_container_is_not_registered() {
    let mut c: IocApplicationContainer<u64, CountingBuilder> = IocApplicationContainer::new();
    assert_eq!(c.resolve(0).unwrap_err(), ResolveError::NotRegistered);
}

#[test]
fn begin_scope_leaves_singletons_in_place() {
    let count = Rc::new(Cell::new(0));
    let mut c: IocApplicationContainer<u64, CountingBuilder> = IocApplicationContainer::new();
    c.add(CONFIG, Lifetime::Singleton, CountingBuilder { count: Rc::clone(&count) });
    let before = c.resolve(CONFIG).unwrap();
    c.begin_scope();
    let after = c.resolve(CONFIG).unwrap();
    assert!(Arc::ptr_eq(&before, &after));
    assert_eq!(count.get(), 1);
}

#[test]
fn failed_construction_is_reported_and_retried() {
    let count = Rc::new(Cell::new(0));
    let failures = Rc::new(Cell::new(1));
    let mut c: IocApplicationContainer<u64, FlakyBuilder> = IocApplicationContainer::new();
    c.add(
        STAMP,
        Lifetime::Singleton,
        FlakyBuilder { failures_left: Rc::clone(&failures), count: Rc::clone(&count) },
    );
    assert_eq!(c.resolve(STAMP).unwrap_err(), ResolveError::ConstructionFailed);
    assert_eq!(count.get(), 1);
    // Nothing was cached, so the next resolution tries again and succeeds.
    let first = c.resolve(STAMP).unwrap();
    assert_eq!(*first, 2);
    assert_eq!(count.get(), 2);
    // From then on the cached instance is handed out without construction.
    let second = c.resolve(STAMP).unwrap();
    assert!(Arc::ptr_eq(&first, &second));
    assert_eq!(count.get(), 2);
}

#[test]
fn latest_registration_wins() {
    let early = Rc::new(Cell::new(0));
    let late = Rc::new(Cell::new(100));
    let mut c: IocApplicationContainer<u64, CountingBuilder> = IocApplicationContainer::new();
    c.add(STAMP, Lifetime::Transient, CountingBuilder { count: Rc::clone(&early) });
    c.add(STAMP, Lifetime::Transient, CountingBuilder { count: Rc::clone(&late) });
    let got = c.resolve(STAMP).unwrap();
    assert_eq!(*got, 101);
    assert_eq!(early.get(), 0);
}

/// One container serving several conceptual services: a closed enumeration
/// of service kinds, each with its own identity and lifetime.
enum Service {
    Config(String),
    Stamp(u64),
}

enum ServiceBuilder {
    Config,
    Stamp(Rc<Cell<u64>>),
}

impl Builder<Service> for ServiceBuilder {
    fn build(&self) -> Option<Service> {
        match self {
            ServiceBuilder::Config => Some(Service::Config("Shared Config".to_string())),
            ServiceBuilder::Stamp(count) => {
                count.set(count.get() + 1);
                Some(Service::Stamp(count.get()))
            }
        }
    }
}

#[test]
fn mixed_lifetimes_in_one_container() {
    let count = Rc::new(Cell::new(0));
    let mut c: IocApplicationContainer<Service, ServiceBuilder> = IocApplicationContainer::new();
    c.add(CONFIG, Lifetime::Singleton, ServiceBuilder::Config);
    c.add(STAMP, Lifetime::Scoped, ServiceBuilder::Stamp(Rc::clone(&count)));

    c.begin_scope();
    let s1 = c.resolve(STAMP).unwrap();
    let s2 = c.resolve(STAMP).unwrap();
    assert!(Arc::ptr_eq(&s1, &s2));

    let cfg1 = c.resolve(CONFIG).unwrap();
    c.begin_scope();
    let s3 = c.resolve(STAMP).unwrap();
    assert!(!Arc::ptr_eq(&s1, &s3));
    match (&*s1, &*s3) {
        (Service::Stamp(a), Service::Stamp(b)) => assert_ne!(a, b),
        _ => panic!("scoped identity resolved to the wrong service kind"),
    }
    // The scope boundary left the singleton in place.
    let cfg2 = c.resolve(CONFIG).unwrap();
    assert!(Arc::ptr_eq(&cfg1, &cfg2));
    match &*cfg1 {
        Service::Config(text) => assert_eq!(text, "Shared Config"),
        Service::Stamp(_) => panic!("singleton identity resolved to the wrong service kind"),
    }
}
