use vstd::prelude::*;
use std::collections::{BTreeMap, HashMap};
use std::hash::Hash;
use std::sync::Arc;
use parking_lot::{RwLock, RwLockUpgradableReadGuard, RwLockWriteGuard};
use parking_lot::lock_api;
use vstd::laws_cmp::obeys_cmp;
use vstd::std_specs::hash::{builds_valid_hashers, obeys_key_model};
use crate::util::shared::share;

verus! {

/// A store from keys to values, ordered or hashed.
pub trait Cache<K, V> {
    /// What the store holds.
    spec fn stored(&self) -> Map<K, V>;

    /// The key type compares or hashes lawfully, so the store acts as a map.
    spec fn lawful(&self) -> bool;

    fn get(&self, key: &K) -> (r: Option<&V>)
        ensures
            self.lawful() ==> match r {
                Some(v) => self.stored().contains_key(*key) && self.stored()[*key] == *v,
                None => !self.stored().contains_key(*key),
            },
    ;

    fn insert(&mut self, key: K, value: V)
        ensures
            final(self).lawful() == old(self).lawful(),
            old(self).lawful() ==> final(self).stored() == old(self).stored().insert(key, value),
    ;
}

impl<K: Ord, V> Cache<K, V> for BTreeMap<K, V> {
    open spec fn stored(&self) -> Map<K, V> {
        self@
    }

    open spec fn lawful(&self) -> bool {
        obeys_cmp::<K>()
    }

    fn get(&self, key: &K) -> (r: Option<&V>) {
        BTreeMap::get(self, key)
    }

    fn insert(&mut self, key: K, value: V) {
        BTreeMap::insert(self, key, value);
    }
}

impl<K: Hash + Eq, V> Cache<K, V> for HashMap<K, V> {
    open spec fn stored(&self) -> Map<K, V> {
        self@
    }

    open spec fn lawful(&self) -> bool {
        obeys_key_model::<K>() && builds_valid_hashers::<std::hash::RandomState>()
    }

    fn get(&self, key: &K) -> (r: Option<&V>) {
        HashMap::get(self, key)
    }

    fn insert(&mut self, key: K, value: V) {
        HashMap::insert(self, key, value);
    }
}

/// Computes the value for a key.
pub trait Factory<K, V>: Send + Sync {
    fn produce(&self, key: K) -> V;
}

impl<K, V, F: Fn(K) -> V + Send + Sync> Factory<K, V> for F {
    fn produce(&self, key: K) -> V {
        call_factory(self, key)
    }
}

/// Relies on calling the closure; what it computes is its own affair.
#[verifier::external_body]
fn call_factory<K, V, F: Fn(K) -> V>(f: &F, key: K) -> V {
    f(key)
}

/// parking_lot's raw lock, which its `RwLock` is built on.
#[verifier::external_type_specification]
#[verifier::external_body]
pub struct ExRawRwLock(parking_lot::RawRwLock);

/// Lets parking_lot's reader-writer lock stand in a field.
#[verifier::external_type_specification]
#[verifier::external_body]
#[verifier::reject_recursive_types(R)]
#[verifier::reject_recursive_types(T)]
pub struct ExRwLock<R, T: ?Sized>(lock_api::RwLock<R, T>);

/// Relies on `parking_lot::RwLock::new`.
#[verifier::external_body]
fn new_lock<T>(value: T) -> RwLock<T> {
    RwLock::new(value)
}

/// An upgradable read lock held on a parking_lot `RwLock`. Verus cannot
/// declare the guard type, whose bound names a lock_api trait, so the
/// guard is held here.
#[verifier::external_body]
#[verifier::reject_recursive_types(T)]
struct UpgradableRead<'a, T> {
    guard: RwLockUpgradableReadGuard<'a, T>,
}

/// A write lock held on a parking_lot `RwLock`, held here for the same
/// reason.
#[verifier::external_body]
#[verifier::reject_recursive_types(T)]
struct WriteLock<'a, T> {
    guard: RwLockWriteGuard<'a, T>,
}

/// Relies on `parking_lot::RwLock::upgradable_read`: waits until no writer
/// and no other upgradable reader holds the lock. Plain readers may go on.
#[verifier::external_body]
fn upgradable_read<T>(lock: &RwLock<T>) -> UpgradableRead<'_, T> {
    UpgradableRead { guard: lock.upgradable_read() }
}

impl<'a, T> UpgradableRead<'a, T> {
    /// Relies on the guard's `Deref`: the value under the lock.
    #[verifier::external_body]
    fn value(&self) -> &T {
        &*self.guard
    }

    /// Relies on `RwLockUpgradableReadGuard::upgrade`: waits for the
    /// readers to leave and turns the lock into a write lock without
    /// letting go.
    #[verifier::external_body]
    fn upgrade(self) -> WriteLock<'a, T> {
        WriteLock { guard: RwLockUpgradableReadGuard::upgrade(self.guard) }
    }
}

impl<'a, T> WriteLock<'a, T> {
    /// Relies on the guard's `DerefMut`: the value under the lock.
    #[verifier::external_body]
    fn value_mut(&mut self) -> &mut T {
        &mut *self.guard
    }
}

/// The value stored under `key`, if any.
pub fn lookup<K, V, C: Cache<K, Arc<V>>>(cache: &C, key: &K) -> (r: Option<Arc<V>>)
    ensures
        cache.lawful() ==> match r {
            Some(v) => cache.stored().contains_key(*key) && cache.stored()[*key] == v,
            None => !cache.stored().contains_key(*key),
        },
{
    match cache.get(key) {
        Some(v) => Some(share(v)),
        None => None,
    }
}

/// The value stored under `key`; when there is none, the factory computes
/// it and it is stored.
pub fn get_or_produce<K: Clone, V, C: Cache<K, Arc<V>>>(cache: &mut C, key: K, factory: &dyn Factory<K, V>) -> (r: Arc<V>)
    ensures
        final(cache).lawful() == old(cache).lawful(),
        old(cache).lawful() ==> {
            if old(cache).stored().contains_key(key) {
                r == old(cache).stored()[key] && final(cache).stored() == old(cache).stored()
            } else {
                final(cache).stored() == old(cache).stored().insert(key, r)
            }
        },
{
    if let Some(val) = lookup(&*cache, &key) {
        return val;
    }
    let val = Arc::new(factory.produce(key.clone()));
    cache.insert(key, share(&val));
    val
}

/// Caches what a factory computes for each key: the first `get` of a key
/// computes its value, later ones return the same value.
#[verifier::reject_recursive_types(K)]
#[verifier::reject_recursive_types(V)]
#[verifier::reject_recursive_types(C)]
pub struct FactoryCache<K, V, C: Cache<K, Arc<V>>> {
    cache: RwLock<C>,
    factory_fn: Box<dyn Factory<K, V>>,
}

impl<K: Clone, V, C: Cache<K, Arc<V>>> FactoryCache<K, V, C> {
    pub fn new(cache: C, factory_fn: Box<dyn Factory<K, V>>) -> (r: FactoryCache<K, V, C>) {
        FactoryCache { cache: new_lock(cache), factory_fn }
    }

    /// The value for `key`. An upgradable read finds it when it is there;
    /// otherwise the lock is upgraded, the key looked up again, since
    /// another writer may have stored it meanwhile, and only then computed
    /// and stored, all under the write lock. So the factory runs at most once
    /// per key.
    ///
    /// The result is what the store, as seen under the lock, holds for `key`.
    pub fn get(&self, key: K) -> (r: Arc<V>)
        ensures
            exists|seen: C| seen.lawful() ==> seen.stored().contains_key(key) && seen.stored()[key] == r,
    {
        let ghost wanted = key;
        let read_lock = upgradable_read(&self.cache);
        let store = read_lock.value();
        if let Some(val) = lookup(store, &key) {
            let ghost seen = *store;
            assert(seen.lawful() ==> seen.stored().contains_key(wanted) && seen.stored()[wanted] == val);
            return val;
        }
        let mut write_lock = read_lock.upgrade();
        let store = write_lock.value_mut();
        let ghost before = *store;
        let val = get_or_produce(store, key, &*self.factory_fn);
        let ghost seen = *store;
        proof {
            if seen.lawful() {
                if !before.stored().contains_key(wanted) {
                    assert(seen.stored() == before.stored().insert(wanted, val));
                }
            }
        }
        assert(seen.lawful() ==> seen.stored().contains_key(wanted) && seen.stored()[wanted] == val);
        val
    }
}

} // verus!
