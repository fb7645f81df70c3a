use std::cell::Cell;
use std::collections::{BTreeMap, HashMap};
use std::sync::atomic::{AtomicUsize, Ordering};
use std::sync::Arc;
use std::time::{Duration, Instant};

use xs_rust_library::factory_cache::{get_or_produce, lookup, Factory, FactoryCache};

fn slow_identity(k: usize) -> u32 {
    let start = Instant::now();
    while start.elapsed() < Duration::from_secs(2) {
        std::hint::spin_loop();
    }
    k as u32
}

#[test]
fn factory_runs_once_per_key() {
    let calls = Arc::new(AtomicUsize::new(0));
    let counted = calls.clone();
    let cache = FactoryCache::new(
        BTreeMap::new(),
        Box::new(move |k: usize| {
            counted.fetch_add(1, Ordering::SeqCst);
            k * 10
        }),
    );
    let values: Vec<Arc<usize>> = (0..16).map(|_| cache.get(4)).collect();
    assert_eq!(calls.load(Ordering::SeqCst), 1);
    for v in &values {
        assert_eq!(**v, 40);
        assert!(Arc::ptr_eq(v, &values[0]));
    }
    assert_eq!(*cache.get(5), 50);
    assert_eq!(calls.load(Ordering::SeqCst), 2);
}

#[test]
fn slow_factory_builds_each_key_once() {
    let cache = FactoryCache::new(HashMap::new(), Box::new(|k: usize| slow_identity(k)));

    let start = Instant::now();
    let first = cache.get(3);
    assert_eq!(*first, 3);
    assert!(start.elapsed() >= Duration::from_secs(2));

    let start = Instant::now();
    assert_eq!(*cache.get(5), 5);
    assert!(start.elapsed() >= Duration::from_secs(2));

    let start = Instant::now();
    let again = cache.get(3);
    assert!(start.elapsed() < Duration::from_millis(500));
    assert!(Arc::ptr_eq(&first, &again));
}

#[test]
fn get_or_produce_stores_once() {
    let factory: Box<dyn Factory<u64, String>> = Box::new(|k: u64| format!("v{k}"));
    let mut store: BTreeMap<u64, Arc<String>> = BTreeMap::new();
    let first = get_or_produce(&mut store, 1, &*factory);
    assert_eq!(*first, "v1");
    let again = get_or_produce(&mut store, 1, &*factory);
    assert!(Arc::ptr_eq(&first, &again));
    assert_eq!(store.len(), 1);
    assert!(Arc::ptr_eq(&lookup(&store, &1).unwrap(), &first));
    assert!(lookup(&store, &2).is_none());
}

#[test]
fn get_or_produce_uses_existing_entry() {
    let produced = Cell::new(0);
    let mut store: HashMap<u64, Arc<String>> = HashMap::new();
    store.insert(7, Arc::new("seven".to_string()));
    let factory: Box<dyn Factory<u64, String>> = Box::new(|k: u64| format!("fresh{k}"));
    assert_eq!(*get_or_produce(&mut store, 7, &*factory), "seven");
    assert_eq!(*get_or_produce(&mut store, 8, &*factory), "fresh8");
    produced.set(store.len());
    assert_eq!(produced.get(), 2);
}
