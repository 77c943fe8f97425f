use context_manager::hirag::l1_cache::L1Cache;
use context_manager::hirag::models::Context;
use context_manager::vector_db::models::ContextLevel;

fn item(id: u128, text: &str, tokens: usize, timestamp: i64) -> Context {
    Context::new(id, text.to_string(), ContextLevel::Immediate, timestamp, tokens)
}

fn ids(mut items: Vec<Context>) -> Vec<u128> {
    items.sort_by_key(|c| c.id);
    items.iter().map(|c| c.id).collect()
}

#[test]
fn three_ingests_into_two_places() {
    let mut cache = L1Cache::new(2);
    cache.insert(item(1, "A", 1, 100));
    cache.insert(item(2, "B", 1, 101));
    cache.insert(item(3, "C", 1, 102));
    assert_eq!(cache.len(), 2);
    let held = cache.snapshot();
    assert!(held.iter().all(|c| c.timestamp != 100));
    assert_eq!(ids(held), vec![2, 3]);
}

#[test]
fn an_old_item_does_not_displace_newer_ones() {
    let mut cache = L1Cache::new(2);
    cache.insert(item(1, "A", 1, 100));
    cache.insert(item(2, "B", 1, 101));
    cache.insert(item(3, "old", 1, 50));
    assert_eq!(ids(cache.snapshot()), vec![1, 2]);
}

#[test]
fn capacity_is_never_exceeded() {
    let mut cache = L1Cache::new(3);
    for i in 0..20u128 {
        cache.insert(item(i, "x", 1, i as i64));
        assert!(cache.len() <= 3);
    }
    assert_eq!(ids(cache.snapshot()), vec![17, 18, 19]);
    let mut none = L1Cache::new(0);
    none.insert(item(1, "x", 1, 1));
    assert_eq!(none.len(), 0);
}

#[test]
fn insert_under_a_held_id_replaces_the_item() {
    let mut cache = L1Cache::new(2);
    cache.insert(item(1, "first", 1, 100));
    cache.insert(item(1, "second", 2, 200));
    assert_eq!(cache.len(), 1);
    let held = cache.snapshot();
    assert_eq!(held[0].text, "second");
    assert_eq!(held[0].timestamp, 200);
}

#[test]
fn read_is_newest_first_within_budget() {
    let mut cache = L1Cache::new(10);
    cache.insert(item(1, "a", 40, 100));
    cache.insert(item(2, "b", 30, 300));
    cache.insert(item(3, "c", 50, 200));
    let found: Vec<u128> = cache.newest_within(1000).iter().map(|c| c.id).collect();
    assert_eq!(found, vec![2, 3, 1]);
    let found: Vec<u128> = cache.newest_within(80).iter().map(|c| c.id).collect();
    assert_eq!(found, vec![2, 3]);
    // the second item does not fit, so the third is not looked at
    let found: Vec<u128> = cache.newest_within(75).iter().map(|c| c.id).collect();
    assert_eq!(found, vec![2]);
    assert!(cache.newest_within(29).is_empty());
    assert_eq!(cache.len(), 3);
}

#[test]
fn remove_and_clear() {
    let mut cache = L1Cache::new(10);
    cache.insert(item(1, "a", 1, 1));
    cache.insert(item(2, "b", 1, 2));
    cache.remove(1);
    assert_eq!(ids(cache.snapshot()), vec![2]);
    cache.remove(1);
    assert_eq!(ids(cache.snapshot()), vec![2]);
    cache.clear();
    assert_eq!(cache.len(), 0);
    cache.clear();
    assert_eq!(cache.len(), 0);
}
