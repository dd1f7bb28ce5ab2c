use kv_router::decimal::append_decimal;
use kv_router::keyed_map::KeyedMap;
use kv_router::protocols::{StorageTier, WorkerWithDpRank};

#[test]
fn map_returns_what_was_inserted() {
    let mut map: KeyedMap<WorkerWithDpRank, u32> = KeyedMap::new();
    let a = WorkerWithDpRank::new(1, 0);
    let b = WorkerWithDpRank::new(0, 1);
    assert_eq!(map.get(&a), None);
    assert_eq!(map.insert(a, 10), None);
    assert_eq!(map.insert(b, 20), None);
    assert_eq!(map.insert(a, 30), Some(10));
    assert_eq!(map.get(&a), Some(&30));
    assert_eq!(map.get(&b), Some(&20));
    assert_eq!(map.get(&WorkerWithDpRank::new(1, 1)), None);
}

#[test]
fn map_keeps_extreme_keys_apart() {
    let mut map: KeyedMap<WorkerWithDpRank, u32> = KeyedMap::default();
    let keys = [
        WorkerWithDpRank::new(u64::MAX, u32::MAX),
        WorkerWithDpRank::new(u64::MAX, 0),
        WorkerWithDpRank::new(0, u32::MAX),
        WorkerWithDpRank::new(0, 0),
        WorkerWithDpRank::new(1 << 32, 0),
    ];
    for (i, key) in keys.iter().enumerate() {
        map.insert(*key, i as u32);
    }
    for (i, key) in keys.iter().enumerate() {
        assert_eq!(map.get(key), Some(&(i as u32)));
    }
}

#[test]
fn map_keeps_tiers_apart() {
    let mut map: KeyedMap<StorageTier, u8> = KeyedMap::new();
    map.insert(StorageTier::HostPinned, 2);
    assert_eq!(map.get(&StorageTier::HostPinned), Some(&2));
    assert_eq!(map.get(&StorageTier::Device), None);
    assert_eq!(map.get(&StorageTier::Disk), None);
    assert_eq!(map.get(&StorageTier::External), None);
}

#[test]
fn workers_are_ordered_by_worker_then_rank() {
    assert!(WorkerWithDpRank::new(1, 9) < WorkerWithDpRank::new(2, 0));
    assert!(WorkerWithDpRank::new(2, 0) < WorkerWithDpRank::new(2, 1));
    assert!(!(WorkerWithDpRank::new(2, 1) < WorkerWithDpRank::new(2, 1)));
    assert!(WorkerWithDpRank::new(3, 0) > WorkerWithDpRank::new(2, 5));
}

#[test]
fn decimal_notation_agrees_with_to_string() {
    for n in [0u64, 7, 9, 10, 99, 100, 1_000_000, 1_234_567_890, u64::MAX] {
        let mut out = "x".to_string();
        append_decimal(&mut out, n);
        assert_eq!(out, format!("x{n}"));
    }
}
