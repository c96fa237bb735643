use sidemon::{range_bounds, Collection, CollectionKind, PROCESSES_KEY, QUEUES_KEY};

#[test]
fn queue_is_a_sequence() {
    let queue = Collection::queue("default");
    assert_eq!(queue.kind, CollectionKind::Sequence);
    assert_eq!(queue.key, "queue:default");
    assert_eq!(queue.range_command(), "LRANGE");
    assert_eq!(queue.size_command(), "LLEN");
}

#[test]
fn special_sets_are_scored() {
    for (collection, key) in [(Collection::retry(), "retry"), (Collection::schedule(), "schedule"), (Collection::dead(), "dead")] {
        assert_eq!(collection.kind, CollectionKind::ScoredSet);
        assert_eq!(collection.key, key);
        assert_eq!(collection.range_command(), "ZRANGE");
        assert_eq!(collection.size_command(), "ZCARD");
    }
}

#[test]
fn registry_keys() {
    assert_eq!(PROCESSES_KEY, "processes");
    assert_eq!(QUEUES_KEY, "queues");
}

#[test]
fn bounds_of_a_range() {
    assert_eq!(range_bounds(0, 10), Some((0, 9)));
    assert_eq!(range_bounds(5, 1), Some((5, 5)));
    assert_eq!(range_bounds(0, 0), None);
    assert_eq!(range_bounds(5, u64::MAX), Some((5, i64::MAX)));
    assert_eq!(range_bounds(u64::MAX, 1), None);
}
