use pgcat_config::schema::Shard;
use pgcat_config::shards::ShardMap;

fn shard(database: &str) -> Shard {
    let mut shard = Shard::default();
    shard.database = String::from(database);
    shard
}

#[test]
fn new_map_is_empty() {
    let shards = ShardMap::new();
    assert_eq!(shards.len(), 0);
    assert!(shards.get("0").is_none());
    assert!(!shards.contains_key("0"));
    assert!(shards.entries().is_empty());
}

#[test]
fn insert_adds_a_shard() {
    let mut shards = ShardMap::new();
    assert!(shards.insert(String::from("0"), shard("a")).is_none());
    assert!(shards.insert(String::from("1"), shard("b")).is_none());
    assert_eq!(shards.len(), 2);
    assert_eq!(shards.get("0").unwrap().database, "a");
    assert_eq!(shards.get("1").unwrap().database, "b");
    assert!(shards.contains_key("1"));
    assert!(!shards.contains_key("2"));
}

#[test]
fn insert_replaces_the_shard_of_the_same_key() {
    let mut shards = ShardMap::new();
    shards.insert(String::from("0"), shard("a"));
    shards.insert(String::from("1"), shard("b"));
    let previous = shards.insert(String::from("0"), shard("c"));
    assert_eq!(previous.unwrap().database, "a");
    assert_eq!(shards.len(), 2);
    assert_eq!(shards.get("0").unwrap().database, "c");
    assert_eq!(shards.get("1").unwrap().database, "b");
}

#[test]
fn entries_list_each_key_once() {
    let mut shards = ShardMap::new();
    shards.insert(String::from("0"), shard("a"));
    shards.insert(String::from("1"), shard("b"));
    shards.insert(String::from("0"), shard("c"));
    let mut keys: Vec<String> = shards.entries().iter().map(|entry| entry.0.clone()).collect();
    keys.sort();
    assert_eq!(keys, vec![String::from("0"), String::from("1")]);
}

#[test]
fn equality_ignores_the_order_of_insertion() {
    let mut one = ShardMap::new();
    one.insert(String::from("0"), shard("a"));
    one.insert(String::from("1"), shard("b"));
    let mut other = ShardMap::new();
    other.insert(String::from("1"), shard("b"));
    other.insert(String::from("0"), shard("a"));
    assert!(one == other);
    assert!(other == one);
}

#[test]
fn maps_differ_by_keys_and_by_shards() {
    let mut one = ShardMap::new();
    one.insert(String::from("0"), shard("a"));
    let mut other = ShardMap::new();
    other.insert(String::from("1"), shard("a"));
    assert!(one != other);
    let mut other = ShardMap::new();
    other.insert(String::from("0"), shard("b"));
    assert!(one != other);
    let mut other = one.clone();
    assert!(one == other);
    other.insert(String::from("1"), shard("a"));
    assert!(one != other);
    assert!(other != one);
    assert!(one != ShardMap::new());
}
