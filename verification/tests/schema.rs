use pgcat_config::schema::default_path;
use pgcat_config::schema::Address;
use pgcat_config::schema::Config;
use pgcat_config::schema::General;
use pgcat_config::schema::QueryRouter;
use pgcat_config::schema::Role;
use pgcat_config::schema::Shard;
use pgcat_config::schema::User;

#[test]
fn role_writes_its_name() {
    assert_eq!(Role::Primary.to_string(), "primary");
    assert_eq!(Role::Replica.to_string(), "replica");
}

#[test]
fn absent_role_matches_every_role() {
    let absent: Option<Role> = None;
    assert!(Role::Primary == absent);
    assert!(Role::Replica == absent);
    assert!(absent == Role::Primary);
    assert!(absent == Role::Replica);
}

#[test]
fn wanted_role_matches_only_itself() {
    assert!(Role::Primary == Some(Role::Primary));
    assert!(Role::Replica == Some(Role::Replica));
    assert!(Role::Primary != Some(Role::Replica));
    assert!(Role::Replica != Some(Role::Primary));
    assert!(Some(Role::Primary) == Role::Primary);
    assert!(Some(Role::Replica) != Role::Primary);
}

#[test]
fn role_wildcard_is_symmetric() {
    let roles = vec![Role::Primary, Role::Replica];
    let wanted = vec![None, Some(Role::Primary), Some(Role::Replica)];
    for role in roles {
        for other in &wanted {
            assert_eq!(role == *other, *other == role);
        }
    }
}

#[test]
fn address_default() {
    let address = Address::default();
    assert_eq!(address.id, 0);
    assert_eq!(address.host, "127.0.0.1");
    assert_eq!(address.port, "5432");
    assert_eq!(address.shard, 0);
    assert_eq!(address.replica_number, 0);
    assert_eq!(address.role, Role::Replica);
}

#[test]
fn address_name_of_a_primary() {
    let mut address = Address::default();
    address.role = Role::Primary;
    address.shard = 3;
    address.replica_number = 9;
    assert_eq!(address.name(), "shard_3_primary");
}

#[test]
fn address_name_of_a_replica() {
    let mut address = Address::default();
    assert_eq!(address.name(), "shard_0_replica_0");
    address.shard = 12;
    address.replica_number = 105;
    assert_eq!(address.name(), "shard_12_replica_105");
}

#[test]
fn addresses_are_equal_when_every_field_is() {
    let address = Address::default();
    assert!(address == address.clone());
    let mut other = address.clone();
    other.id = 1;
    assert!(address != other);
    let mut other = address.clone();
    other.host = String::from("localhost");
    assert!(address != other);
    let mut other = address.clone();
    other.port = String::from("5433");
    assert!(address != other);
    let mut other = address.clone();
    other.shard = 1;
    assert!(address != other);
    let mut other = address.clone();
    other.role = Role::Primary;
    assert!(address != other);
    let mut other = address.clone();
    other.replica_number = 1;
    assert!(address != other);
}

#[test]
fn user_default() {
    let user = User::default();
    assert_eq!(user.name, "postgres");
    assert_eq!(user.password, "");
}

#[test]
fn general_default() {
    let general = General::default();
    assert_eq!(general.host, "localhost");
    assert_eq!(general.port, 5432);
    assert_eq!(general.pool_size, 15);
    assert_eq!(general.pool_mode, "transaction");
    assert_eq!(general.connect_timeout, 5000);
    assert_eq!(general.healthcheck_timeout, 1000);
    assert_eq!(general.ban_time, 60);
    assert!(!general.autoreload);
    assert_eq!(general.tls_certificate, None);
    assert_eq!(general.tls_private_key, None);
}

#[test]
fn shard_default() {
    let shard = Shard::default();
    assert_eq!(
        shard.servers,
        vec![(String::from("localhost"), 5432, String::from("primary"))]
    );
    assert_eq!(shard.database, "postgres");
}

#[test]
fn query_router_default() {
    let router = QueryRouter::default();
    assert_eq!(router.default_role, "any");
    assert!(!router.query_parser_enabled);
    assert!(router.primary_reads_enabled);
    assert_eq!(router.sharding_function, "pg_bigint_hash");
}

#[test]
fn config_default() {
    let config = Config::default();
    assert_eq!(config.path, "pgcat.toml");
    assert_eq!(default_path(), "pgcat.toml");
    assert!(config.general == General::default());
    assert!(config.user == User::default());
    assert!(config.query_router == QueryRouter::default());
    assert_eq!(config.shards.len(), 1);
    assert!(*config.shards.get("1").unwrap() == Shard::default());
    assert!(config.shards.get("0").is_none());
}

#[test]
fn clone_is_equal_and_independent() {
    let config = Config::default();
    let mut copy = config.clone();
    assert!(copy == config);
    copy.general.pool_size = 16;
    assert!(copy != config);
    assert_eq!(config.general.pool_size, 15);
    let mut copy = config.clone();
    copy.shards.insert(String::from("2"), Shard::default());
    assert_eq!(config.shards.len(), 1);
    assert_eq!(copy.shards.len(), 2);
}

#[test]
fn configs_differ_when_any_section_does() {
    let config = Config::default();
    let mut other = config.clone();
    other.path = String::from("other.toml");
    assert!(config != other);
    let mut other = config.clone();
    other.general.tls_certificate = Some(String::from("server.cert"));
    assert!(config != other);
    let mut other = config.clone();
    other.user.password = String::from("secret");
    assert!(config != other);
    let mut other = config.clone();
    other.query_router.query_parser_enabled = true;
    assert!(config != other);
    let mut other = config.clone();
    let mut shard = Shard::default();
    shard.database = String::from("other");
    other.shards.insert(String::from("1"), shard);
    assert!(config != other);
}

#[test]
fn shards_differ_by_servers_and_database() {
    let shard = Shard::default();
    let mut other = shard.clone();
    assert!(shard == other);
    other.servers[0].1 = 5433;
    assert!(shard != other);
    let mut other = shard.clone();
    other.servers.push((String::from("localhost"), 5433, String::from("replica")));
    assert!(shard != other);
    let mut other = shard.clone();
    other.servers[0].2 = String::from("replica");
    assert!(shard != other);
}
