use pgcat_config::decode::decode;
use pgcat_config::decode::decode_document;
use pgcat_config::document::find;
use pgcat_config::document::parse_document;
use pgcat_config::document::Node;
use pgcat_config::errors::ConfigError;
use pgcat_config::schema::Config;
use pgcat_config::schema::Shard;

fn in_general(line: &str) -> Result<Config, ConfigError> {
    decode(&format!("[general]\n{}\n", line))
}

fn with_servers(servers: &str) -> Result<Config, ConfigError> {
    decode(&format!("[shards.0]\nservers = {}\n", servers))
}

#[test]
fn empty_source_is_the_default() {
    assert_eq!(decode("").unwrap(), Config::default());
    assert_eq!(decode("# nothing but a comment\n").unwrap(), Config::default());
}

#[test]
fn default_written_out_is_the_default() {
    let text = r#"
path = "pgcat.toml"

[general]
host = "localhost"
port = 5432
pool_size = 15
pool_mode = "transaction"
connect_timeout = 5000
healthcheck_timeout = 1000
ban_time = 60
autoreload = false

[user]
name = "postgres"
password = ""

[shards.1]
servers = [["localhost", 5432, "primary"]]
database = "postgres"

[query_router]
default_role = "any"
query_parser_enabled = false
primary_reads_enabled = true
sharding_function = "pg_bigint_hash"
"#;
    assert_eq!(decode(text).unwrap(), Config::default());
}

#[test]
fn every_field_is_read() {
    let text = r#"
path = "elsewhere.toml"

[general]
host = "0.0.0.0"
port = 6432
pool_size = 30
pool_mode = "session"
connect_timeout = 100
healthcheck_timeout = 200
ban_time = -1
autoreload = true
tls_certificate = "server.cert"
tls_private_key = "server.key"

[user]
name = "sharding_user"
password = "secret"

[shards.0]
servers = [["10.0.0.1", 5433, "primary"], ["10.0.0.2", 65535, "replica"]]
database = "shard0"

[shards.7]
servers = [["10.0.0.3", 0, "replica"]]
database = "shard7"

[query_router]
default_role = "replica"
query_parser_enabled = true
primary_reads_enabled = false
sharding_function = "sha1"
"#;
    let config = decode(text).unwrap();
    assert_eq!(config.path, "elsewhere.toml");
    assert_eq!(config.general.host, "0.0.0.0");
    assert_eq!(config.general.port, 6432);
    assert_eq!(config.general.pool_size, 30);
    assert_eq!(config.general.pool_mode, "session");
    assert_eq!(config.general.connect_timeout, 100);
    assert_eq!(config.general.healthcheck_timeout, 200);
    assert_eq!(config.general.ban_time, -1);
    assert!(config.general.autoreload);
    assert_eq!(config.general.tls_certificate, Some(String::from("server.cert")));
    assert_eq!(config.general.tls_private_key, Some(String::from("server.key")));
    assert_eq!(config.user.name, "sharding_user");
    assert_eq!(config.user.password, "secret");
    assert_eq!(config.shards.len(), 2);
    let first = config.shards.get("0").unwrap();
    assert_eq!(
        first.servers,
        vec![
            (String::from("10.0.0.1"), 5433, String::from("primary")),
            (String::from("10.0.0.2"), 65535, String::from("replica")),
        ]
    );
    assert_eq!(first.database, "shard0");
    let second = config.shards.get("7").unwrap();
    assert_eq!(second.servers, vec![(String::from("10.0.0.3"), 0, String::from("replica"))]);
    assert_eq!(second.database, "shard7");
    assert_eq!(config.query_router.default_role, "replica");
    assert!(config.query_router.query_parser_enabled);
    assert!(!config.query_router.primary_reads_enabled);
    assert_eq!(config.query_router.sharding_function, "sha1");
}

#[test]
fn missing_fields_take_their_defaults() {
    let config = decode("[general]\npool_size = 3\n[user]\npassword = \"x\"\n").unwrap();
    let mut wanted = Config::default();
    wanted.general.pool_size = 3;
    wanted.user.password = String::from("x");
    assert_eq!(config, wanted);
}

#[test]
fn missing_fields_of_a_shard_take_their_defaults() {
    let config = decode("[shards.4]\ndatabase = \"four\"\n").unwrap();
    assert_eq!(config.shards.len(), 1);
    let shard = config.shards.get("4").unwrap();
    assert_eq!(shard.servers, Shard::default().servers);
    assert_eq!(shard.database, "four");
    let config = decode("[shards.4]\nservers = [[\"h\", 1, \"replica\"]]\n").unwrap();
    let shard = config.shards.get("4").unwrap();
    assert_eq!(shard.servers, vec![(String::from("h"), 1, String::from("replica"))]);
    assert_eq!(shard.database, "postgres");
}

#[test]
fn named_shards_replace_the_default_shard() {
    let config = decode("[shards.0]\n").unwrap();
    assert_eq!(config.shards.len(), 1);
    assert!(config.shards.get("1").is_none());
    assert_eq!(*config.shards.get("0").unwrap(), Shard::default());
    let config = decode("[shards]\n").unwrap();
    assert_eq!(config.shards.len(), 0);
}

#[test]
fn unknown_keys_are_passed_over() {
    let text = "colour = \"red\"\n[general]\nnickname = 5\n[extras]\na = 1\n[user]\nage = 1.5\n";
    assert_eq!(decode(text).unwrap(), Config::default());
}

#[test]
fn text_that_is_not_toml_fails() {
    assert_eq!(decode("[general"), Err(ConfigError::BadConfig));
    assert_eq!(decode("host = "), Err(ConfigError::BadConfig));
    assert_eq!(decode("a = 1\na = 2\n"), Err(ConfigError::BadConfig));
    assert_eq!(decode("just words"), Err(ConfigError::BadConfig));
    assert!(parse_document("[general").is_err());
}

#[test]
fn field_of_the_wrong_kind_fails() {
    assert!(in_general("host = 5").is_err());
    assert!(in_general("port = \"5432\"").is_err());
    assert!(in_general("port = 5432.0").is_err());
    assert!(in_general("pool_size = true").is_err());
    assert!(in_general("pool_mode = [\"transaction\"]").is_err());
    assert!(in_general("autoreload = \"false\"").is_err());
    assert!(in_general("autoreload = 0").is_err());
    assert!(in_general("tls_certificate = 1").is_err());
    assert!(in_general("tls_private_key = false").is_err());
    assert!(in_general("host = 1979-05-27T07:32:00Z").is_err());
    assert!(decode("path = 1\n").is_err());
    assert!(decode("[user]\nname = 1\n").is_err());
    assert!(decode("[user]\npassword = []\n").is_err());
    assert!(decode("[query_router]\ndefault_role = 1\n").is_err());
    assert!(decode("[query_router]\nquery_parser_enabled = \"no\"\n").is_err());
    assert!(decode("[query_router]\nprimary_reads_enabled = 1\n").is_err());
    assert!(decode("[query_router]\nsharding_function = true\n").is_err());
}

#[test]
fn section_of_the_wrong_kind_fails() {
    assert!(decode("general = 1\n").is_err());
    assert!(decode("user = \"postgres\"\n").is_err());
    assert!(decode("shards = []\n").is_err());
    assert!(decode("query_router = true\n").is_err());
    assert!(decode("[shards]\n0 = 5\n").is_err());
    assert!(decode("[shards]\n0 = \"x\"\n").is_err());
    assert!(decode("[shards.0]\nservers = \"localhost\"\n").is_err());
    assert!(decode("[shards.0]\ndatabase = 5\n").is_err());
}

#[test]
fn numbers_must_lie_in_the_range_of_their_field() {
    assert_eq!(in_general("port = 32767").unwrap().general.port, 32767);
    assert_eq!(in_general("port = -32768").unwrap().general.port, -32768);
    assert!(in_general("port = 32768").is_err());
    assert!(in_general("port = -32769").is_err());
    assert_eq!(in_general("pool_size = 0").unwrap().general.pool_size, 0);
    assert_eq!(in_general("pool_size = 4294967295").unwrap().general.pool_size, 4294967295);
    assert!(in_general("pool_size = 4294967296").is_err());
    assert!(in_general("pool_size = -1").is_err());
    assert_eq!(
        in_general("connect_timeout = 9223372036854775807").unwrap().general.connect_timeout,
        9223372036854775807
    );
    assert!(in_general("connect_timeout = -1").is_err());
    assert_eq!(in_general("healthcheck_timeout = 0").unwrap().general.healthcheck_timeout, 0);
    assert!(in_general("healthcheck_timeout = -1000").is_err());
    assert_eq!(
        in_general("ban_time = -9223372036854775808").unwrap().general.ban_time,
        i64::MIN
    );
    assert_eq!(in_general("ban_time = 9223372036854775807").unwrap().general.ban_time, i64::MAX);
}

#[test]
fn server_is_host_port_and_role() {
    let config = with_servers("[[\"h\", 65535, \"replica\"]]").unwrap();
    assert_eq!(
        config.shards.get("0").unwrap().servers,
        vec![(String::from("h"), 65535, String::from("replica"))]
    );
    assert_eq!(with_servers("[]").unwrap().shards.get("0").unwrap().servers.len(), 0);
    assert!(with_servers("[[\"h\", 65536, \"replica\"]]").is_err());
    assert!(with_servers("[[\"h\", -1, \"replica\"]]").is_err());
    assert!(with_servers("[[\"h\", 1]]").is_err());
    assert!(with_servers("[[\"h\", 1, \"replica\", \"more\"]]").is_err());
    assert!(with_servers("[[]]").is_err());
    assert!(with_servers("[[1, 1, \"replica\"]]").is_err());
    assert!(with_servers("[[\"h\", \"1\", \"replica\"]]").is_err());
    assert!(with_servers("[[\"h\", 1, 2]]").is_err());
    assert!(with_servers("[\"h\"]").is_err());
    assert!(with_servers("[[\"h\", 1, \"replica\"], [\"h\", 1]]").is_err());
}

#[test]
fn decoding_does_not_judge() {
    let config = with_servers("[[\"h\", 1, \"master\"], [\"h\", 1, \"master\"]]").unwrap();
    assert_eq!(config.shards.get("0").unwrap().servers.len(), 2);
    let config = decode("[shards.first]\n[query_router]\nsharding_function = \"md5\"\n").unwrap();
    assert!(config.shards.contains_key("first"));
    assert_eq!(config.query_router.sharding_function, "md5");
}

#[test]
fn document_keeps_every_kind_of_value() {
    let text = "b = \"x\"\na = 1\nc = [true, 1.5, 1979-05-27]\n[t]\nk = -3\n";
    let document = parse_document(text).unwrap();
    let root = match &document {
        Node::Table(root) => root,
        _ => panic!("the root is a table"),
    };
    assert_eq!(root.len(), 4);
    assert!(matches!(find(root, "a"), Some(Node::Integer(1))));
    match find(root, "b") {
        Some(Node::Text(text)) => assert_eq!(text, "x"),
        _ => panic!("b is text"),
    }
    match find(root, "c") {
        Some(Node::Array(items)) => {
            assert_eq!(items.len(), 3);
            assert!(matches!(items[0], Node::Boolean(true)));
            assert!(matches!(items[1], Node::Float));
            assert!(matches!(items[2], Node::Datetime));
        }
        _ => panic!("c is an array"),
    }
    match find(root, "t") {
        Some(Node::Table(entries)) => {
            assert_eq!(entries.len(), 1);
            assert_eq!(entries[0].0, "k");
            assert!(matches!(entries[0].1, Node::Integer(-3)));
        }
        _ => panic!("t is a table"),
    }
    assert!(find(root, "d").is_none());
    assert!(find(root, "k").is_none());
}

#[test]
fn document_that_is_no_table_writes_no_configuration() {
    assert!(decode_document(&Node::Integer(1)).is_err());
    assert!(decode_document(&Node::Array(vec![])).is_err());
    assert_eq!(decode_document(&Node::Table(vec![])).unwrap(), Config::default());
}

#[test]
fn first_entry_of_a_key_counts() {
    let document = Node::Table(vec![
        (String::from("path"), Node::Text(String::from("one.toml"))),
        (String::from("path"), Node::Integer(2)),
    ]);
    assert_eq!(decode_document(&document).unwrap().path, "one.toml");
}
