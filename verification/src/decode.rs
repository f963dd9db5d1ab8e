//! The parser: from a TOML document to a [`Config`].
//!
//! A field that the document leaves out takes its default, a key that the
//! schema does not know is passed over, and a field of the wrong kind or out of
//! its range fails the whole document.

use vstd::prelude::*;
use crate::document::{
    Node, Tree, find, lookup, lookup_passes_over, parse_document, table_of, toml_document, trees_of,
};
use crate::errors::ConfigError;
use crate::schema::{
    Config, ConfigView, General, GeneralView, QueryRouter, QueryRouterView, Shard, ShardView, User,
    UserView, default_config, default_general, default_query_router, default_shard, default_user,
    server_view, servers_view,
};
use crate::shards::ShardMap;

verus! {

/// The text under `key`: `default` where the table has no such key, nothing
/// where the value is no text.
pub open spec fn text_field(
    table: Seq<(Seq<char>, Tree)>,
    key: Seq<char>,
    default: Seq<char>,
) -> Option<Seq<char>> {
    match lookup(table, key) {
        None => Some(default),
        Some(Tree::Text(text)) => Some(text),
        Some(_) => None,
    }
}

/// The text under `key`, if the table has the key: nothing where the value is
/// no text.
pub open spec fn optional_text_field(table: Seq<(Seq<char>, Tree)>, key: Seq<char>) -> Option<
    Option<Seq<char>>,
> {
    match lookup(table, key) {
        None => Some(None),
        Some(Tree::Text(text)) => Some(Some(text)),
        Some(_) => None,
    }
}

/// The integer under `key`: `default` where the table has no such key, nothing
/// where the value is no integer or lies outside `low..=high`.
pub open spec fn integer_field(
    table: Seq<(Seq<char>, Tree)>,
    key: Seq<char>,
    default: int,
    low: int,
    high: int,
) -> Option<int> {
    match lookup(table, key) {
        None => Some(default),
        Some(Tree::Integer(i)) => if low <= i <= high {
            Some(i as int)
        } else {
            None
        },
        Some(_) => None,
    }
}

/// The truth value under `key`: `default` where the table has no such key,
/// nothing where the value is no truth value.
pub open spec fn flag_field(table: Seq<(Seq<char>, Tree)>, key: Seq<char>, default: bool) -> Option<
    bool,
> {
    match lookup(table, key) {
        None => Some(default),
        Some(Tree::Boolean(flag)) => Some(flag),
        Some(_) => None,
    }
}

/// The `general` section that `table` writes.
pub open spec fn general_of(table: Seq<(Seq<char>, Tree)>) -> Option<GeneralView> {
    let base = default_general();
    match (
        text_field(table, "host"@, base.host),
        integer_field(table, "port"@, base.port as int, i16::MIN as int, i16::MAX as int),
        integer_field(table, "pool_size"@, base.pool_size as int, 0, u32::MAX as int),
        text_field(table, "pool_mode"@, base.pool_mode),
        integer_field(table, "connect_timeout"@, base.connect_timeout as int, 0, i64::MAX as int),
        integer_field(
            table,
            "healthcheck_timeout"@,
            base.healthcheck_timeout as int,
            0,
            i64::MAX as int,
        ),
        integer_field(table, "ban_time"@, base.ban_time as int, i64::MIN as int, i64::MAX as int),
        flag_field(table, "autoreload"@, base.autoreload),
        optional_text_field(table, "tls_certificate"@),
        optional_text_field(table, "tls_private_key"@),
    ) {
        (
            Some(host),
            Some(port),
            Some(pool_size),
            Some(pool_mode),
            Some(connect_timeout),
            Some(healthcheck_timeout),
            Some(ban_time),
            Some(autoreload),
            Some(tls_certificate),
            Some(tls_private_key),
        ) => Some(
            GeneralView {
                host,
                port: port as i16,
                pool_size: pool_size as u32,
                pool_mode,
                connect_timeout: connect_timeout as u64,
                healthcheck_timeout: healthcheck_timeout as u64,
                ban_time: ban_time as i64,
                autoreload,
                tls_certificate,
                tls_private_key,
            },
        ),
        _ => None,
    }
}

/// The `user` section that `table` writes.
pub open spec fn user_of(table: Seq<(Seq<char>, Tree)>) -> Option<UserView> {
    let base = default_user();
    match (text_field(table, "name"@, base.name), text_field(table, "password"@, base.password)) {
        (Some(name), Some(password)) => Some(UserView { name, password }),
        _ => None,
    }
}

/// The `query_router` section that `table` writes.
pub open spec fn query_router_of(table: Seq<(Seq<char>, Tree)>) -> Option<QueryRouterView> {
    let base = default_query_router();
    match (
        text_field(table, "default_role"@, base.default_role),
        flag_field(table, "query_parser_enabled"@, base.query_parser_enabled),
        flag_field(table, "primary_reads_enabled"@, base.primary_reads_enabled),
        text_field(table, "sharding_function"@, base.sharding_function),
    ) {
        (
            Some(default_role),
            Some(query_parser_enabled),
            Some(primary_reads_enabled),
            Some(sharding_function),
        ) => Some(
            QueryRouterView {
                default_role,
                query_parser_enabled,
                primary_reads_enabled,
                sharding_function,
            },
        ),
        _ => None,
    }
}

/// The server that `item` writes: an array of a host, a port and a role name,
/// and of nothing else.
pub open spec fn server_of(item: Tree) -> Option<(Seq<char>, u16, Seq<char>)> {
    match item {
        Tree::Array(parts) => if parts.len() == 3 {
            match (parts[0], parts[1], parts[2]) {
                (Tree::Text(host), Tree::Integer(port), Tree::Text(role)) => if 0 <= port
                    <= u16::MAX {
                    Some((host, port as u16, role))
                } else {
                    None
                },
                _ => None,
            }
        } else {
            None
        },
        _ => None,
    }
}

/// The servers that `items` write, in order: nothing unless each item writes
/// one.
pub open spec fn servers_of(items: Seq<Tree>) -> Option<Seq<(Seq<char>, u16, Seq<char>)>> {
    if forall|i: int| 0 <= i < items.len() ==> server_of(#[trigger] items[i]) is Some {
        Some(items.map_values(|item: Tree| server_of(item).unwrap()))
    } else {
        None
    }
}

/// The shard that `table` writes.
pub open spec fn shard_of(table: Seq<(Seq<char>, Tree)>) -> Option<ShardView> {
    let base = default_shard();
    let servers = match lookup(table, "servers"@) {
        None => Some(base.servers),
        Some(Tree::Array(items)) => servers_of(items),
        Some(_) => None,
    };
    match (servers, text_field(table, "database"@, base.database)) {
        (Some(servers), Some(database)) => Some(ShardView { servers, database }),
        _ => None,
    }
}

/// The shards that `table` writes, each under its key: nothing unless each
/// value is a table that writes a shard.
pub open spec fn shards_of(table: Seq<(Seq<char>, Tree)>) -> Option<Map<Seq<char>, ShardView>>
    decreases table.len(),
{
    if table.len() == 0 {
        Some(Map::empty())
    } else {
        match (shards_of(table.drop_last()), table.last().1) {
            (Some(shards), Tree::Table(fields)) => match shard_of(fields) {
                Some(shard) => Some(shards.insert(table.last().0, shard)),
                None => None,
            },
            _ => None,
        }
    }
}

/// The configuration that `document` writes. A section that the document
/// leaves out is the default section.
pub open spec fn config_of(document: Tree) -> Option<ConfigView> {
    match document {
        Tree::Table(root) => {
            let base = default_config();
            let general = match lookup(root, "general"@) {
                None => Some(base.general),
                Some(Tree::Table(fields)) => general_of(fields),
                Some(_) => None,
            };
            let user = match lookup(root, "user"@) {
                None => Some(base.user),
                Some(Tree::Table(fields)) => user_of(fields),
                Some(_) => None,
            };
            let shards = match lookup(root, "shards"@) {
                None => Some(base.shards),
                Some(Tree::Table(entries)) => shards_of(entries),
                Some(_) => None,
            };
            let query_router = match lookup(root, "query_router"@) {
                None => Some(base.query_router),
                Some(Tree::Table(fields)) => query_router_of(fields),
                Some(_) => None,
            };
            match (text_field(root, "path"@, base.path), general, user, shards, query_router) {
                (Some(path), Some(general), Some(user), Some(shards), Some(query_router)) => Some(
                    ConfigView { path, general, user, shards, query_router },
                ),
                _ => None,
            }
        },
        _ => None,
    }
}

/// The configuration that the TOML text `text` writes.
pub open spec fn source_config(text: Seq<char>) -> Option<ConfigView> {
    match toml_document(text) {
        Some(document) => config_of(document),
        None => None,
    }
}

fn read_text(entries: &Vec<(String, Node)>, key: &str, default: &str) -> (field: Result<
    String,
    ConfigError,
>)
    ensures
        match field {
            Ok(text) => text_field(table_of(entries@), key@, default@) == Some(text@),
            Err(_) => text_field(table_of(entries@), key@, default@) is None,
        },
{
    match find(entries, key) {
        None => Ok(String::from_str(default)),
        Some(Node::Text(text)) => Ok(text.clone()),
        Some(_) => Err(ConfigError::BadConfig),
    }
}

fn read_optional_text(entries: &Vec<(String, Node)>, key: &str) -> (field: Result<
    Option<String>,
    ConfigError,
>)
    ensures
        match field {
            Ok(Some(text)) => optional_text_field(table_of(entries@), key@) == Some(Some(text@)),
            Ok(None) => optional_text_field(table_of(entries@), key@) == Some(
                None::<Seq<char>>,
            ),
            Err(_) => optional_text_field(table_of(entries@), key@) is None,
        },
{
    match find(entries, key) {
        None => Ok(None),
        Some(Node::Text(text)) => Ok(Some(text.clone())),
        Some(_) => Err(ConfigError::BadConfig),
    }
}

fn read_integer(entries: &Vec<(String, Node)>, key: &str, default: i64, low: i64, high: i64) -> (field:
    Result<i64, ConfigError>)
    ensures
        match field {
            Ok(i) => integer_field(table_of(entries@), key@, default as int, low as int, high as int)
                == Some(i as int),
            Err(_) => integer_field(
                table_of(entries@),
                key@,
                default as int,
                low as int,
                high as int,
            ) is None,
        },
{
    match find(entries, key) {
        None => Ok(default),
        Some(Node::Integer(i)) => if low <= *i && *i <= high {
            Ok(*i)
        } else {
            Err(ConfigError::BadConfig)
        },
        Some(_) => Err(ConfigError::BadConfig),
    }
}

fn read_flag(entries: &Vec<(String, Node)>, key: &str, default: bool) -> (field: Result<
    bool,
    ConfigError,
>)
    ensures
        match field {
            Ok(flag) => flag_field(table_of(entries@), key@, default) == Some(flag),
            Err(_) => flag_field(table_of(entries@), key@, default) is None,
        },
{
    match find(entries, key) {
        None => Ok(default),
        Some(Node::Boolean(flag)) => Ok(*flag),
        Some(_) => Err(ConfigError::BadConfig),
    }
}

fn decode_general(entries: &Vec<(String, Node)>) -> (general: Result<General, ConfigError>)
    ensures
        match general {
            Ok(decoded) => general_of(table_of(entries@)) == Some(decoded@),
            Err(_) => general_of(table_of(entries@)) is None,
        },
{
    let host = read_text(entries, "host", "localhost")?;
    let port = read_integer(entries, "port", 5432, i16::MIN as i64, i16::MAX as i64)?;
    let pool_size = read_integer(entries, "pool_size", 15, 0, u32::MAX as i64)?;
    let pool_mode = read_text(entries, "pool_mode", "transaction")?;
    let connect_timeout = read_integer(entries, "connect_timeout", 5000, 0, i64::MAX)?;
    let healthcheck_timeout = read_integer(entries, "healthcheck_timeout", 1000, 0, i64::MAX)?;
    let ban_time = read_integer(entries, "ban_time", 60, i64::MIN, i64::MAX)?;
    let autoreload = read_flag(entries, "autoreload", false)?;
    let tls_certificate = read_optional_text(entries, "tls_certificate")?;
    let tls_private_key = read_optional_text(entries, "tls_private_key")?;
    Ok(
        General {
            host,
            port: port as i16,
            pool_size: pool_size as u32,
            pool_mode,
            connect_timeout: connect_timeout as u64,
            healthcheck_timeout: healthcheck_timeout as u64,
            ban_time,
            autoreload,
            tls_certificate,
            tls_private_key,
        },
    )
}

fn decode_user(entries: &Vec<(String, Node)>) -> (user: Result<User, ConfigError>)
    ensures
        match user {
            Ok(decoded) => user_of(table_of(entries@)) == Some(decoded@),
            Err(_) => user_of(table_of(entries@)) is None,
        },
{
    let name = read_text(entries, "name", "postgres")?;
    let password = read_text(entries, "password", "")?;
    proof {
        reveal_strlit("");
        assert(""@ =~= Seq::<char>::empty());
    }
    Ok(User { name, password })
}

fn decode_query_router(entries: &Vec<(String, Node)>) -> (router: Result<QueryRouter, ConfigError>)
    ensures
        match router {
            Ok(decoded) => query_router_of(table_of(entries@)) == Some(decoded@),
            Err(_) => query_router_of(table_of(entries@)) is None,
        },
{
    let default_role = read_text(entries, "default_role", "any")?;
    let query_parser_enabled = read_flag(entries, "query_parser_enabled", false)?;
    let primary_reads_enabled = read_flag(entries, "primary_reads_enabled", true)?;
    let sharding_function = read_text(entries, "sharding_function", "pg_bigint_hash")?;
    Ok(QueryRouter { default_role, query_parser_enabled, primary_reads_enabled, sharding_function })
}

fn decode_server(item: &Node) -> (server: Result<(String, u16, String), ConfigError>)
    ensures
        match server {
            Ok(decoded) => server_of(item@) == Some(server_view(decoded)),
            Err(_) => server_of(item@) is None,
        },
{
    match item {
        Node::Array(parts) => {
            if parts.len() != 3 {
                return Err(ConfigError::BadConfig);
            }
            assert(forall|k: int| 0 <= k < 3 ==> trees_of(parts@)[k] == (#[trigger] parts[k])@);
            match (&parts[0], &parts[1], &parts[2]) {
                (Node::Text(host), Node::Integer(port), Node::Text(role)) => {
                    if 0 <= *port && *port <= 65535 {
                        Ok((host.clone(), *port as u16, role.clone()))
                    } else {
                        Err(ConfigError::BadConfig)
                    }
                },
                _ => Err(ConfigError::BadConfig),
            }
        },
        _ => Err(ConfigError::BadConfig),
    }
}

fn decode_servers(items: &Vec<Node>) -> (servers: Result<Vec<(String, u16, String)>, ConfigError>)
    ensures
        match servers {
            Ok(decoded) => servers_of(trees_of(items@)) == Some(servers_view(decoded@)),
            Err(_) => servers_of(trees_of(items@)) is None,
        },
{
    let ghost trees = trees_of(items@);
    let mut servers: Vec<(String, u16, String)> = Vec::new();
    let mut i: usize = 0;
    while i < items.len()
        invariant
            i <= items.len(),
            servers.len() == i,
            trees == trees_of(items@),
            forall|j: int|
                0 <= j < i ==> server_of(#[trigger] trees[j]) == Some(server_view(servers[j])),
        decreases items.len() - i,
    {
        match decode_server(&items[i]) {
            Ok(server) => {
                servers.push(server);
            },
            Err(error) => {
                assert(server_of(trees[i as int]) is None);
                return Err(error);
            },
        }
        i += 1;
    }
    Ok(servers)
}

fn decode_shard(entries: &Vec<(String, Node)>) -> (shard: Result<Shard, ConfigError>)
    ensures
        match shard {
            Ok(decoded) => shard_of(table_of(entries@)) == Some(decoded@),
            Err(_) => shard_of(table_of(entries@)) is None,
        },
{
    let servers = match find(entries, "servers") {
        None => Shard::default().servers,
        Some(Node::Array(items)) => decode_servers(items)?,
        Some(_) => {
            return Err(ConfigError::BadConfig);
        },
    };
    let database = read_text(entries, "database", "postgres")?;
    Ok(Shard { servers, database })
}

/// Where the shards of a table can be read, those of its beginning can.
proof fn shards_of_prefix(table: Seq<(Seq<char>, Tree)>, n: int)
    requires
        0 <= n <= table.len(),
        shards_of(table) is Some,
    ensures
        shards_of(table.take(n)) is Some,
    decreases table.len(),
{
    if n == table.len() {
        assert(table.take(n) =~= table);
    } else {
        shards_of_prefix(table.drop_last(), n);
        assert(table.drop_last().take(n) =~= table.take(n));
    }
}

fn decode_shards(entries: &Vec<(String, Node)>) -> (shards: Result<ShardMap, ConfigError>)
    ensures
        match shards {
            Ok(decoded) => shards_of(table_of(entries@)) == Some(decoded@),
            Err(_) => shards_of(table_of(entries@)) is None,
        },
{
    let ghost table = table_of(entries@);
    let mut shards = ShardMap::new();
    let mut i: usize = 0;
    while i < entries.len()
        invariant
            i <= entries.len(),
            table == table_of(entries@),
            shards_of(table.take(i as int)) == Some(shards@),
        decreases entries.len() - i,
    {
        let ghost longer = table.take(i + 1);
        assert(longer.drop_last() =~= table.take(i as int));
        let decoded = match &entries[i].1 {
            Node::Table(fields) => decode_shard(fields),
            _ => Err(ConfigError::BadConfig),
        };
        match decoded {
            Ok(shard) => {
                shards.insert(entries[i].0.clone(), shard);
            },
            Err(error) => {
                proof {
                    if shards_of(table) is Some {
                        shards_of_prefix(table, i + 1);
                    }
                }
                return Err(error);
            },
        }
        i += 1;
    }
    assert(table.take(entries.len() as int) =~= table);
    Ok(shards)
}

/// Decodes a document into a configuration.
pub fn decode_document(document: &Node) -> (config: Result<Config, ConfigError>)
    ensures
        match config {
            Ok(decoded) => config_of(document@) == Some(decoded@),
            Err(_) => config_of(document@) is None,
        },
{
    let root = match document {
        Node::Table(root) => root,
        _ => {
            return Err(ConfigError::BadConfig);
        },
    };
    let path = read_text(root, "path", "pgcat.toml")?;
    let general = match find(root, "general") {
        None => General::default(),
        Some(Node::Table(fields)) => decode_general(fields)?,
        Some(_) => {
            return Err(ConfigError::BadConfig);
        },
    };
    let user = match find(root, "user") {
        None => User::default(),
        Some(Node::Table(fields)) => decode_user(fields)?,
        Some(_) => {
            return Err(ConfigError::BadConfig);
        },
    };
    let shards = match find(root, "shards") {
        None => Config::default().shards,
        Some(Node::Table(entries)) => decode_shards(entries)?,
        Some(_) => {
            return Err(ConfigError::BadConfig);
        },
    };
    let query_router = match find(root, "query_router") {
        None => QueryRouter::default(),
        Some(Node::Table(fields)) => decode_query_router(fields)?,
        Some(_) => {
            return Err(ConfigError::BadConfig);
        },
    };
    Ok(Config { path, general, user, shards, query_router })
}

/// Decodes TOML text into a configuration: exactly the texts that write one
/// succeed.
pub fn decode(text: &str) -> (config: Result<Config, ConfigError>)
    ensures
        match config {
            Ok(decoded) => source_config(text@) == Some(decoded@),
            Err(_) => source_config(text@) is None,
        },
{
    match parse_document(text) {
        Ok(document) => decode_document(&document),
        Err(error) => Err(error),
    }
}

/// A document without entries writes the default configuration.
pub proof fn empty_document_is_default()
    ensures
        config_of(Tree::Table(Seq::empty())) == Some(default_config()),
{
}

/// An entry under a key that is none of the five that a document can have
/// changes nothing, wherever it stands.
pub proof fn unknown_key_is_passed_over(
    root: Seq<(Seq<char>, Tree)>,
    at: int,
    entry: (Seq<char>, Tree),
)
    requires
        0 <= at <= root.len(),
        entry.0 != "path"@,
        entry.0 != "general"@,
        entry.0 != "user"@,
        entry.0 != "shards"@,
        entry.0 != "query_router"@,
    ensures
        config_of(Tree::Table(root.insert(at, entry))) == config_of(Tree::Table(root)),
{
    lookup_passes_over(root, at, entry, "path"@);
    lookup_passes_over(root, at, entry, "general"@);
    lookup_passes_over(root, at, entry, "user"@);
    lookup_passes_over(root, at, entry, "shards"@);
    lookup_passes_over(root, at, entry, "query_router"@);
}

} // verus!
