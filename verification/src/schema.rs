//! The configuration schema: every section, its mathematical view and its
//! default value.

use vstd::prelude::*;
use vstd::std_specs::cmp::PartialEqSpec;
use vstd::std_specs::cmp::PartialEqSpecImpl;
use crate::shards::ShardMap;
use crate::text::{decimal, decimal_string};

verus! {

/// Server role: primary or replica.
#[derive(Clone, Copy, Debug, PartialEq, Eq, Hash, Structural)]
pub enum Role {
    Primary,
    Replica,
}

/// Whether a role satisfies a wanted role, where no wanted role admits every
/// role.
pub open spec fn role_matches(role: Role, wanted: Option<Role>) -> bool {
    match wanted {
        None => true,
        Some(other) => role == other,
    }
}

impl Role {
    /// The role's name in configuration text.
    pub open spec fn name(self) -> Seq<char> {
        match self {
            Role::Primary => "primary"@,
            Role::Replica => "replica"@,
        }
    }

    /// The role's name in configuration text.
    pub fn to_string(&self) -> (text: String)
        ensures
            text@ == self.name(),
    {
        match *self {
            Role::Primary => String::from_str("primary"),
            Role::Replica => String::from_str("replica"),
        }
    }
}

impl PartialEq<Option<Role>> for Role {
    fn eq(&self, other: &Option<Role>) -> (equal: bool) {
        match other {
            None => true,
            Some(role) => *self == *role,
        }
    }
}

impl PartialEqSpecImpl<Option<Role>> for Role {
    open spec fn obeys_eq_spec() -> bool {
        true
    }

    open spec fn eq_spec(&self, other: &Option<Role>) -> bool {
        role_matches(*self, *other)
    }
}

impl PartialEq<Role> for Option<Role> {
    fn eq(&self, other: &Role) -> (equal: bool) {
        match *self {
            None => true,
            Some(role) => role == *other,
        }
    }
}

impl PartialEqSpecImpl<Role> for Option<Role> {
    open spec fn obeys_eq_spec() -> bool {
        true
    }

    open spec fn eq_spec(&self, other: &Role) -> bool {
        role_matches(*other, *self)
    }
}

/// The comparison of a role with a wanted role gives the same from either
/// side, and no wanted role matches every role.
pub proof fn wildcard_is_symmetric(role: Role, wanted: Option<Role>)
    ensures
        PartialEqSpec::eq_spec(&role, &wanted) == PartialEqSpec::eq_spec(&wanted, &role),
        PartialEqSpec::eq_spec(&role, &None::<Role>),
        PartialEqSpec::eq_spec(&None::<Role>, &role),
        PartialEqSpec::eq_spec(&role, &Some(role)),
{
}

/// What a [`User`] holds.
pub struct UserView {
    pub name: Seq<char>,
    pub password: Seq<char>,
}

/// PostgreSQL user.
#[derive(Debug, Eq, Hash)]
pub struct User {
    pub name: String,
    pub password: String,
}

impl View for User {
    type V = UserView;

    open spec fn view(&self) -> UserView {
        UserView { name: self.name@, password: self.password@ }
    }
}

/// The administrative account with an empty password.
pub open spec fn default_user() -> UserView {
    UserView { name: "postgres"@, password: Seq::empty() }
}

impl Default for User {
    fn default() -> (user: User)
        ensures
            user@ == default_user(),
    {
        User { name: String::from_str("postgres"), password: String::new() }
    }
}

impl Clone for User {
    fn clone(&self) -> (copy: User)
        ensures
            copy@ == self@,
    {
        User { name: self.name.clone(), password: self.password.clone() }
    }
}

impl PartialEq for User {
    fn eq(&self, other: &User) -> (equal: bool) {
        self.name == other.name && self.password == other.password
    }
}

impl PartialEqSpecImpl for User {
    open spec fn obeys_eq_spec() -> bool {
        true
    }

    open spec fn eq_spec(&self, other: &User) -> bool {
        self@ == other@
    }
}

/// What an optional text holds.
pub open spec fn optional_text(text: Option<String>) -> Option<Seq<char>> {
    match text {
        Some(t) => Some(t@),
        None => None,
    }
}

fn clone_optional_text(text: &Option<String>) -> (copy: Option<String>)
    ensures
        optional_text(copy) == optional_text(*text),
{
    match text {
        Some(t) => Some(t.clone()),
        None => None,
    }
}

fn same_optional_text(a: &Option<String>, b: &Option<String>) -> (same: bool)
    ensures
        same == (optional_text(*a) == optional_text(*b)),
{
    match a {
        Some(x) => match b {
            Some(y) => *x == *y,
            None => false,
        },
        None => b.is_none(),
    }
}

/// What an [`Address`] holds.
pub struct AddressView {
    pub id: usize,
    pub host: Seq<char>,
    pub port: Seq<char>,
    pub shard: usize,
    pub role: Role,
    pub replica_number: usize,
}

/// Address identifying a PostgreSQL server uniquely.
#[derive(Debug, Eq, Hash)]
pub struct Address {
    pub id: usize,
    pub host: String,
    pub port: String,
    pub shard: usize,
    pub role: Role,
    pub replica_number: usize,
}

impl View for Address {
    type V = AddressView;

    open spec fn view(&self) -> AddressView {
        AddressView {
            id: self.id,
            host: self.host@,
            port: self.port@,
            shard: self.shard,
            role: self.role,
            replica_number: self.replica_number,
        }
    }
}

/// The first replica of shard 0 on the local machine.
pub open spec fn default_address() -> AddressView {
    AddressView {
        id: 0,
        host: "127.0.0.1"@,
        port: "5432"@,
        shard: 0,
        role: Role::Replica,
        replica_number: 0,
    }
}

/// The name under which the statistics list an address: `shard_<N>_primary`
/// for a primary, `shard_<N>_replica_<K>` for a replica.
pub open spec fn address_name(address: AddressView) -> Seq<char> {
    match address.role {
        Role::Primary => "shard_"@ + decimal(address.shard as nat) + "_primary"@,
        Role::Replica => "shard_"@ + decimal(address.shard as nat) + "_replica_"@ + decimal(
            address.replica_number as nat,
        ),
    }
}

impl Default for Address {
    fn default() -> (address: Address)
        ensures
            address@ == default_address(),
    {
        Address {
            id: 0,
            host: String::from_str("127.0.0.1"),
            port: String::from_str("5432"),
            shard: 0,
            replica_number: 0,
            role: Role::Replica,
        }
    }
}

impl Clone for Address {
    fn clone(&self) -> (copy: Address)
        ensures
            copy@ == self@,
    {
        Address {
            id: self.id,
            host: self.host.clone(),
            port: self.port.clone(),
            shard: self.shard,
            role: self.role,
            replica_number: self.replica_number,
        }
    }
}

impl PartialEq for Address {
    fn eq(&self, other: &Address) -> (equal: bool) {
        self.id == other.id && self.host == other.host && self.port == other.port && self.shard
            == other.shard && self.role == other.role && self.replica_number
            == other.replica_number
    }
}

impl PartialEqSpecImpl for Address {
    open spec fn obeys_eq_spec() -> bool {
        true
    }

    open spec fn eq_spec(&self, other: &Address) -> bool {
        self@ == other@
    }
}

impl Address {
    /// Address name (aka database) used in `SHOW STATS`, `SHOW DATABASES`, and
    /// `SHOW POOLS`.
    pub fn name(&self) -> (name: String)
        ensures
            name@ == address_name(self@),
    {
        let mut name = String::from_str("shard_");
        let shard = decimal_string(self.shard as u64);
        name.append(shard.as_str());
        match self.role {
            Role::Primary => {
                name.append("_primary");
            },
            Role::Replica => {
                name.append("_replica_");
                let replica = decimal_string(self.replica_number as u64);
                name.append(replica.as_str());
            },
        }
        name
    }
}

/// What a [`General`] holds.
pub struct GeneralView {
    pub host: Seq<char>,
    pub port: i16,
    pub pool_size: u32,
    pub pool_mode: Seq<char>,
    pub connect_timeout: u64,
    pub healthcheck_timeout: u64,
    pub ban_time: i64,
    pub autoreload: bool,
    pub tls_certificate: Option<Seq<char>>,
    pub tls_private_key: Option<Seq<char>>,
}

/// General configuration.
#[derive(Debug)]
pub struct General {
    pub host: String,
    pub port: i16,
    pub pool_size: u32,
    pub pool_mode: String,
    pub connect_timeout: u64,
    pub healthcheck_timeout: u64,
    pub ban_time: i64,
    pub autoreload: bool,
    pub tls_certificate: Option<String>,
    pub tls_private_key: Option<String>,
}

impl View for General {
    type V = GeneralView;

    open spec fn view(&self) -> GeneralView {
        GeneralView {
            host: self.host@,
            port: self.port,
            pool_size: self.pool_size,
            pool_mode: self.pool_mode@,
            connect_timeout: self.connect_timeout,
            healthcheck_timeout: self.healthcheck_timeout,
            ban_time: self.ban_time,
            autoreload: self.autoreload,
            tls_certificate: optional_text(self.tls_certificate),
            tls_private_key: optional_text(self.tls_private_key),
        }
    }
}

/// The proxy-wide settings of a source that names none.
pub open spec fn default_general() -> GeneralView {
    GeneralView {
        host: "localhost"@,
        port: 5432,
        pool_size: 15,
        pool_mode: "transaction"@,
        connect_timeout: 5000,
        healthcheck_timeout: 1000,
        ban_time: 60,
        autoreload: false,
        tls_certificate: None,
        tls_private_key: None,
    }
}

impl Default for General {
    fn default() -> (general: General)
        ensures
            general@ == default_general(),
    {
        General {
            host: String::from_str("localhost"),
            port: 5432,
            pool_size: 15,
            pool_mode: String::from_str("transaction"),
            connect_timeout: 5000,
            healthcheck_timeout: 1000,
            ban_time: 60,
            autoreload: false,
            tls_certificate: None,
            tls_private_key: None,
        }
    }
}

impl Clone for General {
    fn clone(&self) -> (copy: General)
        ensures
            copy@ == self@,
    {
        General {
            host: self.host.clone(),
            port: self.port,
            pool_size: self.pool_size,
            pool_mode: self.pool_mode.clone(),
            connect_timeout: self.connect_timeout,
            healthcheck_timeout: self.healthcheck_timeout,
            ban_time: self.ban_time,
            autoreload: self.autoreload,
            tls_certificate: clone_optional_text(&self.tls_certificate),
            tls_private_key: clone_optional_text(&self.tls_private_key),
        }
    }
}

impl PartialEq for General {
    fn eq(&self, other: &General) -> (equal: bool) {
        self.host == other.host && self.port == other.port && self.pool_size == other.pool_size
            && self.pool_mode == other.pool_mode && self.connect_timeout == other.connect_timeout
            && self.healthcheck_timeout == other.healthcheck_timeout && self.ban_time
            == other.ban_time && self.autoreload == other.autoreload && same_optional_text(
            &self.tls_certificate,
            &other.tls_certificate,
        ) && same_optional_text(&self.tls_private_key, &other.tls_private_key)
    }
}

impl PartialEqSpecImpl for General {
    open spec fn obeys_eq_spec() -> bool {
        true
    }

    open spec fn eq_spec(&self, other: &General) -> bool {
        self@ == other@
    }
}

/// What one server entry of a shard holds: host, port and role name.
pub open spec fn server_view(server: (String, u16, String)) -> (Seq<char>, u16, Seq<char>) {
    (server.0@, server.1, server.2@)
}

/// What a list of server entries holds, in order.
pub open spec fn servers_view(servers: Seq<(String, u16, String)>) -> Seq<
    (Seq<char>, u16, Seq<char>),
> {
    servers.map_values(|server: (String, u16, String)| server_view(server))
}

/// What a [`Shard`] holds.
pub struct ShardView {
    pub servers: Seq<(Seq<char>, u16, Seq<char>)>,
    pub database: Seq<char>,
}

/// Shard configuration.
#[derive(Debug)]
pub struct Shard {
    pub servers: Vec<(String, u16, String)>,
    pub database: String,
}

impl View for Shard {
    type V = ShardView;

    open spec fn view(&self) -> ShardView {
        ShardView { servers: servers_view(self.servers@), database: self.database@ }
    }
}

/// One local primary serving the database `postgres`.
pub open spec fn default_shard() -> ShardView {
    ShardView { servers: seq![("localhost"@, 5432u16, "primary"@)], database: "postgres"@ }
}

fn clone_servers(servers: &Vec<(String, u16, String)>) -> (copy: Vec<(String, u16, String)>)
    ensures
        servers_view(copy@) == servers_view(servers@),
{
    let mut copy: Vec<(String, u16, String)> = Vec::new();
    let mut i: usize = 0;
    while i < servers.len()
        invariant
            i <= servers.len(),
            copy.len() == i,
            forall|j: int| 0 <= j < i ==> server_view(copy@[j]) == server_view(servers@[j]),
        decreases servers.len() - i,
    {
        let server = &servers[i];
        copy.push((server.0.clone(), server.1, server.2.clone()));
        i += 1;
    }
    copy
}

fn same_servers(a: &Vec<(String, u16, String)>, b: &Vec<(String, u16, String)>) -> (same: bool)
    ensures
        same == (servers_view(a@) == servers_view(b@)),
{
    if a.len() != b.len() {
        return false;
    }
    let mut i: usize = 0;
    while i < a.len()
        invariant
            i <= a.len(),
            a.len() == b.len(),
            forall|j: int| 0 <= j < i ==> server_view(a@[j]) == server_view(b@[j]),
        decreases a.len() - i,
    {
        let x = &a[i];
        let y = &b[i];
        if !(x.0 == y.0 && x.1 == y.1 && x.2 == y.2) {
            assert(servers_view(a@)[i as int] != servers_view(b@)[i as int]);
            return false;
        }
        i += 1;
    }
    assert(servers_view(a@) =~= servers_view(b@));
    true
}

impl Default for Shard {
    fn default() -> (shard: Shard)
        ensures
            shard@ == default_shard(),
    {
        let mut servers: Vec<(String, u16, String)> = Vec::new();
        servers.push((String::from_str("localhost"), 5432, String::from_str("primary")));
        assert(servers_view(servers@) =~= default_shard().servers);
        Shard { servers, database: String::from_str("postgres") }
    }
}

impl Clone for Shard {
    fn clone(&self) -> (copy: Shard)
        ensures
            copy@ == self@,
    {
        Shard { servers: clone_servers(&self.servers), database: self.database.clone() }
    }
}

impl PartialEq for Shard {
    fn eq(&self, other: &Shard) -> (equal: bool) {
        same_servers(&self.servers, &other.servers) && self.database == other.database
    }
}

impl PartialEqSpecImpl for Shard {
    open spec fn obeys_eq_spec() -> bool {
        true
    }

    open spec fn eq_spec(&self, other: &Shard) -> bool {
        self@ == other@
    }
}

/// What a [`QueryRouter`] holds.
pub struct QueryRouterView {
    pub default_role: Seq<char>,
    pub query_parser_enabled: bool,
    pub primary_reads_enabled: bool,
    pub sharding_function: Seq<char>,
}

/// Query Router configuration.
#[derive(Debug)]
pub struct QueryRouter {
    pub default_role: String,
    pub query_parser_enabled: bool,
    pub primary_reads_enabled: bool,
    pub sharding_function: String,
}

impl View for QueryRouter {
    type V = QueryRouterView;

    open spec fn view(&self) -> QueryRouterView {
        QueryRouterView {
            default_role: self.default_role@,
            query_parser_enabled: self.query_parser_enabled,
            primary_reads_enabled: self.primary_reads_enabled,
            sharding_function: self.sharding_function@,
        }
    }
}

/// Queries go to any server, unparsed; a primary may serve reads.
pub open spec fn default_query_router() -> QueryRouterView {
    QueryRouterView {
        default_role: "any"@,
        query_parser_enabled: false,
        primary_reads_enabled: true,
        sharding_function: "pg_bigint_hash"@,
    }
}

impl Default for QueryRouter {
    fn default() -> (router: QueryRouter)
        ensures
            router@ == default_query_router(),
    {
        QueryRouter {
            default_role: String::from_str("any"),
            query_parser_enabled: false,
            primary_reads_enabled: true,
            sharding_function: String::from_str("pg_bigint_hash"),
        }
    }
}

impl Clone for QueryRouter {
    fn clone(&self) -> (copy: QueryRouter)
        ensures
            copy@ == self@,
    {
        QueryRouter {
            default_role: self.default_role.clone(),
            query_parser_enabled: self.query_parser_enabled,
            primary_reads_enabled: self.primary_reads_enabled,
            sharding_function: self.sharding_function.clone(),
        }
    }
}

impl PartialEq for QueryRouter {
    fn eq(&self, other: &QueryRouter) -> (equal: bool) {
        self.default_role == other.default_role && self.query_parser_enabled
            == other.query_parser_enabled && self.primary_reads_enabled
            == other.primary_reads_enabled && self.sharding_function == other.sharding_function
    }
}

impl PartialEqSpecImpl for QueryRouter {
    open spec fn obeys_eq_spec() -> bool {
        true
    }

    open spec fn eq_spec(&self, other: &QueryRouter) -> bool {
        self@ == other@
    }
}

/// Where the configuration lives unless a path is given.
pub fn default_path() -> (path: String)
    ensures
        path@ == "pgcat.toml"@,
{
    String::from_str("pgcat.toml")
}

/// What a [`Config`] holds.
pub struct ConfigView {
    pub path: Seq<char>,
    pub general: GeneralView,
    pub user: UserView,
    pub shards: Map<Seq<char>, ShardView>,
    pub query_router: QueryRouterView,
}

/// Configuration wrapper.
#[derive(Debug)]
pub struct Config {
    pub path: String,
    pub general: General,
    pub user: User,
    pub shards: ShardMap,
    pub query_router: QueryRouter,
}

impl View for Config {
    type V = ConfigView;

    open spec fn view(&self) -> ConfigView {
        ConfigView {
            path: self.path@,
            general: self.general@,
            user: self.user@,
            shards: self.shards@,
            query_router: self.query_router@,
        }
    }
}

/// The shards of a source that names none: the default shard under the key
/// `1`.
pub open spec fn default_shards() -> Map<Seq<char>, ShardView> {
    Map::<Seq<char>, ShardView>::empty().insert("1"@, default_shard())
}

/// The configuration of an empty source.
pub open spec fn default_config() -> ConfigView {
    ConfigView {
        path: "pgcat.toml"@,
        general: default_general(),
        user: default_user(),
        shards: default_shards(),
        query_router: default_query_router(),
    }
}

impl Default for Config {
    fn default() -> (config: Config)
        ensures
            config@ == default_config(),
    {
        let mut shards = ShardMap::new();
        shards.insert(String::from_str("1"), Shard::default());
        Config {
            path: default_path(),
            general: General::default(),
            user: User::default(),
            shards,
            query_router: QueryRouter::default(),
        }
    }
}

impl Clone for Config {
    fn clone(&self) -> (copy: Config)
        ensures
            copy@ == self@,
    {
        Config {
            path: self.path.clone(),
            general: self.general.clone(),
            user: self.user.clone(),
            shards: self.shards.clone(),
            query_router: self.query_router.clone(),
        }
    }
}

impl PartialEq for Config {
    fn eq(&self, other: &Config) -> (equal: bool) {
        self.path == other.path && self.general == other.general && self.user == other.user
            && self.shards == other.shards && self.query_router == other.query_router
    }
}

impl PartialEqSpecImpl for Config {
    open spec fn obeys_eq_spec() -> bool {
        true
    }

    open spec fn eq_spec(&self, other: &Config) -> bool {
        self@ == other@
    }
}

} // verus!
