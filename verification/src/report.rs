//! A configuration as text: the lines that describe it at startup, and its
//! settings by name.

use vstd::prelude::*;
use vstd::hash_map::StringHashMap;
use vstd::std_specs::convert::FromSpecImpl;
use crate::schema::{Config, ConfigView};
use crate::text::{decimal, decimal_string, signed_decimal, signed_decimal_string};

verus! {

/// How a truth value is written.
pub open spec fn flag_text(flag: bool) -> Seq<char> {
    if flag {
        "true"@
    } else {
        "false"@
    }
}

fn flag_string(flag: bool) -> (text: String)
    ensures
        text@ == flag_text(flag),
{
    if flag {
        String::from_str("true")
    } else {
        String::from_str("false")
    }
}

fn line(label: &str, value: &str, unit: &str) -> (text: String)
    ensures
        text@ == label@ + value@ + unit@,
{
    let mut text = String::from_str(label);
    text.append(value);
    text.append(unit);
    text
}

/// The lines that describe `config`, in order: nine settings, then what it
/// says of TLS.
pub open spec fn description(config: ConfigView) -> Seq<Seq<char>> {
    let lines = seq![
        "Pool size: "@ + decimal(config.general.pool_size as nat),
        "Pool mode: "@ + config.general.pool_mode,
        "Ban time: "@ + signed_decimal(config.general.ban_time as int) + "s"@,
        "Healthcheck timeout: "@ + decimal(config.general.healthcheck_timeout as nat) + "ms"@,
        "Connection timeout: "@ + decimal(config.general.connect_timeout as nat) + "ms"@,
        "Sharding function: "@ + config.query_router.sharding_function,
        "Primary reads: "@ + flag_text(config.query_router.primary_reads_enabled),
        "Query router: "@ + flag_text(config.query_router.query_parser_enabled),
        "Number of shards: "@ + decimal(config.shards.len()),
    ];
    lines + match config.general.tls_certificate {
        Some(certificate) => match config.general.tls_private_key {
            Some(private_key) => seq![
                "TLS certificate: "@ + certificate,
                "TLS private key: "@ + private_key,
                "TLS support is enabled"@,
            ],
            None => seq!["TLS certificate: "@ + certificate],
        },
        None => seq!["TLS support is disabled"@],
    }
}

/// The settings of `config` that have a name, each written as text.
pub open spec fn settings(config: ConfigView) -> Map<Seq<char>, Seq<char>> {
    let general = config.general;
    let router = config.query_router;
    Map::<Seq<char>, Seq<char>>::empty()
        .insert("host"@, general.host)
        .insert("port"@, signed_decimal(general.port as int))
        .insert("pool_size"@, decimal(general.pool_size as nat))
        .insert("pool_mode"@, general.pool_mode)
        .insert("connect_timeout"@, decimal(general.connect_timeout as nat))
        .insert("healthcheck_timeout"@, decimal(general.healthcheck_timeout as nat))
        .insert("ban_time"@, signed_decimal(general.ban_time as int))
        .insert("default_role"@, router.default_role)
        .insert("query_parser_enabled"@, flag_text(router.query_parser_enabled))
        .insert("primary_reads_enabled"@, flag_text(router.primary_reads_enabled))
        .insert("sharding_function"@, router.sharding_function)
}

/// A table of settings by name.
pub type Settings = StringHashMap<String>;

/// Whether `table` holds exactly the settings `wanted`.
pub open spec fn holds_settings(
    table: Map<Seq<char>, String>,
    wanted: Map<Seq<char>, Seq<char>>,
) -> bool {
    &&& table.dom() == wanted.dom()
    &&& forall|name: Seq<char>| #[trigger] wanted.contains_key(name) ==> table[name]@ == wanted[name]
}

impl Config {
    /// The lines that describe the configuration, for the log.
    pub fn show(&self) -> (lines: Vec<String>)
        ensures
            lines.len() == description(self@).len(),
            forall|i: int| 0 <= i < lines.len() ==> (#[trigger] lines[i])@ == description(self@)[i],
    {
        let mut lines: Vec<String> = Vec::new();
        proof {
            reveal_strlit("");
        }
        lines.push(line("Pool size: ", decimal_string(self.general.pool_size as u64).as_str(), ""));
        lines.push(line("Pool mode: ", self.general.pool_mode.as_str(), ""));
        lines.push(line("Ban time: ", signed_decimal_string(self.general.ban_time).as_str(), "s"));
        lines.push(
            line(
                "Healthcheck timeout: ",
                decimal_string(self.general.healthcheck_timeout).as_str(),
                "ms",
            ),
        );
        lines.push(
            line("Connection timeout: ", decimal_string(self.general.connect_timeout).as_str(), "ms"),
        );
        lines.push(line("Sharding function: ", self.query_router.sharding_function.as_str(), ""));
        lines.push(
            line("Primary reads: ", flag_string(self.query_router.primary_reads_enabled).as_str(), ""),
        );
        lines.push(
            line("Query router: ", flag_string(self.query_router.query_parser_enabled).as_str(), ""),
        );
        lines.push(line("Number of shards: ", decimal_string(self.shards.len() as u64).as_str(), ""));
        match &self.general.tls_certificate {
            Some(certificate) => {
                lines.push(line("TLS certificate: ", certificate.as_str(), ""));
                match &self.general.tls_private_key {
                    Some(private_key) => {
                        lines.push(line("TLS private key: ", private_key.as_str(), ""));
                        lines.push(String::from_str("TLS support is enabled"));
                    },
                    None => {},
                }
            },
            None => {
                lines.push(String::from_str("TLS support is disabled"));
            },
        }
        lines
    }
}

impl From<&Config> for Settings {
    /// The settings of `config` by name.
    fn from(config: &Config) -> (table: Settings)
        ensures
            holds_settings(table@, settings(config@)),
    {
        let mut table: Settings = StringHashMap::new();
        table.insert(String::from_str("host"), config.general.host.clone());
        table.insert(String::from_str("port"), signed_decimal_string(config.general.port as i64));
        table.insert(String::from_str("pool_size"), decimal_string(config.general.pool_size as u64));
        table.insert(String::from_str("pool_mode"), config.general.pool_mode.clone());
        table.insert(
            String::from_str("connect_timeout"),
            decimal_string(config.general.connect_timeout),
        );
        table.insert(
            String::from_str("healthcheck_timeout"),
            decimal_string(config.general.healthcheck_timeout),
        );
        table.insert(String::from_str("ban_time"), signed_decimal_string(config.general.ban_time));
        table.insert(String::from_str("default_role"), config.query_router.default_role.clone());
        table.insert(
            String::from_str("query_parser_enabled"),
            flag_string(config.query_router.query_parser_enabled),
        );
        table.insert(
            String::from_str("primary_reads_enabled"),
            flag_string(config.query_router.primary_reads_enabled),
        );
        table.insert(
            String::from_str("sharding_function"),
            config.query_router.sharding_function.clone(),
        );
        table
    }
}

/// No specification function can build a table, so the conversion above says
/// in its own `ensures` what it returns.
impl FromSpecImpl<&Config> for Settings {
    open spec fn obeys_from_spec() -> bool {
        false
    }

    open spec fn from_spec(config: &Config) -> Settings {
        arbitrary()
    }
}

} // verus!
