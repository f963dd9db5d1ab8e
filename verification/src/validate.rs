//! The validator: the structural rules that a decoded configuration must meet
//! before it may become the active one.

use vstd::prelude::*;
use crate::schema::{
    Config, ConfigView, GeneralView, Shard, ShardView, default_config, server_view, servers_view,
};
use crate::shards::lists;
use crate::text::{digits_value, is_digits, parse_usize, same_text, unsigned_numeral};

verus! {

/// Whether `name` names a sharding function that the proxy has.
pub open spec fn supported_sharding_function(name: Seq<char>) -> bool {
    name == "pg_bigint_hash"@ || name == "sha1"@
}

/// Whether `name` names a role that a server can have.
pub open spec fn known_server_role(name: Seq<char>) -> bool {
    name == "primary"@ || name == "replica"@
}

/// Whether `name` names a role that queries can go to by default.
pub open spec fn known_default_role(name: Seq<char>) -> bool {
    name == "any"@ || name == "primary"@ || name == "replica"@
}

/// Whether `key` numbers a shard: an unsigned decimal numeral that fits in
/// `usize`.
pub open spec fn shard_key_ok(key: Seq<char>) -> bool {
    match unsigned_numeral(key) {
        Some(number) => number <= usize::MAX,
        None => false,
    }
}

/// Whether a server entry is marked as the primary.
pub open spec fn is_primary(server: (Seq<char>, u16, Seq<char>)) -> bool {
    server.2 == "primary"@
}

/// Whether no two of `servers` are both marked as the primary.
pub open spec fn at_most_one_primary(servers: Seq<(Seq<char>, u16, Seq<char>)>) -> bool {
    forall|i: int, j: int|
        #![trigger servers[i], servers[j]]
        0 <= i < j < servers.len() ==> !(is_primary(servers[i]) && is_primary(servers[j]))
}

/// Whether no two of `servers` have the same host, port and role.
pub open spec fn distinct_servers(servers: Seq<(Seq<char>, u16, Seq<char>)>) -> bool {
    forall|i: int, j: int|
        #![trigger servers[i], servers[j]]
        0 <= i < j < servers.len() ==> servers[i] != servers[j]
}

/// The rules on one shard: it has a server, each server has a known role, at
/// most one of them is the primary, and none is listed twice.
pub open spec fn shard_ok(shard: ShardView) -> bool {
    &&& shard.servers.len() >= 1
    &&& forall|i: int|
        0 <= i < shard.servers.len() ==> known_server_role((#[trigger] shard.servers[i]).2)
    &&& at_most_one_primary(shard.servers)
    &&& distinct_servers(shard.servers)
}

/// The rules that can be checked on the configuration alone.
pub open spec fn structure_ok(config: ConfigView) -> bool {
    &&& supported_sharding_function(config.query_router.sharding_function)
    &&& forall|key: Seq<char>| #[trigger]
        config.shards.contains_key(key) ==> shard_key_ok(key) && shard_ok(config.shards[key])
    &&& known_default_role(config.query_router.default_role)
}

/// What is known of one credential file: whether decoding it was tried, and
/// how that went.
#[derive(Clone, Copy, Debug, PartialEq, Eq, Structural)]
pub enum Credential {
    /// Nobody has tried to decode the file.
    Untried,
    /// The file decodes.
    Decoded,
    /// The file is missing or does not decode.
    Undecodable,
}

/// What the validator makes of a configuration, given what is known of its
/// credential files.
#[derive(Clone, Copy, Debug, PartialEq, Eq, Structural)]
pub enum Verdict {
    /// Every rule holds.
    Accepted,
    /// A rule is broken.
    Rejected,
    /// The rest hangs on whether the file at `general.tls_certificate` decodes.
    NeedsCertificate,
    /// The rest hangs on whether the file at `general.tls_private_key` decodes.
    NeedsPrivateKey,
}

/// The rule on TLS: a certificate, where one is set, must decode, and then a
/// private key must be set and decode too. Without a certificate nothing is
/// asked of the private key.
pub open spec fn tls_verdict(
    general: GeneralView,
    certificate: Credential,
    private_key: Credential,
) -> Verdict {
    if general.tls_certificate is None {
        Verdict::Accepted
    } else {
        match certificate {
            Credential::Untried => Verdict::NeedsCertificate,
            Credential::Undecodable => Verdict::Rejected,
            Credential::Decoded => if general.tls_private_key is None {
                Verdict::Rejected
            } else {
                match private_key {
                    Credential::Untried => Verdict::NeedsPrivateKey,
                    Credential::Undecodable => Verdict::Rejected,
                    Credential::Decoded => Verdict::Accepted,
                }
            },
        }
    }
}

/// The verdict on `config`: the structural rules first, then the rule on TLS.
pub open spec fn verdict(config: ConfigView, certificate: Credential, private_key: Credential) -> Verdict {
    if structure_ok(config) {
        tls_verdict(config.general, certificate, private_key)
    } else {
        Verdict::Rejected
    }
}

fn check_roles(servers: &Vec<(String, u16, String)>) -> (ok: bool)
    ensures
        ok == ((forall|i: int|
            0 <= i < servers.len() ==> known_server_role(
                (#[trigger] servers_view(servers@)[i]).2,
            )) && at_most_one_primary(servers_view(servers@))),
{
    let ghost views = servers_view(servers@);
    let mut primary: Option<usize> = None;
    let mut i: usize = 0;
    while i < servers.len()
        invariant
            i <= servers.len(),
            views == servers_view(servers@),
            forall|j: int| 0 <= j < i ==> known_server_role((#[trigger] views[j]).2),
            match primary {
                Some(at) => at < i && is_primary(views[at as int]) && forall|j: int|
                    0 <= j < i && j != at ==> !is_primary(#[trigger] views[j]),
                None => forall|j: int| 0 <= j < i ==> !is_primary(#[trigger] views[j]),
            },
        decreases servers.len() - i,
    {
        let role = servers[i].2.as_str();
        assert(views[i as int].2 == role@);
        if same_text(role, "primary") {
            match primary {
                Some(at) => {
                    return false;
                },
                None => {
                    primary = Some(i);
                },
            }
        } else if !same_text(role, "replica") {
            return false;
        }
        i += 1;
    }
    true
}

fn same_server(a: &(String, u16, String), b: &(String, u16, String)) -> (same: bool)
    ensures
        same == (server_view(*a) == server_view(*b)),
{
    a.0 == b.0 && a.1 == b.1 && a.2 == b.2
}

fn check_distinct(servers: &Vec<(String, u16, String)>) -> (ok: bool)
    ensures
        ok == distinct_servers(servers_view(servers@)),
{
    let ghost views = servers_view(servers@);
    let mut j: usize = 0;
    while j < servers.len()
        invariant
            j <= servers.len(),
            views == servers_view(servers@),
            forall|a: int, b: int|
                #![trigger views[a], views[b]]
                0 <= a < b < j ==> views[a] != views[b],
        decreases servers.len() - j,
    {
        let mut i: usize = 0;
        while i < j
            invariant
                i <= j < servers.len(),
                views == servers_view(servers@),
                forall|a: int| 0 <= a < i ==> #[trigger] views[a] != views[j as int],
            decreases j - i,
        {
            if same_server(&servers[i], &servers[j]) {
                assert(views[i as int] == views[j as int]);
                return false;
            }
            i += 1;
        }
        j += 1;
    }
    true
}

/// Checks the rules on one shard.
pub fn check_shard(shard: &Shard) -> (ok: bool)
    ensures
        ok == shard_ok(shard@),
{
    if shard.servers.len() == 0 {
        return false;
    }
    check_roles(&shard.servers) && check_distinct(&shard.servers)
}

/// Checks the rules that can be checked on the configuration alone.
pub fn check_structure(config: &Config) -> (ok: bool)
    ensures
        ok == structure_ok(config@),
{
    let sharding_function = config.query_router.sharding_function.as_str();
    if !same_text(sharding_function, "pg_bigint_hash") && !same_text(sharding_function, "sha1") {
        return false;
    }
    let entries = config.shards.entries();
    let mut i: usize = 0;
    while i < entries.len()
        invariant
            i <= entries.len(),
            lists(entries@, config.shards@),
            forall|j: int|
                0 <= j < i ==> shard_key_ok((#[trigger] entries[j]).0@) && shard_ok(entries[j].1@),
        decreases entries.len() - i,
    {
        let entry = &entries[i];
        assert(config@.shards.contains_key(entries[i as int].0@) && config@.shards[entries[i as int].0@]
            == entries[i as int].1@);
        if parse_usize(entry.0.as_str()).is_none() {
            return false;
        }
        if !check_shard(&entry.1) {
            return false;
        }
        i += 1;
    }
    let default_role = config.query_router.default_role.as_str();
    same_text(default_role, "any") || same_text(default_role, "primary") || same_text(
        default_role,
        "replica",
    )
}

/// Gives the verdict on `config`. `certificate` and `private_key` say what is
/// known of the files that `config.general` names; a caller starts with both
/// untried, decodes the file that a verdict asks for, and asks again.
pub fn validate(config: &Config, certificate: Credential, private_key: Credential) -> (outcome:
    Verdict)
    ensures
        outcome == verdict(config@, certificate, private_key),
{
    if !check_structure(config) {
        return Verdict::Rejected;
    }
    if config.general.tls_certificate.is_none() {
        return Verdict::Accepted;
    }
    match certificate {
        Credential::Untried => Verdict::NeedsCertificate,
        Credential::Undecodable => Verdict::Rejected,
        Credential::Decoded => {
            if config.general.tls_private_key.is_none() {
                return Verdict::Rejected;
            }
            match private_key {
                Credential::Untried => Verdict::NeedsPrivateKey,
                Credential::Undecodable => Verdict::Rejected,
                Credential::Decoded => Verdict::Accepted,
            }
        },
    }
}

/// The default configuration meets the structural rules.
pub proof fn default_config_is_valid()
    ensures
        structure_ok(default_config()),
{
    let config = default_config();
    reveal_strlit("1");
    assert forall|key: Seq<char>| #[trigger] config.shards.contains_key(key) implies shard_key_ok(
        key,
    ) && shard_ok(config.shards[key]) by {
        assert(digits_value(key) == 1) by {
            reveal_with_fuel(digits_value, 2);
        }
    }
}

/// The validator asks for a credential only while it is untried, and for the
/// private key only once the certificate decoded: a caller that decodes what
/// is asked for has a final verdict after two answers at most.
pub proof fn questions_end(config: ConfigView, certificate: Credential, private_key: Credential)
    ensures
        verdict(config, certificate, private_key) == Verdict::NeedsCertificate ==> certificate
            == Credential::Untried,
        verdict(config, certificate, private_key) == Verdict::NeedsPrivateKey ==> certificate
            == Credential::Decoded && private_key == Credential::Untried,
{
}

/// A configuration with a shard in which two servers are both marked as the
/// primary is rejected, whatever is known of its credentials.
pub proof fn two_primaries_are_rejected(
    config: ConfigView,
    key: Seq<char>,
    i: int,
    j: int,
    certificate: Credential,
    private_key: Credential,
)
    requires
        config.shards.contains_key(key),
        0 <= i < j < config.shards[key].servers.len(),
        is_primary(config.shards[key].servers[i]),
        is_primary(config.shards[key].servers[j]),
    ensures
        !shard_ok(config.shards[key]),
        verdict(config, certificate, private_key) == Verdict::Rejected,
{
}

/// A configuration with a shard that lists the same host, port and role twice
/// is rejected, whatever is known of its credentials.
pub proof fn duplicate_servers_are_rejected(
    config: ConfigView,
    key: Seq<char>,
    i: int,
    j: int,
    certificate: Credential,
    private_key: Credential,
)
    requires
        config.shards.contains_key(key),
        0 <= i < j < config.shards[key].servers.len(),
        config.shards[key].servers[i] == config.shards[key].servers[j],
    ensures
        !shard_ok(config.shards[key]),
        verdict(config, certificate, private_key) == Verdict::Rejected,
{
}

/// A configuration whose sharding function is neither `pg_bigint_hash` nor
/// `sha1` is rejected, whatever is known of its credentials.
pub proof fn unsupported_sharding_function_is_rejected(
    config: ConfigView,
    certificate: Credential,
    private_key: Credential,
)
    requires
        !supported_sharding_function(config.query_router.sharding_function),
    ensures
        verdict(config, certificate, private_key) == Verdict::Rejected,
{
}

/// A configuration that sets a certificate and no private key is never
/// accepted: the validator asks for the certificate, and rejects the
/// configuration once it knows whether the certificate decodes.
pub proof fn certificate_without_key_is_not_accepted(
    config: ConfigView,
    certificate: Credential,
    private_key: Credential,
)
    requires
        config.general.tls_certificate is Some,
        config.general.tls_private_key is None,
    ensures
        verdict(config, certificate, private_key) != Verdict::Accepted,
        verdict(config, certificate, private_key) != Verdict::NeedsPrivateKey,
        certificate != Credential::Untried ==> verdict(config, certificate, private_key)
            == Verdict::Rejected,
{
}

/// A configuration without a certificate is judged by its structure alone:
/// nothing is asked of its private key or of the credentials.
pub proof fn without_certificate_structure_decides(
    config: ConfigView,
    certificate: Credential,
    private_key: Credential,
)
    requires
        config.general.tls_certificate is None,
    ensures
        verdict(config, certificate, private_key) == if structure_ok(config) {
            Verdict::Accepted
        } else {
            Verdict::Rejected
        },
{
}

} // verus!
