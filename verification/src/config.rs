//! Strict configuration loader.
//!
//! The configuration file holds two independent top-level groups, `secrets`
//! and `proxy_settings`. Reading the file and decoding its text happen outside
//! this module; what arrives here is a [`Loaded`] value: either the failure of
//! one of those two steps, or the decoded document, in which every group and
//! every field may still be absent. The functions here turn that into a fully
//! populated configuration or into the first error, never into anything in
//! between.

use vstd::prelude::*;
use vstd::string::*;
use crate::errors::{result_view, ConfigCause, ConfigError, ConfigErrorView};

verus! {

/// Path of the configuration file, relative to the working directory.
pub const CONFIG_PATH: &'static str = "config.yaml";

/// Addresses and credentials needed to bind sockets and reach the flag store.
///
/// A value built by [`build_secrets_config`] holds, for each field, what the
/// document gave for it, as it was written: the loader insists that a field
/// is present and leaves it to the consumer of an address to parse it.
#[derive(Debug, Clone, PartialEq, Eq)]
pub struct SecretsConfig {
    pub store_address: String,
    pub store_password: String,
    pub proxy_address: String,
    pub metrics_address: String,
}

/// Mathematical value of a [`SecretsConfig`].
pub struct SecretsConfigView {
    pub store_address: Seq<char>,
    pub store_password: Seq<char>,
    pub proxy_address: Seq<char>,
    pub metrics_address: Seq<char>,
}

impl View for SecretsConfig {
    type V = SecretsConfigView;

    open spec fn view(&self) -> SecretsConfigView {
        SecretsConfigView {
            store_address: self.store_address@,
            store_password: self.store_password@,
            proxy_address: self.proxy_address@,
            metrics_address: self.metrics_address@,
        }
    }
}

/// One routing rule: traffic for `port` belongs to the team at `team_ip`.
#[derive(Debug, Clone, PartialEq, Eq)]
pub struct Target {
    pub port: u32,
    pub team_ip: String,
}

/// Mathematical value of a [`Target`].
pub struct TargetView {
    pub port: u32,
    pub team_ip: Seq<char>,
}

impl View for Target {
    type V = TargetView;

    open spec fn view(&self) -> TargetView {
        TargetView { port: self.port, team_ip: self.team_ip@ }
    }
}

/// What the dispatch layer routes by.
#[derive(Debug, Clone, PartialEq, Eq)]
pub struct ProxySettingsConfig {
    pub service_ports: Vec<u32>,
    pub team_ips: Vec<String>,
    pub targets: Vec<Target>,
}

/// Mathematical value of a [`ProxySettingsConfig`].
pub struct ProxySettingsConfigView {
    pub service_ports: Seq<u32>,
    pub team_ips: Seq<Seq<char>>,
    pub targets: Seq<TargetView>,
}

impl View for ProxySettingsConfig {
    type V = ProxySettingsConfigView;

    open spec fn view(&self) -> ProxySettingsConfigView {
        ProxySettingsConfigView {
            service_ports: self.service_ports@,
            team_ips: self.team_ips.deep_view(),
            targets: self.targets@.map_values(|t: Target| t@),
        }
    }
}

/// The `secrets` group as decoded: any field may be absent.
#[derive(Debug, Clone, PartialEq, Eq)]
pub struct SecretsGroup {
    pub store_address: Option<String>,
    pub store_password: Option<String>,
    pub proxy_address: Option<String>,
    pub metrics_address: Option<String>,
}

/// The document as far as the secrets loader reads it.
#[derive(Debug, Clone, PartialEq, Eq)]
pub struct SecretsDocument {
    pub secrets: Option<SecretsGroup>,
}

/// One element of the `targets` list as decoded: either field may be absent.
#[derive(Debug, Clone, PartialEq, Eq)]
pub struct TargetEntry {
    pub port: Option<u32>,
    pub team_ip: Option<String>,
}

/// The `proxy_settings` group as decoded: any key may be absent.
#[derive(Debug, Clone, PartialEq, Eq)]
pub struct ProxySettingsGroup {
    pub service_ports: Option<Vec<u32>>,
    pub team_ips: Option<Vec<String>>,
    pub targets: Option<Vec<TargetEntry>>,
}

/// The document as far as the proxy settings loader reads it.
#[derive(Debug, Clone, PartialEq, Eq)]
pub struct ProxySettingsDocument {
    pub proxy_settings: Option<ProxySettingsGroup>,
}

/// How reading and decoding the configuration file ended.
#[derive(Debug)]
pub enum Loaded<D> {
    /// The file could not be opened or read.
    Unreadable(std::io::Error),
    /// The file was read but its content is not a document of the expected
    /// structure.
    Malformed(serde_yaml::Error),
    /// The file was decoded into `D`.
    Document(D),
}

/// The error for a file at `path` that could not be opened because of `cause`.
pub open spec fn unreadable_error(path: Seq<char>, cause: std::io::Error) -> ConfigErrorView {
    ConfigErrorView::Etc {
        description: "couldn't open file `"@ + path + "`"@,
        error: ConfigCause::Io(cause),
    }
}

/// The error for a file whose content could not be decoded because of `cause`.
pub open spec fn malformed_error(cause: serde_yaml::Error) -> ConfigErrorView {
    ConfigErrorView::Etc {
        description: "couldn't read config values"@,
        error: ConfigCause::Decode(cause),
    }
}

/// The error for a document without the top-level group `key`.
pub open spec fn no_key(key: Seq<char>) -> ConfigErrorView {
    ConfigErrorView::NoKey { key }
}

/// The error for a group `group` without `key`; `value_example` shows the
/// operator what a value for it looks like.
pub open spec fn no_group_key(
    group: Seq<char>,
    key: Seq<char>,
    value_example: Seq<char>,
) -> ConfigErrorView {
    ConfigErrorView::NoGroupKey { group, key, value_example }
}

/// The error for a `targets` list with an element that lacks a field.
pub open spec fn no_target_field() -> ConfigErrorView {
    ConfigErrorView::NoListElement {
        list_name: "targets"@,
        element_example: "{ team_ip: 127.0.0.1, port: 4554 }"@,
    }
}

/// Maps a failure to open the file at `path` to the loader's error.
pub fn unreadable(path: &str, cause: std::io::Error) -> (e: ConfigError)
    ensures
        e@ == unreadable_error(path@, cause),
{
    let mut description = String::from_str("couldn't open file `");
    description.append(path);
    description.append("`");
    ConfigError::Etc { description, error: ConfigCause::Io(cause) }
}

/// Maps a failure to decode the file's content to the loader's error.
pub fn malformed(cause: serde_yaml::Error) -> (e: ConfigError)
    ensures
        e@ == malformed_error(cause),
{
    ConfigError::Etc {
        description: String::from_str("couldn't read config values"),
        error: ConfigCause::Decode(cause),
    }
}

/// Takes the top-level group `key` out of a document, or reports it missing.
pub fn require_group<G>(group: Option<G>, key: &str) -> (res: Result<G, ConfigError>)
    ensures
        group matches Some(g) ==> res == Ok::<G, ConfigError>(g),
        group is None ==> res is Err && res->Err_0@ == no_key(key@),
{
    match group {
        Some(g) => Ok(g),
        None => Err(ConfigError::NoKey { key: String::from_str(key) }),
    }
}

/// Takes the value of `key` out of the group `group`, or reports it missing
/// together with an example of a value.
pub fn require_key<T>(value: Option<T>, group: &str, key: &str, value_example: &str) -> (res:
    Result<T, ConfigError>)
    ensures
        value matches Some(v) ==> res == Ok::<T, ConfigError>(v),
        value is None ==> res is Err && res->Err_0@ == no_group_key(
            group@,
            key@,
            value_example@,
        ),
{
    match value {
        Some(v) => Ok(v),
        None => Err(
            ConfigError::NoGroupKey {
                group: String::from_str(group),
                key: String::from_str(key),
                value_example: String::from_str(value_example),
            },
        ),
    }
}

impl SecretsGroup {
    /// All four fields are present.
    pub open spec fn is_complete(&self) -> bool {
        &&& self.store_address is Some
        &&& self.store_password is Some
        &&& self.proxy_address is Some
        &&& self.metrics_address is Some
    }

    /// The configuration that a complete group stands for.
    pub open spec fn config(&self) -> SecretsConfigView
        recommends
            self.is_complete(),
    {
        SecretsConfigView {
            store_address: self.store_address->Some_0@,
            store_password: self.store_password->Some_0@,
            proxy_address: self.proxy_address->Some_0@,
            metrics_address: self.metrics_address->Some_0@,
        }
    }

    /// What validating the group yields: its configuration, or the error for
    /// the first absent field in the order in which the file lists them.
    pub open spec fn outcome(&self) -> Result<SecretsConfigView, ConfigErrorView> {
        if self.store_address is None {
            Err(no_group_key("secrets"@, "store_address"@, "127.0.0.1:2137"@))
        } else if self.store_password is None {
            Err(no_group_key("secrets"@, "store_password"@, "password"@))
        } else if self.proxy_address is None {
            Err(no_group_key("secrets"@, "proxy_address"@, "0.0.0.0:1337"@))
        } else if self.metrics_address is None {
            Err(no_group_key("secrets"@, "metrics_address"@, "0.0.0.0:8989"@))
        } else {
            Ok(self.config())
        }
    }
}

impl SecretsDocument {
    /// What validating the document yields.
    pub open spec fn outcome(&self) -> Result<SecretsConfigView, ConfigErrorView> {
        match self.secrets {
            None => Err(no_key("secrets"@)),
            Some(group) => group.outcome(),
        }
    }
}

/// What the secrets loader returns for each way in which loading can end.
pub open spec fn secrets_outcome(source: Loaded<SecretsDocument>) -> Result<
    SecretsConfigView,
    ConfigErrorView,
> {
    match source {
        Loaded::Unreadable(cause) => Err(unreadable_error(CONFIG_PATH@, cause)),
        Loaded::Malformed(cause) => Err(malformed_error(cause)),
        Loaded::Document(document) => document.outcome(),
    }
}

/// Builds the secrets configuration from what loading the file produced.
///
/// Succeeds exactly when the file was decoded, the `secrets` group is present
/// and all four of its fields are; the configuration then holds the
/// document's values unchanged. Otherwise the first failure is returned.
pub fn build_secrets_config(source: Loaded<SecretsDocument>) -> (res: Result<
    SecretsConfig,
    ConfigError,
>)
    ensures
        result_view(res) == secrets_outcome(source),
{
    let document = match source {
        Loaded::Unreadable(cause) => { return Err(unreadable(CONFIG_PATH, cause)); },
        Loaded::Malformed(cause) => { return Err(malformed(cause)); },
        Loaded::Document(document) => document,
    };
    let secrets = require_group(document.secrets, "secrets")?;
    let store_address = require_key(
        secrets.store_address,
        "secrets",
        "store_address",
        "127.0.0.1:2137",
    )?;
    let store_password = require_key(
        secrets.store_password,
        "secrets",
        "store_password",
        "password",
    )?;
    let proxy_address = require_key(
        secrets.proxy_address,
        "secrets",
        "proxy_address",
        "0.0.0.0:1337",
    )?;
    let metrics_address = require_key(
        secrets.metrics_address,
        "secrets",
        "metrics_address",
        "0.0.0.0:8989",
    )?;
    Ok(SecretsConfig { store_address, store_password, proxy_address, metrics_address })
}

impl TargetEntry {
    /// Both fields are present.
    pub open spec fn is_complete(&self) -> bool {
        self.port is Some && self.team_ip is Some
    }

    /// The routing rule that a complete element stands for.
    pub open spec fn target(&self) -> TargetView
        recommends
            self.is_complete(),
    {
        TargetView { port: self.port->Some_0, team_ip: self.team_ip->Some_0@ }
    }
}

/// Every element of the list has both its fields.
pub open spec fn all_complete(entries: Seq<TargetEntry>) -> bool {
    forall|i: int| 0 <= i < entries.len() ==> (#[trigger] entries[i]).is_complete()
}

/// The routing rules that a list of complete elements stands for, in order.
pub open spec fn targets_of(entries: Seq<TargetEntry>) -> Seq<TargetView>
    recommends
        all_complete(entries),
{
    entries.map_values(|e: TargetEntry| e.target())
}

/// What validating the `targets` list yields: one rule per element, in the
/// list's order, or the error as soon as any element lacks a field.
pub open spec fn targets_outcome(entries: Seq<TargetEntry>) -> Result<
    Seq<TargetView>,
    ConfigErrorView,
> {
    if all_complete(entries) {
        Ok(targets_of(entries))
    } else {
        Err(no_target_field())
    }
}

impl ProxySettingsGroup {
    /// All three keys are present and every element of `targets` has both fields.
    pub open spec fn is_complete(&self) -> bool {
        &&& self.service_ports is Some
        &&& self.team_ips is Some
        &&& self.targets is Some
        &&& all_complete(self.targets->Some_0@)
    }

    /// The configuration that a complete group stands for.
    pub open spec fn config(&self) -> ProxySettingsConfigView
        recommends
            self.is_complete(),
    {
        ProxySettingsConfigView {
            service_ports: self.service_ports->Some_0@,
            team_ips: self.team_ips->Some_0.deep_view(),
            targets: targets_of(self.targets->Some_0@),
        }
    }

    /// What validating the group yields: its configuration, or the error for
    /// the first absent key, or, with all keys present, the error for a
    /// malformed element of `targets`.
    pub open spec fn outcome(&self) -> Result<ProxySettingsConfigView, ConfigErrorView> {
        if self.service_ports is None {
            Err(no_group_key("proxy_settings"@, "service_ports"@, "[ 3444, 3445, 3446 ]"@))
        } else if self.team_ips is None {
            Err(
                no_group_key(
                    "proxy_settings"@,
                    "team_ips"@,
                    "[ 10.0.12.23, 10.0.12.24, 10.0.12.25 ]"@,
                ),
            )
        } else if self.targets is None {
            Err(
                no_group_key(
                    "proxy_settings"@,
                    "targets"@,
                    "[ { team_ip: 127.0.0.1, port: 4554 } ]"@,
                ),
            )
        } else if !all_complete(self.targets->Some_0@) {
            Err(no_target_field())
        } else {
            Ok(self.config())
        }
    }
}

impl ProxySettingsDocument {
    /// What validating the document yields.
    pub open spec fn outcome(&self) -> Result<ProxySettingsConfigView, ConfigErrorView> {
        match self.proxy_settings {
            None => Err(no_key("proxy_settings"@)),
            Some(group) => group.outcome(),
        }
    }
}

/// What the proxy settings loader returns for each way in which loading can end.
pub open spec fn proxy_settings_outcome(source: Loaded<ProxySettingsDocument>) -> Result<
    ProxySettingsConfigView,
    ConfigErrorView,
> {
    match source {
        Loaded::Unreadable(cause) => Err(unreadable_error(CONFIG_PATH@, cause)),
        Loaded::Malformed(cause) => Err(malformed_error(cause)),
        Loaded::Document(document) => document.outcome(),
    }
}

/// Turns one element of `targets` into a routing rule, or reports the list as
/// malformed when the element lacks its port or its address.
pub fn build_target(entry: &TargetEntry) -> (res: Result<Target, ConfigError>)
    ensures
        entry.is_complete() ==> res is Ok && res->Ok_0@ == entry.target(),
        !entry.is_complete() ==> res is Err && res->Err_0@ == no_target_field(),
{
    match (entry.port, &entry.team_ip) {
        (Some(port), Some(team_ip)) => Ok(Target { port, team_ip: team_ip.clone() }),
        _ => Err(
            ConfigError::NoListElement {
                list_name: String::from_str("targets"),
                element_example: String::from_str("{ team_ip: 127.0.0.1, port: 4554 }"),
            },
        ),
    }
}

/// Turns the `targets` list into routing rules, stopping at the first
/// malformed element: either every element becomes a rule or none is returned.
pub fn build_targets(entries: &Vec<TargetEntry>) -> (res: Result<Vec<Target>, ConfigError>)
    ensures
        match targets_outcome(entries@) {
            Ok(targets) => res is Ok && res->Ok_0@.map_values(|t: Target| t@) == targets,
            Err(e) => res is Err && res->Err_0@ == e,
        },
{
    let mut result: Vec<Target> = Vec::new();
    let mut i: usize = 0;
    while i < entries.len()
        invariant
            i <= entries.len(),
            result@.len() == i,
            forall|j: int| 0 <= j < i ==> (#[trigger] entries@[j]).is_complete(),
            forall|j: int| 0 <= j < i ==> (#[trigger] result@[j])@ == entries@[j].target(),
        decreases entries.len() - i,
    {
        match build_target(&entries[i]) {
            Ok(target) => result.push(target),
            Err(e) => { return Err(e); },
        }
        i += 1;
    }
    assert(result@.map_values(|t: Target| t@) =~= targets_of(entries@));
    Ok(result)
}

/// Builds the proxy settings from what loading the file produced.
///
/// Succeeds exactly when the file was decoded, the `proxy_settings` group is
/// present with its three keys, and every element of `targets` has both its
/// fields; the configuration then holds the document's values unchanged and
/// in order. Otherwise the first failure is returned.
pub fn build_proxy_settings_config(source: Loaded<ProxySettingsDocument>) -> (res: Result<
    ProxySettingsConfig,
    ConfigError,
>)
    ensures
        result_view(res) == proxy_settings_outcome(source),
{
    let document = match source {
        Loaded::Unreadable(cause) => { return Err(unreadable(CONFIG_PATH, cause)); },
        Loaded::Malformed(cause) => { return Err(malformed(cause)); },
        Loaded::Document(document) => document,
    };
    let proxy_settings = require_group(document.proxy_settings, "proxy_settings")?;
    let service_ports = require_key(
        proxy_settings.service_ports,
        "proxy_settings",
        "service_ports",
        "[ 3444, 3445, 3446 ]",
    )?;
    let team_ips = require_key(
        proxy_settings.team_ips,
        "proxy_settings",
        "team_ips",
        "[ 10.0.12.23, 10.0.12.24, 10.0.12.25 ]",
    )?;
    let entries = require_key(
        proxy_settings.targets,
        "proxy_settings",
        "targets",
        "[ { team_ip: 127.0.0.1, port: 4554 } ]",
    )?;
    let targets = build_targets(&entries)?;
    Ok(ProxySettingsConfig { service_ports, team_ips, targets })
}

} // verus!
