//! What holds of the loader and of the cache for every input, proved from
//! the spec functions that the contracts in `config` and `cache` are stated
//! with.

use vstd::prelude::*;
use crate::cache::{cache_error, get_flag_outcome, is_type_error, set_flag_outcome};
use crate::config::{
    all_complete, no_group_key, no_key, no_target_field, proxy_settings_outcome, secrets_outcome,
    Loaded, ProxySettingsDocument, SecretsDocument,
};
use crate::errors::{CacheCause, ConfigErrorView};

verus! {

/// Round trip: for a document that holds both groups with every required
/// field, and every element of `targets` with both its fields, each loader
/// succeeds, and each field of the configuration it returns is the
/// document's value for that field; the lists keep their length and order.
pub proof fn complete_document_round_trips(
    secrets: SecretsDocument,
    settings: ProxySettingsDocument,
)
    requires
        secrets.secrets is Some,
        secrets.secrets->Some_0.is_complete(),
        settings.proxy_settings is Some,
        settings.proxy_settings->Some_0.is_complete(),
    ensures
        secrets_outcome(Loaded::Document(secrets)) is Ok,
        ({
            let group = secrets.secrets->Some_0;
            let config = secrets_outcome(Loaded::Document(secrets))->Ok_0;
            &&& config.store_address == group.store_address->Some_0@
            &&& config.store_password == group.store_password->Some_0@
            &&& config.proxy_address == group.proxy_address->Some_0@
            &&& config.metrics_address == group.metrics_address->Some_0@
        }),
        proxy_settings_outcome(Loaded::Document(settings)) is Ok,
        ({
            let group = settings.proxy_settings->Some_0;
            let entries = group.targets->Some_0@;
            let config = proxy_settings_outcome(Loaded::Document(settings))->Ok_0;
            &&& config.service_ports == group.service_ports->Some_0@
            &&& config.team_ips == group.team_ips->Some_0.deep_view()
            &&& config.targets.len() == entries.len()
            &&& forall|i: int|
                0 <= i < entries.len() ==> {
                    &&& (#[trigger] config.targets[i]).port == entries[i].port->Some_0
                    &&& config.targets[i].team_ip == entries[i].team_ip->Some_0@
                }
        }),
{
}

/// No partial configuration: the secrets loader succeeds exactly on a decoded
/// document whose `secrets` group is present and complete.
pub proof fn secrets_load_iff_complete(source: Loaded<SecretsDocument>)
    ensures
        secrets_outcome(source) is Ok <==> {
            &&& source matches Loaded::Document(document)
            &&& document.secrets matches Some(group)
            &&& group.is_complete()
        },
{
}

/// No partial configuration: the proxy settings loader succeeds exactly on a
/// decoded document whose `proxy_settings` group is present with its three
/// keys and with no malformed element in `targets`.
pub proof fn proxy_settings_load_iff_complete(source: Loaded<ProxySettingsDocument>)
    ensures
        proxy_settings_outcome(source) is Ok <==> {
            &&& source matches Loaded::Document(document)
            &&& document.proxy_settings matches Some(group)
            &&& group.is_complete()
        },
{
}

/// A document without its group fails with the missing top-level key that
/// names the group, whatever else the document holds.
pub proof fn missing_group_is_named(secrets: SecretsDocument, settings: ProxySettingsDocument)
    ensures
        secrets.secrets is None ==> secrets_outcome(Loaded::Document(secrets)) is Err
            && secrets_outcome(Loaded::Document(secrets))->Err_0 == no_key("secrets"@),
        settings.proxy_settings is None ==> proxy_settings_outcome(Loaded::Document(settings))
            is Err && proxy_settings_outcome(Loaded::Document(settings))->Err_0 == no_key(
            "proxy_settings"@,
        ),
{
}

/// A `secrets` group from which `store_password` was removed, and which has
/// its `store_address`, fails with the missing key within a group that names
/// `secrets` and `store_password`, whatever its other fields hold.
pub proof fn missing_store_password_is_named(secrets: SecretsDocument)
    requires
        secrets.secrets is Some,
        secrets.secrets->Some_0.store_address is Some,
        secrets.secrets->Some_0.store_password is None,
    ensures
        secrets_outcome(Loaded::Document(secrets)) is Err,
        secrets_outcome(Loaded::Document(secrets))->Err_0 == no_group_key(
            "secrets"@,
            "store_password"@,
            "password"@,
        ),
{
}

/// Every failure of the secrets loader on a decoded document names what is
/// missing: the `secrets` group, or one key of it, which is then absent from
/// the document.
pub proof fn secrets_failure_names_an_absent_key(secrets: SecretsDocument)
    requires
        secrets_outcome(Loaded::Document(secrets)) is Err,
    ensures
        ({
            let e = secrets_outcome(Loaded::Document(secrets))->Err_0;
            ||| e == no_key("secrets"@) && secrets.secrets is None
            ||| secrets.secrets matches Some(group) && e matches ConfigErrorView::NoGroupKey {
                group: name,
                key,
                value_example,
            } && name == "secrets"@ && {
                ||| key == "store_address"@ && group.store_address is None
                ||| key == "store_password"@ && group.store_password is None
                ||| key == "proxy_address"@ && group.proxy_address is None
                ||| key == "metrics_address"@ && group.metrics_address is None
            }
        }),
{
}

/// Fail fast: with the three keys of `proxy_settings` present, one element of
/// `targets` that lacks a field, at whatever index, fails the whole load with
/// the malformed list element that names `targets`; no routing rule is
/// returned for the elements around it.
pub proof fn malformed_target_fails_the_load(settings: ProxySettingsDocument, index: int)
    requires
        settings.proxy_settings is Some,
        settings.proxy_settings->Some_0.service_ports is Some,
        settings.proxy_settings->Some_0.team_ips is Some,
        settings.proxy_settings->Some_0.targets is Some,
        0 <= index < settings.proxy_settings->Some_0.targets->Some_0@.len(),
        !settings.proxy_settings->Some_0.targets->Some_0@[index].is_complete(),
    ensures
        proxy_settings_outcome(Loaded::Document(settings)) is Err,
        proxy_settings_outcome(Loaded::Document(settings))->Err_0 == no_target_field(),
        no_target_field() matches ConfigErrorView::NoListElement { list_name, .. } && list_name
            == "targets"@,
{
    let entries = settings.proxy_settings->Some_0.targets->Some_0@;
    assert(!all_complete(entries)) by {
        assert(!entries[index].is_complete());
    }
}

/// The message of each structured configuration error ends with its example.
pub proof fn message_ends_with_the_example(e: ConfigErrorView)
    ensures
        e matches ConfigErrorView::NoGroupKey { value_example, .. } ==> e.message().subrange(
            e.message().len() - value_example.len(),
            e.message().len() as int,
        ) == value_example,
        e matches ConfigErrorView::NoListElement { element_example, .. }
            ==> e.message().subrange(
            e.message().len() - element_example.len(),
            e.message().len() as int,
        ) == element_example,
{
    match e {
        ConfigErrorView::NoGroupKey { group, key, value_example } => {
            let head = "key `"@ + key + "` is missing in group `"@ + group + "`, example: "@;
            assert(e.message() == head + value_example);
            assert((head + value_example).subrange(
                (head + value_example).len() - value_example.len(),
                (head + value_example).len() as int,
            ) =~= value_example);
        },
        ConfigErrorView::NoListElement { list_name, element_example } => {
            let head = "list `"@ + list_name + "` has a malformed element, example: "@;
            assert(e.message() == head + element_example);
            assert((head + element_example).subrange(
                (head + element_example).len() - element_example.len(),
                (head + element_example).len() as int,
            ) =~= element_example);
        },
        _ => {},
    }
}

/// Setting a flag succeeds whenever its command did not fail: the outcome
/// does not depend on whether the key was already there, so a second
/// `set_flag` for a key, with whatever value, is no error.
pub proof fn acknowledged_set_is_a_success(reply: Result<(), redis::RedisError>)
    ensures
        set_flag_outcome(reply) is Ok <==> reply is Ok,
        reply matches Err(cause) ==> set_flag_outcome(reply)->Err_0 == cache_error(
            "set_nx"@,
            CacheCause::Store(cause),
        ),
{
}

/// Reading a flag never fails with a type error: a read that comes back with
/// one, as the read of an absent key does, yields the empty string, and every
/// error that `get_flag` does return wraps a store error of another kind
/// under the name `conn.get`.
pub proof fn absent_key_reads_as_empty(reply: Result<String, redis::RedisError>)
    ensures
        reply matches Ok(value) ==> get_flag_outcome(reply) is Ok && get_flag_outcome(reply)->Ok_0
            == value@,
        reply matches Err(cause) && is_type_error(cause) ==> get_flag_outcome(reply) is Ok
            && get_flag_outcome(reply)->Ok_0 == Seq::<char>::empty(),
        get_flag_outcome(reply) is Err ==> reply is Err && !is_type_error(reply->Err_0)
            && get_flag_outcome(reply)->Err_0 == cache_error(
            "conn.get"@,
            CacheCause::Store(reply->Err_0),
        ),
{
}

/// The store after the command "set `key` to `value` if `key` is absent" on
/// a store that holds `flags`: a key that has a value keeps it.
pub open spec fn after_set_if_absent(
    flags: Map<Seq<char>, Seq<char>>,
    key: Seq<char>,
    value: Seq<char>,
) -> Map<Seq<char>, Seq<char>> {
    if flags.contains_key(key) {
        flags
    } else {
        flags.insert(key, value)
    }
}

/// `reply` is what a read of `key` brings back from a store that holds
/// `flags`: the value where there is one, a type error where there is none.
pub open spec fn answers_read(
    flags: Map<Seq<char>, Seq<char>>,
    key: Seq<char>,
    reply: Result<String, redis::RedisError>,
) -> bool {
    if flags.contains_key(key) {
        reply matches Ok(value) && value@ == flags[key]
    } else {
        reply matches Err(cause) && is_type_error(cause)
    }
}

/// First writer wins: on a store that holds `flags`, let `key` be set to
/// `first` and then to `second`, neither command failing, and let `key` then
/// be read. Both `set_flag` calls succeed, and `get_flag` returns the value
/// that `key` had before the two calls or, if it had none, `first`; it never
/// returns `second` in place of an earlier value.
pub proof fn first_writer_wins(
    flags: Map<Seq<char>, Seq<char>>,
    key: Seq<char>,
    first: Seq<char>,
    second: Seq<char>,
    first_reply: Result<(), redis::RedisError>,
    second_reply: Result<(), redis::RedisError>,
    read_reply: Result<String, redis::RedisError>,
)
    requires
        first_reply is Ok,
        second_reply is Ok,
        answers_read(
            after_set_if_absent(after_set_if_absent(flags, key, first), key, second),
            key,
            read_reply,
        ),
    ensures
        set_flag_outcome(first_reply) is Ok,
        set_flag_outcome(second_reply) is Ok,
        get_flag_outcome(read_reply) is Ok,
        get_flag_outcome(read_reply)->Ok_0 == (if flags.contains_key(key) {
            flags[key]
        } else {
            first
        }),
{
}

/// A key that the store does not hold reads as the empty string, not as an
/// error.
pub proof fn unset_key_reads_as_empty(
    flags: Map<Seq<char>, Seq<char>>,
    key: Seq<char>,
    read_reply: Result<String, redis::RedisError>,
)
    requires
        !flags.contains_key(key),
        answers_read(flags, key, read_reply),
    ensures
        get_flag_outcome(read_reply) is Ok,
        get_flag_outcome(read_reply)->Ok_0 == Seq::<char>::empty(),
{
}

} // verus!
