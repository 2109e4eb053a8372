//! Error types of the configuration loader and of the flag cache.
//!
//! The underlying causes (`std::io::Error`, `serde_yaml::Error`,
//! `redis::RedisError`, `mobc::Error`) are carried through untouched; the
//! library never looks inside them except for the one question the cache asks
//! of a store error (see `cache`).

use vstd::prelude::*;
use vstd::string::*;

verus! {

/// `std::io::Error`, carried as an opaque value.
#[verifier::external_type_specification]
#[verifier::external_body]
pub struct ExIoError(std::io::Error);

/// `serde_yaml::Error`, carried as an opaque value.
#[verifier::external_type_specification]
#[verifier::external_body]
pub struct ExYamlError(serde_yaml::Error);

/// `redis::RedisError`, carried as an opaque value.
#[verifier::external_type_specification]
#[verifier::external_body]
pub struct ExRedisError(redis::RedisError);

/// `mobc::Error<E>`, the error of a pool checkout, carried as an opaque value.
#[verifier::external_type_specification]
#[verifier::external_body]
#[verifier::reject_recursive_types(E)]
pub struct ExPoolError<E>(mobc_redis::mobc::Error<E>);

/// A `Result` seen through the views of its two sides.
pub open spec fn result_view<T: View, E: View>(r: Result<T, E>) -> Result<T::V, E::V> {
    match r {
        Ok(t) => Ok(t@),
        Err(e) => Err(e@),
    }
}

/// What went wrong underneath a generic configuration failure.
#[derive(Debug)]
pub enum ConfigCause {
    /// The configuration file could not be opened or read.
    Io(std::io::Error),
    /// The file was read but is not a document of the expected structure.
    Decode(serde_yaml::Error),
}

/// Why loading the configuration failed. Every variant is fatal to startup.
#[derive(Debug)]
pub enum ConfigError {
    /// A failure outside the document's content, with a description and its cause.
    Etc { description: String, error: ConfigCause },
    /// A top-level group is missing from the document.
    NoKey { key: String },
    /// A key is missing inside a group that is present.
    NoGroupKey { group: String, key: String, value_example: String },
    /// An element of a list lacks one of its fields.
    NoListElement { list_name: String, element_example: String },
}

/// Mathematical value of a [`ConfigError`].
pub enum ConfigErrorView {
    Etc { description: Seq<char>, error: ConfigCause },
    NoKey { key: Seq<char> },
    NoGroupKey { group: Seq<char>, key: Seq<char>, value_example: Seq<char> },
    NoListElement { list_name: Seq<char>, element_example: Seq<char> },
}

impl View for ConfigError {
    type V = ConfigErrorView;

    open spec fn view(&self) -> ConfigErrorView {
        match *self {
            ConfigError::Etc { description, error } => ConfigErrorView::Etc {
                description: description@,
                error,
            },
            ConfigError::NoKey { key } => ConfigErrorView::NoKey { key: key@ },
            ConfigError::NoGroupKey { group, key, value_example } => ConfigErrorView::NoGroupKey {
                group: group@,
                key: key@,
                value_example: value_example@,
            },
            ConfigError::NoListElement { list_name, element_example } => {
                ConfigErrorView::NoListElement {
                    list_name: list_name@,
                    element_example: element_example@,
                }
            },
        }
    }
}

impl ConfigErrorView {
    /// The text shown to the operator. A missing group is named; a missing key
    /// and a malformed list element are named and followed by the example
    /// that shows how to write them; a generic failure shows its description.
    pub open spec fn message(self) -> Seq<char> {
        match self {
            ConfigErrorView::Etc { description, .. } => description,
            ConfigErrorView::NoKey { key } => "key `"@ + key + "` is missing"@,
            ConfigErrorView::NoGroupKey { group, key, value_example } => "key `"@ + key
                + "` is missing in group `"@ + group + "`, example: "@ + value_example,
            ConfigErrorView::NoListElement { list_name, element_example } => "list `"@ + list_name
                + "` has a malformed element, example: "@ + element_example,
        }
    }
}

impl ConfigError {
    /// Renders the error for the operator.
    pub fn message(&self) -> (text: String)
        ensures
            text@ == self@.message(),
    {
        match self {
            ConfigError::Etc { description, .. } => description.clone(),
            ConfigError::NoKey { key } => {
                let mut text = String::from_str("key `");
                text.append(key.as_str());
                text.append("` is missing");
                text
            },
            ConfigError::NoGroupKey { group, key, value_example } => {
                let mut text = String::from_str("key `");
                text.append(key.as_str());
                text.append("` is missing in group `");
                text.append(group.as_str());
                text.append("`, example: ");
                text.append(value_example.as_str());
                text
            },
            ConfigError::NoListElement { list_name, element_example } => {
                let mut text = String::from_str("list `");
                text.append(list_name.as_str());
                text.append("` has a malformed element, example: ");
                text.append(element_example.as_str());
                text
            },
        }
    }
}

/// What went wrong underneath a cache failure.
#[derive(Debug)]
pub enum CacheCause {
    /// The pool could not hand out a connection.
    Pool(mobc_redis::mobc::Error<redis::RedisError>),
    /// The store command failed on a connection that was handed out.
    Store(redis::RedisError),
}

/// Why a flag operation failed.
#[derive(Debug)]
pub enum CacheError {
    /// A step of a cache operation failed; `method_name` says which one.
    Cache { method_name: String, error: CacheCause },
}

/// Mathematical value of a [`CacheError`].
pub enum CacheErrorView {
    Cache { method_name: Seq<char>, error: CacheCause },
}

impl View for CacheError {
    type V = CacheErrorView;

    open spec fn view(&self) -> CacheErrorView {
        match *self {
            CacheError::Cache { method_name, error } => CacheErrorView::Cache {
                method_name: method_name@,
                error,
            },
        }
    }
}

} // verus!
