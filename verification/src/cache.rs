//! Flag cache: set-once and get-or-empty over a pooled key-value store.
//!
//! Talking to the pool and to the store is the caller's part; deciding what
//! to ask for and what each answer means is this module's. A call moves
//! through two states, each a type of its own, so that the steps cannot be
//! taken out of order:
//!
//! ```text
//! Cache::set_flag -> SetFlag --connected--> SetIfAbsent --replied--> Result<(), _>
//! Cache::get_flag -> GetFlag --connected--> Get         --replied--> Result<String, _>
//! ```
//!
//! `SetFlag` and `GetFlag` ask for one connection from the pool. `connected`
//! takes the pool's answer: a failure ends the call, a connection moves into
//! the next state, which names the one command to issue on it. `replied` takes
//! the store's answer and consumes the state, and with it the connection: a
//! connection serves exactly one command of one call and is given up exactly
//! once, on every path.

use vstd::prelude::*;
use vstd::string::*;
use crate::errors::{result_view, CacheCause, CacheError, CacheErrorView};

verus! {

/// Whether a store error is of the kind `TypeError`: the answer was not of
/// the type that the caller asked for. It is how the store's client reports
/// a read of a key that is not there.
pub uninterp spec fn is_type_error(e: redis::RedisError) -> bool;

/// Calls `redis::RedisError::kind` and tells whether the kind is
/// `ErrorKind::TypeError`. The kind is read from the error value alone.
#[verifier::external_body]
fn has_type_error_kind(e: &redis::RedisError) -> (b: bool)
    ensures
        b == is_type_error(*e),
{
    matches!(e.kind(), redis::ErrorKind::TypeError)
}

/// The failure of the step `method_name` for the reason `error`.
pub open spec fn cache_error(method_name: Seq<char>, error: CacheCause) -> CacheErrorView {
    CacheErrorView::Cache { method_name, error }
}

/// Builds the failure of the step `method_name` for the reason `error`.
pub fn failed(method_name: &str, error: CacheCause) -> (e: CacheError)
    ensures
        e@ == cache_error(method_name@, error),
{
    CacheError::Cache { method_name: String::from_str(method_name), error }
}

/// The flag cache: a handle on the connection pool `P` of the store.
///
/// The handle itself holds no flag and no connection; every operation checks
/// one connection out of the pool and gives it back when it ends.
#[derive(Clone, Debug)]
pub struct Cache<P> {
    pool: P,
}

impl<P> View for Cache<P> {
    type V = P;

    closed spec fn view(&self) -> P {
        self.pool
    }
}

/// A `set_flag` call that waits for a connection.
#[derive(Debug)]
pub struct SetFlag {
    pub key: String,
    pub value: String,
}

/// A `set_flag` call that holds a connection: "set `key` to `value` if `key`
/// is absent" is the command to issue on it.
#[derive(Debug)]
pub struct SetIfAbsent<C> {
    pub connection: C,
    pub key: String,
    pub value: String,
}

/// A `get_flag` call that waits for a connection.
#[derive(Debug)]
pub struct GetFlag {
    pub key: String,
}

/// A `get_flag` call that holds a connection: "get `key`", read as a string,
/// is the command to issue on it.
#[derive(Debug)]
pub struct Get<C> {
    pub connection: C,
    pub key: String,
}

impl<P> Cache<P> {
    /// Wraps an established pool.
    pub fn new(pool: P) -> (cache: Self)
        ensures
            cache@ == pool,
    {
        Cache { pool }
    }

    /// The pool from which each operation takes its connection.
    pub fn pool(&self) -> (pool: &P)
        ensures
            *pool == self@,
    {
        &self.pool
    }

    /// Starts setting the flag `key` to `value` unless the store already
    /// holds a value for `key`. Next, a connection is taken from the pool.
    pub fn set_flag(&self, key: String, value: String) -> (call: SetFlag)
        ensures
            call.key == key,
            call.value == value,
    {
        SetFlag { key, value }
    }

    /// Starts reading the flag `key`. Next, a connection is taken from the pool.
    pub fn get_flag(&self, key: String) -> (call: GetFlag)
        ensures
            call.key == key,
    {
        GetFlag { key }
    }
}

impl SetFlag {
    /// Takes the pool's answer. Without a connection the call ends with the
    /// failure of `get_conn` and nothing is sent to the store; with one, the
    /// command for this call's key and value is to be issued on it.
    pub fn connected<C>(
        self,
        checkout: Result<C, mobc_redis::mobc::Error<redis::RedisError>>,
    ) -> (res: Result<SetIfAbsent<C>, CacheError>)
        ensures
            checkout matches Ok(connection) ==> res == Ok::<SetIfAbsent<C>, CacheError>(
                (SetIfAbsent { connection, key: self.key, value: self.value }),
            ),
            checkout matches Err(cause) ==> res is Err && res->Err_0@ == cache_error(
                "get_conn"@,
                CacheCause::Pool(cause),
            ),
    {
        match checkout {
            Ok(connection) => Ok(SetIfAbsent { connection, key: self.key, value: self.value }),
            Err(cause) => Err(failed("get_conn", CacheCause::Pool(cause))),
        }
    }
}

/// What a `set_flag` call returns once the store has answered its command.
pub open spec fn set_flag_outcome(reply: Result<(), redis::RedisError>) -> Result<
    (),
    CacheErrorView,
> {
    match reply {
        Ok(_) => Ok(()),
        Err(cause) => Err(cache_error("set_nx"@, CacheCause::Store(cause))),
    }
}

impl<C> SetIfAbsent<C> {
    /// Takes the store's answer and ends the call, giving up the connection.
    ///
    /// A command that did not fail is a success whether it wrote the value or
    /// found the key taken: the call does not tell the two apart, so setting
    /// a flag again is safe and never overwrites. A command that failed is
    /// the failure of `set_nx`.
    pub fn replied(self, reply: Result<(), redis::RedisError>) -> (res: Result<(), CacheError>)
        ensures
            result_view(res) == set_flag_outcome(reply),
    {
        match reply {
            Ok(_) => Ok(()),
            Err(cause) => Err(failed("set_nx", CacheCause::Store(cause))),
        }
    }
}

impl GetFlag {
    /// Takes the pool's answer. Without a connection the call ends with the
    /// failure of `get_conn` and nothing is sent to the store; with one, the
    /// read of this call's key is to be issued on it.
    pub fn connected<C>(
        self,
        checkout: Result<C, mobc_redis::mobc::Error<redis::RedisError>>,
    ) -> (res: Result<Get<C>, CacheError>)
        ensures
            checkout matches Ok(connection) ==> res == Ok::<Get<C>, CacheError>(
                (Get { connection, key: self.key }),
            ),
            checkout matches Err(cause) ==> res is Err && res->Err_0@ == cache_error(
                "get_conn"@,
                CacheCause::Pool(cause),
            ),
    {
        match checkout {
            Ok(connection) => Ok(Get { connection, key: self.key }),
            Err(cause) => Err(failed("get_conn", CacheCause::Pool(cause))),
        }
    }
}

/// What a failed read amounts to, given whether its error is a type error:
/// a type error means that the key is absent, which reads as the empty
/// string; any other error is the failure of `conn.get`.
pub open spec fn failed_read_outcome(cause: redis::RedisError, type_error: bool) -> Result<
    Seq<char>,
    CacheErrorView,
> {
    if type_error {
        Ok(Seq::<char>::empty())
    } else {
        Err(cache_error("conn.get"@, CacheCause::Store(cause)))
    }
}

/// What a `get_flag` call returns once the store has answered its command.
pub open spec fn get_flag_outcome(reply: Result<String, redis::RedisError>) -> Result<
    Seq<char>,
    CacheErrorView,
> {
    match reply {
        Ok(value) => Ok(value@),
        Err(cause) => failed_read_outcome(cause, is_type_error(cause)),
    }
}

/// Settles a read that failed with `cause`, where `type_error` says whether
/// `cause` is a type error.
pub fn settle_failed_read(cause: redis::RedisError, type_error: bool) -> (res: Result<
    String,
    CacheError,
>)
    ensures
        result_view(res) == failed_read_outcome(cause, type_error),
{
    if type_error {
        Ok(String::new())
    } else {
        Err(failed("conn.get", CacheCause::Store(cause)))
    }
}

impl<C> Get<C> {
    /// Takes the store's answer and ends the call, giving up the connection.
    ///
    /// A value is returned as it is. A type error, which is how a read of an
    /// absent key comes back, is no failure: the flag reads as the empty
    /// string. Any other error is the failure of `conn.get`.
    pub fn replied(self, reply: Result<String, redis::RedisError>) -> (res: Result<
        String,
        CacheError,
    >)
        ensures
            result_view(res) == get_flag_outcome(reply),
    {
        match reply {
            Ok(value) => Ok(value),
            Err(cause) => {
                let type_error = has_type_error_kind(&cause);
                settle_failed_read(cause, type_error)
            },
        }
    }
}

} // verus!
