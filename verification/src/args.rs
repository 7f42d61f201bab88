//! Reading the arguments of an RPC request, and the errors a request can be
//! refused with before any service runs.
use vstd::prelude::*;
use vstd::string::StringExecFns;

use crate::json::{spec_as_i64, spec_as_u64, spec_get, JsonValue};

verus! {

/// Why a request is refused while its arguments are read.
#[derive(Debug, PartialEq, Eq)]
pub enum RpcError {
    /// The argument named is missing or is not a string.
    MissingString(&'static str),
    /// The argument named is missing or is not a boolean.
    MissingBoolean(&'static str),
    /// The argument named is a non-negative integer above `u32::MAX`.
    OutOfRangeU32(&'static str),
    /// The object argument named (`provider`, `updates`, `settings`, `config`)
    /// is missing.
    MissingArgument(&'static str),
    /// `authProvider` names neither GitHub Copilot nor Codex OAuth.
    UnsupportedAuthProvider(String),
    /// No handler is registered under the command.
    NotImplemented(String),
}

/// The text sent back for an error.
pub open spec fn error_text(e: RpcError) -> Seq<char> {
    match e {
        RpcError::MissingString(key) => "Missing string argument: "@ + key@,
        RpcError::MissingBoolean(key) => "Missing boolean argument: "@ + key@,
        RpcError::OutOfRangeU32(key) => "Argument out of range for u32: "@ + key@,
        RpcError::MissingArgument(key) => "Missing "@ + key@ + " argument"@,
        RpcError::UnsupportedAuthProvider(p) => "Unsupported auth provider: "@ + p@,
        RpcError::NotImplemented(c) => "Web RPC command is not implemented yet: "@ + c@,
    }
}

impl RpcError {
    /// The text sent back for this error.
    pub fn message(&self) -> (r: String)
        ensures
            r@ == error_text(*self),
    {
        match self {
            RpcError::MissingString(key) => String::from_str("Missing string argument: ").concat(key),
            RpcError::MissingBoolean(key) => String::from_str("Missing boolean argument: ").concat(
                key,
            ),
            RpcError::OutOfRangeU32(key) => String::from_str(
                "Argument out of range for u32: ",
            ).concat(key),
            RpcError::MissingArgument(key) => String::from_str("Missing ").concat(key).concat(
                " argument",
            ),
            RpcError::UnsupportedAuthProvider(p) => String::from_str(
                "Unsupported auth provider: ",
            ).concat(p.as_str()),
            RpcError::NotImplemented(c) => String::from_str(
                "Web RPC command is not implemented yet: ",
            ).concat(c.as_str()),
        }
    }
}

pub open spec fn spec_arg(args: JsonValue, key: &str) -> Option<JsonValue> {
    spec_get(args, key@)
}

pub open spec fn spec_string_arg(args: JsonValue, key: &'static str) -> Result<String, RpcError> {
    match spec_arg(args, key) {
        Some(JsonValue::Str(s)) => Ok(s),
        _ => Err(RpcError::MissingString(key)),
    }
}

pub open spec fn spec_optional_string_arg(args: JsonValue, key: &str) -> Option<String> {
    match spec_arg(args, key) {
        Some(JsonValue::Str(s)) => Some(s),
        _ => None,
    }
}

pub open spec fn spec_bool_arg(args: JsonValue, key: &'static str) -> Result<bool, RpcError> {
    match spec_arg(args, key) {
        Some(JsonValue::Bool(b)) => Ok(b),
        _ => Err(RpcError::MissingBoolean(key)),
    }
}

pub open spec fn spec_bool_arg_or(args: JsonValue, key: &str, default: bool) -> bool {
    match spec_arg(args, key) {
        Some(JsonValue::Bool(b)) => b,
        _ => default,
    }
}

pub open spec fn spec_optional_i64_arg(args: JsonValue, key: &str) -> Option<i64> {
    match spec_arg(args, key) {
        Some(v) => spec_as_i64(v),
        None => None,
    }
}

pub open spec fn spec_u32_arg(args: JsonValue, key: &'static str, default: u32) -> Result<
    u32,
    RpcError,
> {
    match spec_arg(args, key) {
        Some(v) => match spec_as_u64(v) {
            Some(n) => if n <= u32::MAX {
                Ok(n as u32)
            } else {
                Err(RpcError::OutOfRangeU32(key))
            },
            None => Ok(default),
        },
        None => Ok(default),
    }
}

pub open spec fn spec_payload_arg(args: JsonValue, key: &'static str) -> Result<
    JsonValue,
    RpcError,
> {
    match spec_arg(args, key) {
        Some(v) => Ok(v),
        None => Err(RpcError::MissingArgument(key)),
    }
}

/// The argument `key`, if the arguments are an object that has it.
pub fn arg<'a>(args: &'a JsonValue, key: &str) -> (r: Option<&'a JsonValue>)
    ensures
        match r {
            Some(v) => spec_arg(*args, key) == Some(*v),
            None => spec_arg(*args, key) is None,
        },
{
    args.get(key)
}

/// A required string argument.
pub fn string_arg(args: &JsonValue, key: &'static str) -> (r: Result<String, RpcError>)
    ensures
        r == spec_string_arg(*args, key),
{
    match arg(args, key) {
        Some(v) => match v.as_str() {
            Some(s) => Ok(s.clone()),
            None => Err(RpcError::MissingString(key)),
        },
        None => Err(RpcError::MissingString(key)),
    }
}

/// An optional string argument; anything but a string counts as absent.
pub fn optional_string_arg(args: &JsonValue, key: &str) -> (r: Option<String>)
    ensures
        r == spec_optional_string_arg(*args, key),
{
    match arg(args, key) {
        Some(v) => match v.as_str() {
            Some(s) => Some(s.clone()),
            None => None,
        },
        None => None,
    }
}

/// A required boolean argument.
pub fn bool_arg(args: &JsonValue, key: &'static str) -> (r: Result<bool, RpcError>)
    ensures
        r == spec_bool_arg(*args, key),
{
    match arg(args, key) {
        Some(v) => match v.as_bool() {
            Some(b) => Ok(b),
            None => Err(RpcError::MissingBoolean(key)),
        },
        None => Err(RpcError::MissingBoolean(key)),
    }
}

/// An optional boolean argument with a default for anything but a boolean.
pub fn bool_arg_or(args: &JsonValue, key: &str, default: bool) -> (r: bool)
    ensures
        r == spec_bool_arg_or(*args, key, default),
{
    match arg(args, key) {
        Some(v) => match v.as_bool() {
            Some(b) => b,
            None => default,
        },
        None => default,
    }
}

/// An optional integer argument that fits in `i64`.
pub fn optional_i64_arg(args: &JsonValue, key: &str) -> (r: Option<i64>)
    ensures
        r == spec_optional_i64_arg(*args, key),
{
    match arg(args, key) {
        Some(v) => v.as_i64(),
        None => None,
    }
}

/// An optional `u32` argument: absent or not a non-negative integer gives
/// `default`; a non-negative integer above `u32::MAX` is an error.
pub fn u32_arg(args: &JsonValue, key: &'static str, default: u32) -> (r: Result<u32, RpcError>)
    ensures
        r == spec_u32_arg(*args, key, default),
{
    let number = match arg(args, key) {
        Some(v) => v.as_u64(),
        None => None,
    };
    match number {
        Some(value) => {
            if value <= u32::MAX as u64 {
                Ok(value as u32)
            } else {
                Err(RpcError::OutOfRangeU32(key))
            }
        },
        None => Ok(default),
    }
}

/// A required object argument, copied out of the arguments.
pub fn payload_arg(args: &JsonValue, key: &'static str) -> (r: Result<JsonValue, RpcError>)
    ensures
        r == spec_payload_arg(*args, key),
{
    match arg(args, key) {
        Some(v) => Ok(v.deep_clone()),
        None => Err(RpcError::MissingArgument(key)),
    }
}

/// The `provider` argument of the provider commands; the host decodes it.
pub fn parse_provider(args: &JsonValue) -> (r: Result<JsonValue, RpcError>)
    ensures
        r == spec_payload_arg(*args, "provider"),
{
    payload_arg(args, "provider")
}

/// The `app` argument of the per-application commands; the application it
/// names is resolved by the host.
pub fn parse_app(args: &JsonValue) -> (r: Result<String, RpcError>)
    ensures
        r == spec_string_arg(*args, "app"),
{
    string_arg(args, "app")
}

/// A string argument is the text of the member `key`; any other member,
/// or none, is refused as missing.
pub proof fn lemma_string_arg_is_the_text(args: JsonValue, key: &'static str)
    ensures
        spec_get(args, key@) matches Some(JsonValue::Str(s)) ==> spec_string_arg(args, key) == Ok::<
            String,
            RpcError,
        >(s),
        !(spec_get(args, key@) matches Some(JsonValue::Str(_))) ==> spec_string_arg(args, key) == Err::<
            String,
            RpcError,
        >(RpcError::MissingString(key)),
{
}

/// A `u32` argument is the whole number the member `key` holds, refused
/// when it is larger than `u32::MAX`; without such a number (no member, or
/// one that is not a non-negative whole number) it is `default`.
pub proof fn lemma_u32_arg_reads_the_number(args: JsonValue, key: &'static str, default: u32)
    ensures
        spec_get(args, key@) is None ==> spec_u32_arg(args, key, default) == Ok::<u32, RpcError>(default),
        spec_get(args, key@) matches Some(v) && spec_as_u64(v) is None ==> spec_u32_arg(args, key, default)
            == Ok::<u32, RpcError>(default),
        spec_get(args, key@) matches Some(v) ==> (spec_as_u64(v) matches Some(n) ==> (n <= u32::MAX
            ==> spec_u32_arg(args, key, default) == Ok::<u32, RpcError>(n as u32))),
        spec_get(args, key@) matches Some(v) ==> (spec_as_u64(v) matches Some(n) ==> (n > u32::MAX
            ==> spec_u32_arg(args, key, default) == Err::<u32, RpcError>(RpcError::OutOfRangeU32(key)))),
{
}

/// A flag with a default is the boolean the member `key` holds, and the
/// default otherwise.
pub proof fn lemma_bool_arg_or_reads_the_flag(args: JsonValue, key: &'static str, default: bool)
    ensures
        spec_get(args, key@) matches Some(JsonValue::Bool(b)) ==> spec_bool_arg_or(args, key, default) == b,
        !(spec_get(args, key@) matches Some(JsonValue::Bool(_))) ==> spec_bool_arg_or(args, key, default)
            == default,
{
}

} // verus!
