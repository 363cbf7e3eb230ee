use vstd::prelude::*;
use vstd::string::*;

use crate::auth::{basic_auth, basic_auth_value};
use crate::text::{join_text, has_prefix, starts_with};

verus! {

/// What the service puts in place of a variable that the environment lacks.
pub open spec fn missing_notice(key: Seq<char>) -> Seq<char> {
    "Environment variable "@ + key + " not found"@
}

/// The beginning by which a looked-up value is taken for a missing variable.
pub open spec fn missing_marker() -> Seq<char> {
    "Environment variable"@
}

/// The value that the service uses for the variable `key`, given what the
/// environment holds for it.
pub open spec fn env_value(key: Seq<char>, found: Option<Seq<char>>) -> Seq<char> {
    match found {
        Some(v) => v,
        None => missing_notice(key),
    }
}

/// The value of the environment variable `key`, given the result of looking
/// it up: the value itself, or a notice that names the missing variable.
pub fn get_env_value(key: &str, found: Option<String>) -> (r: String)
    ensures
        r@ == env_value(key@, match found { Some(v) => Some(v@), None => None }),
{
    match found {
        Some(v) => v,
        None => {
            let s = join_text("Environment variable ", key);
            join_text(s.as_str(), " not found")
        },
    }
}

/// Whether a looked-up value is the notice of a missing variable.
pub fn is_missing_notice(value: &str) -> (r: bool)
    ensures
        r == has_prefix(value@, missing_marker()),
{
    starts_with(value, "Environment variable")
}

/// The variables that the service needs, in the order in which they are checked.
pub open spec fn required_names() -> Seq<Seq<char>> {
    seq!["BITCOIN_RPC_USER"@, "BITCOIN_RPC_PASS"@, "BITCOIN_RPC_HOST"@, "BITCOIN_RPC_PORT"@]
}

/// The names of the variables that the service needs, in the order in which
/// they are checked.
pub fn required_env_vars() -> (r: Vec<&'static str>)
    ensures
        r@.map_values(|s: &'static str| s@) == required_names(),
{
    let mut r = Vec::new();
    r.push("BITCOIN_RPC_USER");
    r.push("BITCOIN_RPC_PASS");
    r.push("BITCOIN_RPC_HOST");
    r.push("BITCOIN_RPC_PORT");
    assert(r@.map_values(|s: &'static str| s@) =~= required_names());
    r
}

/// Checks the looked-up values of the required variables, given in the order
/// of [`required_env_vars`]. The first value that is the notice of a missing
/// variable makes the check fail with the name of that variable.
pub fn validate_env_vars(values: &Vec<String>) -> (r: Result<(), String>)
    requires
        values@.len() == required_names().len(),
    ensures
        r is Ok <==> forall|i: int| 0 <= i < values@.len() ==> !has_prefix(#[trigger] values@[i]@, missing_marker()),
        r matches Err(name) ==> exists|i: int| {
            &&& 0 <= i < values@.len()
            &&& has_prefix(#[trigger] values@[i]@, missing_marker())
            &&& forall|j: int| 0 <= j < i ==> !has_prefix(values@[j]@, missing_marker())
            &&& name@ == required_names()[i]
        },
{
    let names = required_env_vars();
    let mut i: usize = 0;
    while i < values.len()
        invariant
            values@.len() == required_names().len(),
            names@.map_values(|s: &'static str| s@) == required_names(),
            i <= values@.len(),
            forall|j: int| 0 <= j < i ==> !has_prefix(#[trigger] values@[j]@, missing_marker()),
        decreases values@.len() - i,
    {
        if is_missing_notice(values[i].as_str()) {
            let name = String::from_str(names[i]);
            assert(names@.map_values(|s: &'static str| s@)[i as int] == names@[i as int]@);
            return Err(name);
        }
        i = i + 1;
    }
    Ok(())
}

/// The address of the node's JSON-RPC server.
pub open spec fn rpc_url_of(host: Seq<char>, port: Seq<char>) -> Seq<char> {
    "http://"@ + host + ":"@ + port + "/"@
}

/// `http://{host}:{port}/`.
pub fn rpc_url(host: &str, port: &str) -> (r: String)
    ensures
        r@ == rpc_url_of(host@, port@),
{
    let s = join_text("http://", host);
    let s = join_text(s.as_str(), ":");
    let s = join_text(s.as_str(), port);
    join_text(s.as_str(), "/")
}

/// Where and how the service reaches the node.
pub struct RpcConfig {
    pub url: String,
    pub user: String,
    pub password: String,
}

impl RpcConfig {
    /// The configuration made of the looked-up values of the variables.
    pub fn from_env_values(host: &str, port: &str, user: String, password: String) -> (r: RpcConfig)
        ensures
            r.url@ == rpc_url_of(host@, port@),
            r.user@ == user@,
            r.password@ == password@,
    {
        RpcConfig { url: rpc_url(host, port), user, password }
    }

    /// The `Authorization` header value of every call to the node.
    pub fn authorization(&self) -> (r: String)
        ensures
            r@ == basic_auth(self.user@, self.password@),
    {
        basic_auth_value(self.user.as_str(), self.password.as_str())
    }
}

/// A variable that the environment lacks is always reported as missing.
pub proof fn lemma_absent_variable_is_missing(key: Seq<char>)
    ensures
        has_prefix(env_value(key, None), missing_marker()),
{
    reveal_strlit("Environment variable ");
    reveal_strlit("Environment variable");
    let v = env_value(key, None);
    assert(v.subrange(0, missing_marker().len() as int) =~= missing_marker());
}

/// The looked-up values of the required variables, given what the
/// environment holds for each of them.
pub open spec fn looked_up_values(found: Seq<Option<Seq<char>>>) -> Seq<Seq<char>> {
    Seq::new(found.len(), |i: int| env_value(required_names()[i], found[i]))
}

/// Where no value that the environment holds begins with the marker, the
/// looked-up values pass the check of [`validate_env_vars`] exactly when the
/// environment holds every required variable.
pub proof fn lemma_validation_detects_absence(found: Seq<Option<Seq<char>>>)
    requires
        found.len() == required_names().len(),
        forall|i: int| 0 <= i < found.len() && #[trigger] found[i] is Some
            ==> !has_prefix(found[i]->0, missing_marker()),
    ensures
        (forall|i: int| 0 <= i < found.len() ==> !has_prefix(#[trigger] looked_up_values(found)[i], missing_marker()))
            <==> (forall|i: int| 0 <= i < found.len() ==> #[trigger] found[i] is Some),
{
    let values = looked_up_values(found);
    if forall|i: int| 0 <= i < found.len() ==> !has_prefix(#[trigger] values[i], missing_marker()) {
        assert forall|i: int| 0 <= i < found.len() implies #[trigger] found[i] is Some by {
            if found[i] is None {
                lemma_absent_variable_is_missing(required_names()[i]);
                assert(!has_prefix(values[i], missing_marker()));
            }
        }
    }
}

} // verus!
