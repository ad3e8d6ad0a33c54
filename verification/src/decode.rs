//! Decoding the platform's JSON responses into the typed records the watcher
//! works on. The JSON tree itself is handled by serde_json behind trusted
//! wrappers; what each call computes from the body is given a name, and the
//! decoding here is verified to return exactly the named pieces of the body,
//! or the error that says which piece is missing.

use vstd::prelude::*;
use vstd::string::StringExecFns;

use crate::state::{parse_state, state_of, Deployment};

verus! {

#[verifier::external_type_specification]
#[verifier::external_body]
pub struct ExValue(serde_json::Value);

// What serde_json::from_str returns for a body: the parsed document, or
// nothing where the body is not JSON. The parse is a function of the body
// alone, so it can be named; the tree itself stays opaque and is read only
// through the names below.
pub uninterp spec fn json_doc(body: Seq<char>) -> Option<serde_json::Value>;

// The entry of a JSON object under a key, as serde_json::Value::get computes
// it: nothing where the node is no object or lacks the key.
pub uninterp spec fn key_entry(v: serde_json::Value, key: Seq<char>) -> Option<serde_json::Value>;

// The element of a JSON array at an index, as serde_json::Value::get
// computes it: nothing where the node is no array or is too short.
pub uninterp spec fn index_entry(v: serde_json::Value, i: int) -> Option<serde_json::Value>;

// The node's integer content, as serde_json::Value::as_i64 computes it:
// nothing where the node is no number, or one that does not fit an i64.
pub uninterp spec fn int_content(v: serde_json::Value) -> Option<i64>;

// The node's string content, as serde_json::Value::as_str computes it:
// nothing where the node is no string.
pub uninterp spec fn string_content(v: serde_json::Value) -> Option<Seq<char>>;

/// Whether the body parses as a JSON document.
pub open spec fn is_json(body: Seq<char>) -> bool {
    json_doc(body) is Some
}

/// Relies on serde_json::from_str: parses the body as a JSON document, named
/// `json_doc`, and fails exactly where the body is not JSON.
#[verifier::external_body]
fn json_parse(body: &str) -> (r: Option<serde_json::Value>)
    ensures
        r == json_doc(body@),
{
    serde_json::from_str::<serde_json::Value>(body).ok()
}

/// Relies on serde_json::Value::get with a string index: the value under the
/// key, named `key_entry`, if the node is an object that has it.
#[verifier::external_body]
fn json_get_key<'a>(v: &'a serde_json::Value, key: &str) -> (r: Option<&'a serde_json::Value>)
    ensures
        r is Some == key_entry(*v, key@) is Some,
        r matches Some(e) ==> key_entry(*v, key@) == Some(*e),
{
    v.get(key)
}

/// Relies on serde_json::Value::get with a usize index: the element at the
/// index, named `index_entry`, if the node is an array that long.
#[verifier::external_body]
fn json_get_index<'a>(v: &'a serde_json::Value, i: usize) -> (r: Option<&'a serde_json::Value>)
    ensures
        r is Some == index_entry(*v, i as int) is Some,
        r matches Some(e) ==> index_entry(*v, i as int) == Some(*e),
{
    v.get(i)
}

/// Relies on serde_json::Value::as_i64: the node's integer content, named
/// `int_content`, if it is an integer that fits in an i64.
#[verifier::external_body]
fn json_as_i64(v: &serde_json::Value) -> (r: Option<i64>)
    ensures
        r == int_content(*v),
{
    v.as_i64()
}

/// Relies on serde_json::Value::as_str: the node's string content, named
/// `string_content`, if it is a string.
#[verifier::external_body]
fn json_as_string(v: &serde_json::Value) -> (r: Option<String>)
    ensures
        r is Some == string_content(*v) is Some,
        r matches Some(s) ==> string_content(*v) == Some(s@),
{
    match v.as_str() {
        Some(s) => Some(s.to_owned()),
        None => None,
    }
}

/// The latest deployment: `deployments[0]` of the parsed body.
pub open spec fn latest_entry(body: Seq<char>) -> Option<serde_json::Value> {
    match json_doc(body) {
        Some(root) => match key_entry(root, "deployments"@) {
            Some(listing) => index_entry(listing, 0),
            None => None,
        },
        None => None,
    }
}

/// A field of the latest deployment.
pub open spec fn latest_field(body: Seq<char>, key: Seq<char>) -> Option<serde_json::Value> {
    match latest_entry(body) {
        Some(entry) => key_entry(entry, key),
        None => None,
    }
}

/// The latest deployment's `name`, where it is a string.
pub open spec fn latest_name(body: Seq<char>) -> Option<Seq<char>> {
    match latest_field(body, "name"@) {
        Some(node) => string_content(node),
        None => None,
    }
}

/// The latest deployment's `created` stamp, where it is an integer.
pub open spec fn latest_created(body: Seq<char>) -> Option<i64> {
    match latest_field(body, "created"@) {
        Some(node) => int_content(node),
        None => None,
    }
}

/// The latest deployment's `state` string.
pub open spec fn latest_state(body: Seq<char>) -> Option<Seq<char>> {
    match latest_field(body, "state"@) {
        Some(node) => string_content(node),
        None => None,
    }
}

/// The first domain: `domains[0]` of the parsed body.
pub open spec fn first_domain_entry(body: Seq<char>) -> Option<serde_json::Value> {
    match json_doc(body) {
        Some(root) => match key_entry(root, "domains"@) {
            Some(listing) => index_entry(listing, 0),
            None => None,
        },
        None => None,
    }
}

/// The first domain's `name`, where it is a string.
pub open spec fn first_domain_name(body: Seq<char>) -> Option<Seq<char>> {
    match first_domain_entry(body) {
        Some(entry) => match key_entry(entry, "name"@) {
            Some(node) => string_content(node),
            None => None,
        },
        None => None,
    }
}

/// Why a response could not be decoded: each missing or mistyped piece of
/// the response is its own kind, so the run can end with a precise message
/// instead of a panic.
#[derive(Clone, Copy, Debug, PartialEq, Eq, Structural)]
pub enum DecodeError {
    /// The body is not a JSON document.
    NotJson,
    /// The body has no `deployments` array with a first element.
    MissingDeployment,
    /// The latest deployment has no string `name` field.
    MissingName,
    /// The latest deployment has no integer `created` field.
    MissingCreated,
    /// The latest deployment has no string `state` field.
    MissingState,
    /// The body has no `domains` array with a first element.
    MissingDomain,
    /// The first domain has no string `name` field.
    MissingDomainName,
}

impl DecodeError {
    /// The wording used when the failure ends the run.
    pub open spec fn spec_describe(self) -> Seq<char> {
        match self {
            DecodeError::NotJson => "response is not valid JSON"@,
            DecodeError::MissingDeployment => "response lists no deployment"@,
            DecodeError::MissingName => "deployment has no name"@,
            DecodeError::MissingCreated => "deployment has no creation time"@,
            DecodeError::MissingState => "deployment has no state"@,
            DecodeError::MissingDomain => "project lists no domain"@,
            DecodeError::MissingDomainName => "domain has no name"@,
        }
    }

    /// A short account of the failure, fit for an error message.
    pub fn describe(&self) -> (r: &'static str)
        ensures
            r@ == self.spec_describe(),
    {
        match self {
            DecodeError::NotJson => "response is not valid JSON",
            DecodeError::MissingDeployment => "response lists no deployment",
            DecodeError::MissingName => "deployment has no name",
            DecodeError::MissingCreated => "deployment has no creation time",
            DecodeError::MissingState => "deployment has no state",
            DecodeError::MissingDomain => "project lists no domain",
            DecodeError::MissingDomainName => "domain has no name",
        }
    }
}

/// Builds the deployment record from the decoded fields; the state string is
/// classified exactly here.
pub fn deployment_from_fields(name: String, created_ms: i64, state_str: &str) -> (d: Deployment)
    ensures
        d.name@ == name@,
        d.created_ms == created_ms,
        d.state == state_of(state_str@),
{
    let state = parse_state(state_str);
    Deployment { name, created_ms, state }
}

/// Decodes the deployments listing: the `name`, `created` and `state` fields
/// of `deployments[0]`. The record returned holds exactly the named pieces
/// of the body, and each error comes exactly when the piece it names is the
/// first one missing or mistyped.
pub fn decode_deployments_body(body: &str) -> (r: Result<Deployment, DecodeError>)
    ensures
        (r == Err::<Deployment, DecodeError>(DecodeError::NotJson)) == !is_json(body@),
        (r == Err::<Deployment, DecodeError>(DecodeError::MissingDeployment)) == (is_json(body@)
            && latest_entry(body@) is None),
        (r == Err::<Deployment, DecodeError>(DecodeError::MissingName)) == (latest_entry(body@)
            is Some && latest_name(body@) is None),
        (r == Err::<Deployment, DecodeError>(DecodeError::MissingCreated)) == (latest_name(body@)
            is Some && latest_created(body@) is None),
        (r == Err::<Deployment, DecodeError>(DecodeError::MissingState)) == (latest_name(body@)
            is Some && latest_created(body@) is Some && latest_state(body@) is None),
        r is Ok == (latest_name(body@) is Some && latest_created(body@) is Some && latest_state(
            body@,
        ) is Some),
        r matches Ok(d) ==> Some(d.name@) == latest_name(body@) && Some(d.created_ms)
            == latest_created(body@) && (latest_state(body@) matches Some(s) && d.state
            == state_of(s)),
{
    let root = match json_parse(body) {
        Some(v) => v,
        None => {
            return Err(DecodeError::NotJson);
        },
    };
    let listing = match json_get_key(&root, "deployments") {
        Some(v) => v,
        None => {
            return Err(DecodeError::MissingDeployment);
        },
    };
    let latest = match json_get_index(listing, 0) {
        Some(v) => v,
        None => {
            return Err(DecodeError::MissingDeployment);
        },
    };
    let name_node = match json_get_key(latest, "name") {
        Some(v) => v,
        None => {
            return Err(DecodeError::MissingName);
        },
    };
    let name = match json_as_string(name_node) {
        Some(s) => s,
        None => {
            return Err(DecodeError::MissingName);
        },
    };
    let created_node = match json_get_key(latest, "created") {
        Some(v) => v,
        None => {
            return Err(DecodeError::MissingCreated);
        },
    };
    let created_ms = match json_as_i64(created_node) {
        Some(n) => n,
        None => {
            return Err(DecodeError::MissingCreated);
        },
    };
    let state_node = match json_get_key(latest, "state") {
        Some(v) => v,
        None => {
            return Err(DecodeError::MissingState);
        },
    };
    let state_str = match json_as_string(state_node) {
        Some(s) => s,
        None => {
            return Err(DecodeError::MissingState);
        },
    };
    Ok(deployment_from_fields(name, created_ms, state_str.as_str()))
}

/// Decodes the domains listing: the `name` field of `domains[0]`, the host
/// the live URL is built from. The name returned is exactly the named piece
/// of the body, and each error comes exactly when its piece is missing.
pub fn decode_domains_body(body: &str) -> (r: Result<String, DecodeError>)
    ensures
        (r == Err::<String, DecodeError>(DecodeError::NotJson)) == !is_json(body@),
        (r == Err::<String, DecodeError>(DecodeError::MissingDomain)) == (is_json(body@)
            && first_domain_entry(body@) is None),
        (r == Err::<String, DecodeError>(DecodeError::MissingDomainName)) == (first_domain_entry(
            body@,
        ) is Some && first_domain_name(body@) is None),
        r is Ok == first_domain_name(body@) is Some,
        r matches Ok(s) ==> Some(s@) == first_domain_name(body@),
{
    let root = match json_parse(body) {
        Some(v) => v,
        None => {
            return Err(DecodeError::NotJson);
        },
    };
    let listing = match json_get_key(&root, "domains") {
        Some(v) => v,
        None => {
            return Err(DecodeError::MissingDomain);
        },
    };
    let first = match json_get_index(listing, 0) {
        Some(v) => v,
        None => {
            return Err(DecodeError::MissingDomain);
        },
    };
    let name_node = match json_get_key(first, "name") {
        Some(v) => v,
        None => {
            return Err(DecodeError::MissingDomainName);
        },
    };
    match json_as_string(name_node) {
        Some(s) => Ok(s),
        None => Err(DecodeError::MissingDomainName),
    }
}

/// The live URL for a domain: the host behind the `https` scheme.
pub fn live_url(domain: &str) -> (url: String)
    ensures
        url@ == "https://"@ + domain@,
{
    let mut url = String::from_str("https://");
    url.append(domain);
    url
}

} // verus!
