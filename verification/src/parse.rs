//! The parse boundary: turn manifest text and registry response bodies into
//! the typed documents the resolver works on, and resolve directly from text.
//!
//! Parsing a general config or JSON grammar is delegated to outside parsers
//! behind trusted wrappers; everything after the parse is verified.

use vstd::prelude::*;
use crate::resolve::{
    get_url_from_json, get_url_from_toml, resolve_from_manifest_spec, resolve_from_registry_spec,
    Manifest, RegistryCrate,
};
use crate::urls::{ResolveError, UrlType};

verus! {

/// The manifest document that a piece of text parses to: the `package`
/// table's name and URL fields as strings, or nothing when the text is not
/// well-formed. A deterministic function of the text alone.
pub uninterp spec fn parsed_manifest(s: Seq<char>) -> Option<Manifest>;

/// The registry record that a response body parses to: the `crate` object's
/// URL fields as strings, or nothing when the body is not well-formed JSON.
/// A deterministic function of the body alone.
pub uninterp spec fn parsed_registry(s: Seq<char>) -> Option<RegistryCrate>;

/// Relies on `toml::Value`'s `FromStr`, `get` and `as_str`: parsing is a
/// deterministic function of the text, `get` looks a key up in a table, and
/// `as_str` yields the string a string-valued entry holds.
#[verifier::external_body]
fn parse_manifest(content: &str) -> (r: Option<Manifest>)
    ensures
        r == parsed_manifest(content@),
{
    let doc: toml::Value = match content.parse() {
        Ok(v) => v,
        Err(_) => return None,
    };
    let pick = |f: &str| doc.get("package").and_then(|p| p.get(f)).and_then(|v| v.as_str()).map(
        str::to_owned,
    );
    Some(
        Manifest {
            name: pick("name"),
            homepage: pick("homepage"),
            repository: pick("repository"),
            documentation: pick("documentation"),
        },
    )
}

/// Relies on `serde_json::from_str::<serde_json::Value>`, `get` and
/// `as_str`: parsing is a deterministic function of the body, `get` looks a
/// key up in an object, and `as_str` yields the string a string-valued entry
/// holds.
#[verifier::external_body]
fn parse_registry(body: &str) -> (r: Option<RegistryCrate>)
    ensures
        r == parsed_registry(body@),
{
    let doc: serde_json::Value = match serde_json::from_str(body) {
        Ok(v) => v,
        Err(_) => return None,
    };
    let pick = |f: &str| doc.get("crate").and_then(|c| c.get(f)).and_then(|v| v.as_str()).map(
        str::to_owned,
    );
    Some(
        RegistryCrate {
            homepage: pick("homepage"),
            repository: pick("repository"),
            documentation: pick("documentation"),
        },
    )
}

/// What resolving a kind against manifest text yields: `ManifestInvalid`
/// when the text does not parse, otherwise the manifest resolution.
pub open spec fn resolve_manifest_text_spec(s: Seq<char>, t: UrlType) -> Result<
    Seq<char>,
    ResolveError,
> {
    match parsed_manifest(s) {
        Some(m) => resolve_from_manifest_spec(m, t),
        None => Err(ResolveError::ManifestInvalid),
    }
}

/// What resolving a kind against a registry response body yields:
/// `ResponseInvalid` when the body does not parse, otherwise the record
/// resolution.
pub open spec fn resolve_registry_body_spec(s: Seq<char>, t: UrlType) -> Result<
    Seq<char>,
    ResolveError,
> {
    match parsed_registry(s) {
        Some(c) => resolve_from_registry_spec(c, t),
        None => Err(ResolveError::ResponseInvalid),
    }
}

/// Parse manifest text and resolve a kind against it.
pub fn get_url_from_manifest_text(content: &str, t: UrlType) -> (r: Result<String, ResolveError>)
    ensures
        r is Ok <==> resolve_manifest_text_spec(content@, t) is Ok,
        r matches Ok(u) ==> u@ == resolve_manifest_text_spec(content@, t)->Ok_0,
        r matches Err(e) ==> e == resolve_manifest_text_spec(content@, t)->Err_0,
{
    match parse_manifest(content) {
        Some(m) => get_url_from_toml(&m, t),
        None => Err(ResolveError::ManifestInvalid),
    }
}

/// Parse a registry response body and resolve a kind against it. `Crates`
/// never reaches this path: its URL is synthesized without any lookup.
pub fn get_url_from_registry_body(body: &str, t: UrlType) -> (r: Result<String, ResolveError>)
    requires
        t !is Crates,
    ensures
        r is Ok <==> resolve_registry_body_spec(body@, t) is Ok,
        r matches Ok(u) ==> u@ == resolve_registry_body_spec(body@, t)->Ok_0,
        r matches Err(e) ==> e == resolve_registry_body_spec(body@, t)->Err_0,
{
    match parse_registry(body) {
        Some(c) => get_url_from_json(&c, t),
        None => Err(ResolveError::ResponseInvalid),
    }
}

} // verus!
