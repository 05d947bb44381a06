//! The resolution logic: extract or synthesize the target URL from a typed
//! manifest document or registry record, with the documented fallback rules.

use vstd::prelude::*;
use vstd::string::StringExecFns;
use crate::urls::{ResolveError, UrlType};

verus! {

/// The sub-shape of a local manifest this library reads: the `package`
/// table's name and its three optional URL fields. A field is `None` when it
/// is absent or is not a string.
#[derive(Debug, Clone)]
pub struct Manifest {
    pub name: Option<String>,
    pub homepage: Option<String>,
    pub repository: Option<String>,
    pub documentation: Option<String>,
}

/// The sub-shape of a registry metadata record this library reads: the
/// `crate` object's three optional URL fields. A field is `None` when it is
/// absent or is not a string.
#[derive(Debug, Clone)]
pub struct RegistryCrate {
    pub homepage: Option<String>,
    pub repository: Option<String>,
    pub documentation: Option<String>,
}

/// The registry's public listing page for a package name.
pub open spec fn crates_url_spec(name: Seq<char>) -> Seq<char> {
    "https://crates.io/crates/"@ + name
}

/// The synthesized documentation page for a package name.
pub open spec fn docs_url_spec(name: Seq<char>) -> Seq<char> {
    "https://docs.rs/"@ + name
}

/// The registry's metadata endpoint for a package name.
pub open spec fn api_endpoint_spec(name: Seq<char>) -> Seq<char> {
    "https://crates.io/api/v1/crates/"@ + name
}

/// Build the registry listing URL for a package name.
pub fn crates_url(name: &str) -> (r: String)
    ensures
        r@ == crates_url_spec(name@),
{
    let mut u = "https://crates.io/crates/".to_owned();
    u.append(name);
    u
}

/// Build the fallback documentation URL for a package name.
pub fn docs_url(name: &str) -> (r: String)
    ensures
        r@ == docs_url_spec(name@),
{
    let mut u = "https://docs.rs/".to_owned();
    u.append(name);
    u
}

/// Build the registry metadata-endpoint URL for a package name.
pub fn api_endpoint(name: &str) -> (r: String)
    ensures
        r@ == api_endpoint_spec(name@),
{
    let mut u = "https://crates.io/api/v1/crates/".to_owned();
    u.append(name);
    u
}

/// The manifest field a kind reads; `Crates` reads none.
pub open spec fn manifest_field(m: Manifest, t: UrlType) -> Option<String> {
    match t {
        UrlType::Documentation => m.documentation,
        UrlType::Homepage => m.homepage,
        UrlType::Repository => m.repository,
        UrlType::Crates => None,
    }
}

/// The registry-record field a kind reads; `Crates` reads none.
pub open spec fn registry_field(c: RegistryCrate, t: UrlType) -> Option<String> {
    match t {
        UrlType::Documentation => c.documentation,
        UrlType::Homepage => c.homepage,
        UrlType::Repository => c.repository,
        UrlType::Crates => None,
    }
}

/// What resolving a kind against a manifest yields: for `Crates` the listing
/// URL synthesized from the name; otherwise the field verbatim when present,
/// the docs.rs fallback for `Documentation` when absent, and
/// `FieldNotRegistered` for the other kinds.
pub open spec fn resolve_from_manifest_spec(m: Manifest, t: UrlType) -> Result<
    Seq<char>,
    ResolveError,
> {
    if t is Crates {
        match m.name {
            Some(n) => Ok(crates_url_spec(n@)),
            None => Err(ResolveError::ManifestInvalid),
        }
    } else {
        match manifest_field(m, t) {
            Some(u) => Ok(u@),
            None => if t is Documentation {
                match m.name {
                    Some(n) => Ok(docs_url_spec(n@)),
                    None => Err(ResolveError::ManifestInvalid),
                }
            } else {
                Err(ResolveError::FieldNotRegistered(t))
            },
        }
    }
}

/// What resolving a kind against a registry record yields: the field
/// verbatim when present, `FieldNotRegistered` when absent. A registry
/// record is authoritative, so no fallback is synthesized on this path.
pub open spec fn resolve_from_registry_spec(c: RegistryCrate, t: UrlType) -> Result<
    Seq<char>,
    ResolveError,
> {
    match registry_field(c, t) {
        Some(u) => Ok(u@),
        None => Err(ResolveError::FieldNotRegistered(t)),
    }
}

/// Resolving the registry listing page from a manifest depends only on the
/// package name: two manifests that agree on the name resolve it alike,
/// whatever their other fields hold.
pub proof fn lemma_listing_depends_only_on_name(m1: Manifest, m2: Manifest)
    requires
        m1.name == m2.name,
    ensures
        resolve_from_manifest_spec(m1, UrlType::Crates) == resolve_from_manifest_spec(
            m2,
            UrlType::Crates,
        ),
{
}

/// A URL string present in the manifest field a kind reads is passed through
/// as the resolved URL unchanged: no escaping, no trimming, no
/// normalization.
pub proof fn lemma_manifest_field_verbatim(m: Manifest, t: UrlType)
    requires
        t !is Crates,
    ensures
        manifest_field(m, t) matches Some(u) ==> resolve_from_manifest_spec(m, t) == Ok::<
            Seq<char>,
            ResolveError,
        >(u@),
{
}

/// A URL string present in the registry-record field a kind reads is passed
/// through as the resolved URL unchanged.
pub proof fn lemma_registry_field_verbatim(c: RegistryCrate, t: UrlType)
    ensures
        registry_field(c, t) matches Some(u) ==> resolve_from_registry_spec(c, t) == Ok::<
            Seq<char>,
            ResolveError,
        >(u@),
{
}

/// Resolve a kind against a parsed manifest, applying the fallback rules.
pub fn get_url_from_toml(m: &Manifest, t: UrlType) -> (r: Result<String, ResolveError>)
    ensures
        r is Ok <==> resolve_from_manifest_spec(*m, t) is Ok,
        r matches Ok(u) ==> u@ == resolve_from_manifest_spec(*m, t)->Ok_0,
        r matches Err(e) ==> e == resolve_from_manifest_spec(*m, t)->Err_0,
{
    if t == UrlType::Crates {
        match &m.name {
            Some(n) => Ok(crates_url(n.as_str())),
            None => Err(ResolveError::ManifestInvalid),
        }
    } else {
        let found = match t {
            UrlType::Documentation => &m.documentation,
            UrlType::Homepage => &m.homepage,
            UrlType::Repository => &m.repository,
            UrlType::Crates => vstd::pervasive::unreached(),
        };
        match found {
            Some(u) => Ok(u.clone()),
            None => if t == UrlType::Documentation {
                match &m.name {
                    Some(n) => Ok(docs_url(n.as_str())),
                    None => Err(ResolveError::ManifestInvalid),
                }
            } else {
                Err(ResolveError::FieldNotRegistered(t))
            },
        }
    }
}

/// Resolve a kind against a parsed registry record. `Crates` never reaches
/// this path: its URL is synthesized from the name without any lookup.
pub fn get_url_from_json(c: &RegistryCrate, t: UrlType) -> (r: Result<String, ResolveError>)
    requires
        t !is Crates,
    ensures
        r is Ok <==> resolve_from_registry_spec(*c, t) is Ok,
        r matches Ok(u) ==> u@ == resolve_from_registry_spec(*c, t)->Ok_0,
        r matches Err(e) ==> e == resolve_from_registry_spec(*c, t)->Err_0,
{
    let found = match t {
        UrlType::Documentation => &c.documentation,
        UrlType::Homepage => &c.homepage,
        UrlType::Repository => &c.repository,
        UrlType::Crates => vstd::pervasive::unreached(),
    };
    match found {
        Some(u) => Ok(u.clone()),
        None => Err(ResolveError::FieldNotRegistered(t)),
    }
}

} // verus!
