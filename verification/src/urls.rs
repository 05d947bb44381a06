//! The closed set of URL kinds a caller can ask for, and the error values
//! the resolution logic reports.

use vstd::prelude::*;
use vstd::string::StringExecFns;

verus! {

/// The four navigation targets this library can resolve.
#[derive(Debug, PartialEq, Eq, Clone, Copy, Structural)]
pub enum UrlType {
    Documentation,
    Homepage,
    Repository,
    Crates,
}

/// A character ASCII-lowercased: each of the twenty-six uppercase ASCII
/// letters maps to its lowercase form; every other character is unchanged.
pub open spec fn lower_char(c: char) -> char {
    if 'A' as u32 <= c as u32 && c as u32 <= 'Z' as u32 {
        ((c as u32) + 32) as char
    } else {
        c
    }
}

/// A character sequence ASCII-lowercased character by character.
pub open spec fn to_ascii_lower(s: Seq<char>) -> Seq<char> {
    s.map_values(|c: char| lower_char(c))
}

/// Which `UrlType`, if any, a kind-selector string names.
///
/// Each kind has a fixed group of aliases, matched without regard to ASCII
/// case; a string outside every group names no kind.
pub open spec fn from_command_spec(s: Seq<char>) -> Option<UrlType> {
    let l = to_ascii_lower(s);
    if l == "docs"@ || l == "documentation"@ {
        Some(UrlType::Documentation)
    } else if l == "repo"@ || l == "repository"@ {
        Some(UrlType::Repository)
    } else if l == "home"@ || l == "homepage"@ {
        Some(UrlType::Homepage)
    } else if l == "crates"@ || l == "crate"@ || l == "cratesio"@ || l == "crates-io"@
        || l == "crates.io"@ {
        Some(UrlType::Crates)
    } else {
        None
    }
}

/// Relies on `str::eq_ignore_ascii_case`: true exactly when the two strings
/// agree after ASCII-lowercasing each, all other characters untouched.
#[verifier::external_body]
fn str_eq_ignore_ascii_case(a: &str, b: &str) -> (r: bool)
    ensures
        r == (to_ascii_lower(a@) == to_ascii_lower(b@)),
{
    a.eq_ignore_ascii_case(b)
}

/// Each alias literal is already lowercase, so ASCII-lowercasing leaves it
/// as it is.
proof fn lemma_alias_literals_lowercase()
    ensures
        to_ascii_lower("docs"@) == "docs"@,
        to_ascii_lower("documentation"@) == "documentation"@,
        to_ascii_lower("repo"@) == "repo"@,
        to_ascii_lower("repository"@) == "repository"@,
        to_ascii_lower("home"@) == "home"@,
        to_ascii_lower("homepage"@) == "homepage"@,
        to_ascii_lower("crates"@) == "crates"@,
        to_ascii_lower("crate"@) == "crate"@,
        to_ascii_lower("cratesio"@) == "cratesio"@,
        to_ascii_lower("crates-io"@) == "crates-io"@,
        to_ascii_lower("crates.io"@) == "crates.io"@,
{
    reveal_strlit("docs");
    reveal_strlit("documentation");
    reveal_strlit("repo");
    reveal_strlit("repository");
    reveal_strlit("home");
    reveal_strlit("homepage");
    reveal_strlit("crates");
    reveal_strlit("crate");
    reveal_strlit("cratesio");
    reveal_strlit("crates-io");
    reveal_strlit("crates.io");
    assert(to_ascii_lower("docs"@) =~= "docs"@);
    assert(to_ascii_lower("documentation"@) =~= "documentation"@);
    assert(to_ascii_lower("repo"@) =~= "repo"@);
    assert(to_ascii_lower("repository"@) =~= "repository"@);
    assert(to_ascii_lower("home"@) =~= "home"@);
    assert(to_ascii_lower("homepage"@) =~= "homepage"@);
    assert(to_ascii_lower("crates"@) =~= "crates"@);
    assert(to_ascii_lower("crate"@) =~= "crate"@);
    assert(to_ascii_lower("cratesio"@) =~= "cratesio"@);
    assert(to_ascii_lower("crates-io"@) =~= "crates-io"@);
    assert(to_ascii_lower("crates.io"@) =~= "crates.io"@);
}

impl UrlType {
    /// Parse a kind-selector string, accepting every alias of each kind
    /// without regard to ASCII case.
    pub fn from_command(s: &str) -> (r: Option<UrlType>)
        ensures
            r == from_command_spec(s@),
    {
        proof {
            lemma_alias_literals_lowercase();
        }
        if str_eq_ignore_ascii_case(s, "docs") || str_eq_ignore_ascii_case(s, "documentation") {
            Some(UrlType::Documentation)
        } else if str_eq_ignore_ascii_case(s, "repo") || str_eq_ignore_ascii_case(
            s,
            "repository",
        ) {
            Some(UrlType::Repository)
        } else if str_eq_ignore_ascii_case(s, "home") || str_eq_ignore_ascii_case(s, "homepage") {
            Some(UrlType::Homepage)
        } else if str_eq_ignore_ascii_case(s, "crates") || str_eq_ignore_ascii_case(s, "crate")
            || str_eq_ignore_ascii_case(s, "cratesio") || str_eq_ignore_ascii_case(s, "crates-io")
            || str_eq_ignore_ascii_case(s, "crates.io") {
            Some(UrlType::Crates)
        } else {
            None
        }
    }

    /// The manifest / registry field this kind reads; empty for `Crates`,
    /// whose URL is synthesized from the package name instead.
    pub fn field(&self) -> (r: &'static str)
        ensures
            r@ == field_spec(*self),
    {
        match *self {
            UrlType::Documentation => "documentation",
            UrlType::Homepage => "homepage",
            UrlType::Repository => "repository",
            UrlType::Crates => "",
        }
    }
}

/// The field name each kind reads.
pub open spec fn field_spec(t: UrlType) -> Seq<char> {
    match t {
        UrlType::Documentation => "documentation"@,
        UrlType::Homepage => "homepage"@,
        UrlType::Repository => "repository"@,
        UrlType::Crates => ""@,
    }
}

/// Every spelling of an alias in a group — whatever its ASCII case — maps
/// to that group's kind, and a string outside every group maps to no kind
/// at all.
pub proof fn lemma_alias_groups(s: Seq<char>)
    ensures
        (to_ascii_lower(s) == "docs"@ || to_ascii_lower(s) == "documentation"@)
            ==> from_command_spec(s) == Some(UrlType::Documentation),
        (to_ascii_lower(s) == "repo"@ || to_ascii_lower(s) == "repository"@)
            ==> from_command_spec(s) == Some(UrlType::Repository),
        (to_ascii_lower(s) == "home"@ || to_ascii_lower(s) == "homepage"@)
            ==> from_command_spec(s) == Some(UrlType::Homepage),
        (to_ascii_lower(s) == "crates"@ || to_ascii_lower(s) == "crate"@ || to_ascii_lower(s)
            == "cratesio"@ || to_ascii_lower(s) == "crates-io"@ || to_ascii_lower(s)
            == "crates.io"@) ==> from_command_spec(s) == Some(UrlType::Crates),
        !(to_ascii_lower(s) == "docs"@ || to_ascii_lower(s) == "documentation"@
            || to_ascii_lower(s) == "repo"@ || to_ascii_lower(s) == "repository"@
            || to_ascii_lower(s) == "home"@ || to_ascii_lower(s) == "homepage"@
            || to_ascii_lower(s) == "crates"@ || to_ascii_lower(s) == "crate"@
            || to_ascii_lower(s) == "cratesio"@ || to_ascii_lower(s) == "crates-io"@
            || to_ascii_lower(s) == "crates.io"@) ==> from_command_spec(s) is None,
{
    let l = to_ascii_lower(s);
    reveal_strlit("docs");
    reveal_strlit("documentation");
    reveal_strlit("repo");
    reveal_strlit("repository");
    reveal_strlit("home");
    reveal_strlit("homepage");
    reveal_strlit("crates");
    reveal_strlit("crate");
    reveal_strlit("cratesio");
    reveal_strlit("crates-io");
    reveal_strlit("crates.io");
    assert(("docs"@).len() == 4 && ("documentation"@).len() == 13);
    assert(("repo"@).len() == 4 && ("repository"@).len() == 10);
    assert(("home"@).len() == 4 && ("homepage"@).len() == 8);
    assert(("crates"@).len() == 6 && ("crate"@).len() == 5);
    assert(("cratesio"@).len() == 8 && ("crates-io"@).len() == 9 && ("crates.io"@).len() == 9);
    assert(("docs"@)[0] == 'd' && ("repo"@)[0] == 'r' && ("home"@)[0] == 'h');
    assert(("homepage"@)[0] == 'h' && ("cratesio"@)[0] == 'c');
    assert("repo"@ != "docs"@);
    assert("home"@ != "docs"@);
    assert("home"@ != "repo"@);
    assert("cratesio"@ != "homepage"@);
    if l == "repo"@ || l == "repository"@ {
        assert(l != "docs"@ && l != "documentation"@);
        assert(from_command_spec(s) == Some(UrlType::Repository));
    }
    if l == "home"@ || l == "homepage"@ {
        assert(l != "docs"@ && l != "documentation"@ && l != "repo"@ && l != "repository"@);
        assert(from_command_spec(s) == Some(UrlType::Homepage));
    }
    if l == "crates"@ || l == "crate"@ || l == "cratesio"@ || l == "crates-io"@
        || l == "crates.io"@ {
        assert(l != "docs"@ && l != "documentation"@ && l != "repo"@ && l != "repository"@
            && l != "home"@ && l != "homepage"@);
        assert(from_command_spec(s) == Some(UrlType::Crates));
    }
}

/// Kind selection is case-insensitive: a selector and its ASCII-lowercased
/// form always name the same kind.
pub proof fn lemma_selection_case_insensitive(s: Seq<char>)
    ensures
        from_command_spec(to_ascii_lower(s)) == from_command_spec(s),
{
    assert(to_ascii_lower(to_ascii_lower(s)) =~= to_ascii_lower(s)) by {
        assert forall|i: int| 0 <= i < s.len() implies lower_char(lower_char(s[i])) == lower_char(
            s[i],
        ) by {}
    }
}

/// Every way a resolution can fail. All failures are terminal: the caller
/// reports the message and stops.
#[derive(Debug, PartialEq, Eq, Clone, Copy, Structural)]
pub enum ResolveError {
    /// No manifest file exists in the working directory.
    ManifestMissing,
    /// The manifest file exists but could not be read.
    ManifestUnreadable,
    /// The manifest does not parse, or lacks a required `package.name`.
    ManifestInvalid,
    /// The registry could not be reached.
    NetworkError,
    /// The registry's response body does not parse as a metadata record.
    ResponseInvalid,
    /// The requested field is absent and no fallback applies.
    FieldNotRegistered(UrlType),
    /// The kind-selector string names no `UrlType`.
    UnknownUrlKind,
}

/// The one-line message each failure is reported with.
pub open spec fn message_spec(e: ResolveError) -> Seq<char> {
    match e {
        ResolveError::ManifestMissing => "Cargo.toml is missing"@,
        ResolveError::ManifestUnreadable => "Cargo.toml could not be read"@,
        ResolveError::ManifestInvalid => "Invalid Cargo.toml file"@,
        ResolveError::NetworkError => "Could not reach the registry"@,
        ResolveError::ResponseInvalid => "Invalid response from the registry"@,
        ResolveError::FieldNotRegistered(t) => field_spec(t)
            + " URL is not registered in the crate"@,
        ResolveError::UnknownUrlKind => "Unknown URL kind"@,
    }
}

impl ResolveError {
    /// The one-line human-readable message for this failure.
    pub fn message(&self) -> (r: String)
        ensures
            r@ == message_spec(*self),
    {
        match *self {
            ResolveError::ManifestMissing => "Cargo.toml is missing".to_owned(),
            ResolveError::ManifestUnreadable => "Cargo.toml could not be read".to_owned(),
            ResolveError::ManifestInvalid => "Invalid Cargo.toml file".to_owned(),
            ResolveError::NetworkError => "Could not reach the registry".to_owned(),
            ResolveError::ResponseInvalid => "Invalid response from the registry".to_owned(),
            ResolveError::FieldNotRegistered(t) => {
                let mut m = t.field().to_owned();
                m.append(" URL is not registered in the crate");
                m
            },
            ResolveError::UnknownUrlKind => "Unknown URL kind".to_owned(),
        }
    }
}

/// A uniform error value carrying one human-readable message.
#[derive(Debug, Clone)]
pub struct MessageError(String);

impl View for MessageError {
    type V = Seq<char>;

    closed spec fn view(&self) -> Seq<char> {
        self.0@
    }
}

impl MessageError {
    /// Wrap a message string.
    pub fn new(msg: &str) -> (r: MessageError)
        ensures
            r@ == msg@,
    {
        MessageError(msg.to_owned())
    }

    /// The message this error carries.
    pub fn message(&self) -> (r: String)
        ensures
            r@ == self@,
    {
        self.0.clone()
    }
}

} // verus!

