use cargo_navigate::urls::{MessageError, ResolveError, UrlType};

#[test]
fn documentation_aliases_agree() {
    assert_eq!(UrlType::from_command("docs"), Some(UrlType::Documentation));
    assert_eq!(
        UrlType::from_command("documentation"),
        Some(UrlType::Documentation)
    );
}

#[test]
fn repository_aliases_agree() {
    assert_eq!(UrlType::from_command("repo"), Some(UrlType::Repository));
    assert_eq!(UrlType::from_command("repository"), Some(UrlType::Repository));
}

#[test]
fn homepage_aliases_agree() {
    assert_eq!(UrlType::from_command("home"), Some(UrlType::Homepage));
    assert_eq!(UrlType::from_command("homepage"), Some(UrlType::Homepage));
}

#[test]
fn crates_aliases_agree() {
    assert_eq!(UrlType::from_command("crates"), Some(UrlType::Crates));
    assert_eq!(UrlType::from_command("crate"), Some(UrlType::Crates));
    assert_eq!(UrlType::from_command("cratesio"), Some(UrlType::Crates));
    assert_eq!(UrlType::from_command("crates-io"), Some(UrlType::Crates));
    assert_eq!(UrlType::from_command("crates.io"), Some(UrlType::Crates));
}

#[test]
fn selectors_ignore_ascii_case() {
    assert_eq!(UrlType::from_command("Docs"), Some(UrlType::Documentation));
    assert_eq!(
        UrlType::from_command("DOCUMENTATION"),
        Some(UrlType::Documentation)
    );
    assert_eq!(UrlType::from_command("REPO"), Some(UrlType::Repository));
    assert_eq!(UrlType::from_command("HomePage"), Some(UrlType::Homepage));
    assert_eq!(UrlType::from_command("Crates.IO"), Some(UrlType::Crates));
}

#[test]
fn unknown_selector_is_rejected() {
    assert_eq!(UrlType::from_command("wiki"), None);
    assert_eq!(UrlType::from_command(""), None);
    assert_eq!(UrlType::from_command("docs "), None);
    assert_eq!(UrlType::from_command("repos"), None);
}

#[test]
fn field_names() {
    assert_eq!(UrlType::Documentation.field(), "documentation");
    assert_eq!(UrlType::Homepage.field(), "homepage");
    assert_eq!(UrlType::Repository.field(), "repository");
    assert_eq!(UrlType::Crates.field(), "");
}

#[test]
fn error_messages() {
    assert_eq!(
        ResolveError::ManifestMissing.message(),
        "Cargo.toml is missing"
    );
    assert_eq!(
        ResolveError::ManifestUnreadable.message(),
        "Cargo.toml could not be read"
    );
    assert_eq!(
        ResolveError::ManifestInvalid.message(),
        "Invalid Cargo.toml file"
    );
    assert_eq!(
        ResolveError::NetworkError.message(),
        "Could not reach the registry"
    );
    assert_eq!(
        ResolveError::ResponseInvalid.message(),
        "Invalid response from the registry"
    );
    assert_eq!(
        ResolveError::FieldNotRegistered(UrlType::Homepage).message(),
        "homepage URL is not registered in the crate"
    );
    assert_eq!(
        ResolveError::FieldNotRegistered(UrlType::Documentation).message(),
        "documentation URL is not registered in the crate"
    );
    assert_eq!(ResolveError::UnknownUrlKind.message(), "Unknown URL kind");
}

#[test]
fn message_error_round_trip() {
    let e = MessageError::new("homepage URL is not registered in the crate");
    assert_eq!(e.message(), "homepage URL is not registered in the crate");
}
