use cargo_navigate::parse::{get_url_from_manifest_text, get_url_from_registry_body};
use cargo_navigate::urls::{ResolveError, UrlType};

#[test]
fn manifest_text_repository() {
    let text = "[package]\nname = \"foo\"\nrepository = \"https://example.com/x\"\n";
    assert_eq!(
        get_url_from_manifest_text(text, UrlType::Repository),
        Ok("https://example.com/x".to_owned())
    );
}

#[test]
fn manifest_text_documentation_fallback() {
    let text = "[package]\nname = \"foo\"\n";
    assert_eq!(
        get_url_from_manifest_text(text, UrlType::Documentation),
        Ok("https://docs.rs/foo".to_owned())
    );
}

#[test]
fn manifest_text_listing() {
    let text = "[package]\nname = \"foo\"\nversion = \"0.1.0\"\n";
    assert_eq!(
        get_url_from_manifest_text(text, UrlType::Crates),
        Ok("https://crates.io/crates/foo".to_owned())
    );
}

#[test]
fn manifest_text_inline_table() {
    let text = "package = { name = \"foo\", homepage = \"https://example.com/h\" }\n";
    assert_eq!(
        get_url_from_manifest_text(text, UrlType::Homepage),
        Ok("https://example.com/h".to_owned())
    );
}

#[test]
fn malformed_manifest_is_invalid() {
    let text = "[package\nname = ";
    assert_eq!(
        get_url_from_manifest_text(text, UrlType::Repository),
        Err(ResolveError::ManifestInvalid)
    );
}

#[test]
fn manifest_without_package_table() {
    let text = "[dependencies]\nserde = \"1\"\n";
    assert_eq!(
        get_url_from_manifest_text(text, UrlType::Crates),
        Err(ResolveError::ManifestInvalid)
    );
}

#[test]
fn manifest_non_string_field_is_absent() {
    let text = "[package]\nname = \"foo\"\nhomepage = 3\n";
    assert_eq!(
        get_url_from_manifest_text(text, UrlType::Homepage),
        Err(ResolveError::FieldNotRegistered(UrlType::Homepage))
    );
}

#[test]
fn registry_body_homepage() {
    let body = "{\"crate\":{\"homepage\":\"https://example.com/home\",\"repository\":null}}";
    assert_eq!(
        get_url_from_registry_body(body, UrlType::Homepage),
        Ok("https://example.com/home".to_owned())
    );
}

#[test]
fn registry_body_missing_field() {
    let body = "{\"crate\":{\"homepage\":\"https://example.com/home\"}}";
    assert_eq!(
        get_url_from_registry_body(body, UrlType::Documentation),
        Err(ResolveError::FieldNotRegistered(UrlType::Documentation))
    );
}

#[test]
fn registry_body_without_crate_object() {
    let body = "{\"errors\":[{\"detail\":\"Not Found\"}]}";
    assert_eq!(
        get_url_from_registry_body(body, UrlType::Repository),
        Err(ResolveError::FieldNotRegistered(UrlType::Repository))
    );
}

#[test]
fn malformed_registry_body_is_invalid() {
    let body = "not json";
    assert_eq!(
        get_url_from_registry_body(body, UrlType::Homepage),
        Err(ResolveError::ResponseInvalid)
    );
}
