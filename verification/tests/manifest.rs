use winch::manifest::{
    binary_name_from_text, build_steps, download_url, download_url_from_text, build_steps_from_text, executable_dir_from_text, release,
    release_from_text, string_member, zipball_url_from_text, ManifestError,
};

#[test]
fn build_steps_in_order() {
    let steps = build_steps_from_text(r#"{"build_steps": ["cargo build", "make install"], "executable_dir": "bin"}"#).unwrap();
    assert_eq!(steps, vec!["cargo build".to_string(), "make install".to_string()]);
}

#[test]
fn build_steps_empty_array() {
    let steps = build_steps_from_text(r#"{"build_steps": []}"#).unwrap();
    assert!(steps.is_empty());
}

#[test]
fn build_steps_not_an_array() {
    assert!(matches!(build_steps_from_text(r#"{"build_steps": "make"}"#), Err(ManifestError::NotAnArray)));
    assert!(matches!(build_steps_from_text(r#"{"steps": ["make"]}"#), Err(ManifestError::NotAnArray)));
    assert!(matches!(build_steps_from_text(r#"["make"]"#), Err(ManifestError::NotAnArray)));
}

#[test]
fn build_steps_with_a_non_string_step() {
    assert!(matches!(build_steps_from_text(r#"{"build_steps": ["make", 3]}"#), Err(ManifestError::NotAString)));
    assert!(matches!(build_steps_from_text(r#"{"build_steps": [null]}"#), Err(ManifestError::NotAString)));
}

#[test]
fn build_steps_from_invalid_json() {
    assert!(matches!(build_steps_from_text("{\"build_steps\": ["), Err(ManifestError::Json(_))));
    assert!(matches!(build_steps_from_text(""), Err(ManifestError::Json(_))));
}

#[test]
fn build_steps_of_a_parsed_document() {
    let doc: serde_json::Value = serde_json::from_str(r#"{"build_steps": ["a", "b", "a"]}"#).unwrap();
    assert_eq!(build_steps(&doc).unwrap(), vec!["a", "b", "a"]);
}

#[test]
fn executable_dir_read() {
    assert_eq!(executable_dir_from_text(r#"{"executable_dir": "target/release"}"#).unwrap(), "target/release");
    assert!(matches!(executable_dir_from_text(r#"{"build_steps": []}"#), Err(ManifestError::Missing)));
    assert!(matches!(executable_dir_from_text(r#"{"executable_dir": 1}"#), Err(ManifestError::Missing)));
    assert!(matches!(executable_dir_from_text("not json"), Err(ManifestError::Json(_))));
}

#[test]
fn binary_name_read() {
    assert_eq!(binary_name_from_text(r#"{"binary_name": "kalker"}"#).unwrap(), "kalker");
    assert!(matches!(binary_name_from_text("{}"), Err(ManifestError::Missing)));
}

#[test]
fn zipball_url_read() {
    let text = r#"{"tag_name": "1.0.2", "zipball_url": "https://api.github.com/repos/a/b/zipball/1.0.2"}"#;
    assert_eq!(zipball_url_from_text(text).unwrap(), "https://api.github.com/repos/a/b/zipball/1.0.2");
    assert!(matches!(zipball_url_from_text(r#"{"zipball_url": null}"#), Err(ManifestError::Missing)));
}

#[test]
fn string_member_of_a_parsed_document() {
    let doc: serde_json::Value = serde_json::from_str(r#"{"a": "x", "b": [1]}"#).unwrap();
    assert_eq!(string_member(&doc, "a").unwrap(), "x");
    assert!(matches!(string_member(&doc, "b"), Err(ManifestError::Missing)));
    assert!(matches!(string_member(&doc, "c"), Err(ManifestError::Missing)));
    let not_object = serde_json::Value::String("a".to_string());
    assert!(matches!(string_member(&not_object, "a"), Err(ManifestError::Missing)));
}

#[test]
fn latest_release_skips_trailing_nulls() {
    let r = release_from_text(r#"{"author": "brodycritchlow", "versions": ["1.0.0", null, "1.0.2", null]}"#).unwrap();
    assert_eq!(r.author, "brodycritchlow");
    assert_eq!(r.version, "1.0.2");
}

#[test]
fn latest_release_trims_the_text() {
    let r = release_from_text("\n  {\"author\": \"a\", \"versions\": [\"0.1\"]}  \n").unwrap();
    assert_eq!(r.version, "0.1");
}

#[test]
fn latest_release_missing_parts() {
    assert!(matches!(release_from_text(r#"{"versions": ["1"]}"#), Err(ManifestError::Missing)));
    assert!(matches!(release_from_text(r#"{"author": 5, "versions": ["1"]}"#), Err(ManifestError::Missing)));
    assert!(matches!(release_from_text(r#"{"author": "a"}"#), Err(ManifestError::Missing)));
    assert!(matches!(release_from_text(r#"{"author": "a", "versions": []}"#), Err(ManifestError::Missing)));
    assert!(matches!(release_from_text(r#"{"author": "a", "versions": [null, null]}"#), Err(ManifestError::Missing)));
    assert!(matches!(release_from_text(r#"{"author": "a", "versions": ["1", 2]}"#), Err(ManifestError::Missing)));
}

#[test]
fn latest_release_invalid_json() {
    assert!(matches!(release_from_text("<html>"), Err(ManifestError::Json(_))));
}

#[test]
fn release_of_a_parsed_document() {
    let doc: serde_json::Value = serde_json::from_str(r#"{"author": "x", "versions": [null, "3"]}"#).unwrap();
    let r = release(&doc).unwrap();
    assert_eq!((r.author.as_str(), r.version.as_str()), ("x", "3"));
}

#[test]
fn error_messages() {
    assert_eq!(ManifestError::NotAnArray.message(), "build_steps is not an array");
    assert_eq!(ManifestError::NotAString.message(), "step is not a string");
    assert_eq!(ManifestError::Missing.message(), "required field not found in json");
    match build_steps_from_text(r#"{"build_steps":["make",42]}"#) {
        Err(e) => assert_eq!(e.message(), "step is not a string"),
        Ok(_) => panic!("expected an error"),
    }
    match build_steps_from_text("[") {
        Err(e) => assert!(!e.message().is_empty()),
        Ok(_) => panic!("expected an error"),
    }
}

#[test]
fn download_url_read() {
    let text = r#"{"download_url": "https://api.github.com/repos/a/b/releases/tags/1.0.2", "name": "b"}"#;
    assert_eq!(download_url_from_text(text).unwrap(), "https://api.github.com/repos/a/b/releases/tags/1.0.2");
}

#[test]
fn download_url_needs_an_object_of_strings() {
    assert!(matches!(download_url_from_text(r#"{"download_url": "u", "size": 3}"#), Err(ManifestError::Missing)));
    assert!(matches!(download_url_from_text(r#"{"name": "b"}"#), Err(ManifestError::Missing)));
    assert!(matches!(download_url_from_text(r#"["u"]"#), Err(ManifestError::Missing)));
    assert!(matches!(download_url_from_text(r#"{"download_url": null}"#), Err(ManifestError::Missing)));
    assert!(matches!(download_url_from_text("{"), Err(ManifestError::Json(_))));
}

#[test]
fn download_url_of_a_parsed_document() {
    let doc: serde_json::Value = serde_json::from_str(r#"{"a": "1", "download_url": "u"}"#).unwrap();
    assert_eq!(download_url(&doc).unwrap(), "u");
}

#[test]
fn json_error_message_is_the_parsers() {
    let expected = serde_json::from_str::<serde_json::Value>("{\"build_steps\": [").unwrap_err().to_string();
    match build_steps_from_text("{\"build_steps\": [") {
        Err(ManifestError::Json(m)) => {
            assert_eq!(m, expected);
            assert_eq!(ManifestError::Json(m.clone()).message(), expected);
        }
        _ => panic!("expected a parse error"),
    }
}
