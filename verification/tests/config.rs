use niksi::{BuilderError, Niksi, NiksiBuilder};

#[test]
fn builder_without_config_path_is_incomplete() {
    let result = Niksi::builder().build();
    match result {
        Err(BuilderError::Incomplete(field)) => assert_eq!(field, "config_file"),
        other => panic!("expected Incomplete(config_file), got {:?}", other),
    }
}

#[test]
fn builder_without_config_path_ignores_other_settings() {
    let result = NiksiBuilder::new()
        .output_directory("./outdir".to_string())
        .lock_file("./outdir/niksi.lock".to_string())
        .build();
    match result {
        Err(BuilderError::Incomplete(field)) => assert_eq!(field, "config_file"),
        other => panic!("expected Incomplete(config_file), got {:?}", other),
    }
}

#[test]
fn builder_with_config_path_is_pending() {
    let pending = Niksi::builder()
        .config_file("niksi.json".to_string())
        .build()
        .expect("a config path was set");
    assert_eq!(pending.config_file, "niksi.json");
    assert!(pending.output_directory.is_none());
    assert!(pending.lock_file.is_none());
}

#[test]
fn unreadable_config_file_is_no_such_file() {
    let pending = Niksi::builder()
        .config_file("missing/niksi.json".to_string())
        .build()
        .unwrap();
    match pending.finish(None) {
        Err(BuilderError::NoSuchFile(path)) => assert_eq!(path, "missing/niksi.json"),
        other => panic!("expected NoSuchFile, got {:?}", other),
    }
}

#[test]
fn malformed_config_text_is_parse_error() {
    let pending = Niksi::builder()
        .config_file("niksi.json".to_string())
        .build()
        .unwrap();
    match pending.finish(Some("this is not json")) {
        Err(BuilderError::ParseError(_)) => {}
        other => panic!("expected ParseError, got {:?}", other),
    }
}

#[test]
fn minimal_config_gets_defaults() {
    let pending = Niksi::builder()
        .config_file("niksi.json".to_string())
        .build()
        .unwrap();
    let niksi = pending
        .finish(Some(r#"{"name": "cs101", "version": "1.0"}"#))
        .expect("a minimal valid configuration");
    assert_eq!(niksi.config.name, "cs101");
    assert_eq!(niksi.config.version, "1.0");
    assert_eq!(niksi.config.course_code, None);
    assert_eq!(niksi.config.template, None);
    assert_eq!(niksi.config.registry, None);
    assert!(niksi.config.maintainers.is_empty());
    assert!(niksi.config.packages.is_empty());
    assert!(niksi.config.vscode_extensions.is_empty());
    assert_eq!(niksi.output_directory, ".");
    assert_eq!(niksi.lock_file, "niksi.lock");
}

#[test]
fn full_config_is_carried_over() {
    let text = r#"{
        "name": "cs101",
        "course_code": "CS-E1000",
        "version": "2.0",
        "maintainers": ["alice", "bob"],
        "packages": ["git", "gcc"],
        "vscode_extensions": ["scalameta.metals"],
        "template": "rust",
        "registry": "docker.io/org"
    }"#;
    let niksi = Niksi::builder()
        .config_file("niksi.json".to_string())
        .output_directory("./outdir".to_string())
        .lock_file("./outdir/niksi.lock".to_string())
        .build()
        .unwrap()
        .finish(Some(text))
        .expect("a full valid configuration");
    assert_eq!(niksi.config.name, "cs101");
    assert_eq!(niksi.config.course_code.as_deref(), Some("CS-E1000"));
    assert_eq!(niksi.config.version, "2.0");
    assert_eq!(niksi.config.maintainers, vec!["alice", "bob"]);
    assert_eq!(niksi.config.packages, vec!["git", "gcc"]);
    assert_eq!(niksi.config.vscode_extensions, vec!["scalameta.metals"]);
    assert_eq!(niksi.config.template.as_deref(), Some("rust"));
    assert_eq!(niksi.config.registry.as_deref(), Some("docker.io/org"));
    assert_eq!(niksi.output_directory, "./outdir");
    assert_eq!(niksi.lock_file, "./outdir/niksi.lock");
}

#[test]
fn missing_name_is_parse_error() {
    let pending = Niksi::builder()
        .config_file("niksi.json".to_string())
        .build()
        .unwrap();
    match pending.finish(Some(r#"{"version": "1.0"}"#)) {
        Err(BuilderError::ParseError(_)) => {}
        other => panic!("expected ParseError, got {:?}", other),
    }
}

#[test]
fn empty_name_is_parse_error() {
    let pending = Niksi::builder()
        .config_file("niksi.json".to_string())
        .build()
        .unwrap();
    match pending.finish(Some(r#"{"name": "", "version": "1.0"}"#)) {
        Err(BuilderError::ParseError(_)) => {}
        other => panic!("expected ParseError, got {:?}", other),
    }
}

#[test]
fn missing_version_is_parse_error() {
    let pending = Niksi::builder()
        .config_file("niksi.json".to_string())
        .build()
        .unwrap();
    match pending.finish(Some(r#"{"name": "cs101"}"#)) {
        Err(BuilderError::ParseError(_)) => {}
        other => panic!("expected ParseError, got {:?}", other),
    }
}

#[test]
fn null_optional_fields_are_absent() {
    let text = r#"{"name": "cs101", "version": "1.0", "registry": null, "packages": null}"#;
    let niksi = Niksi::builder()
        .config_file("niksi.json".to_string())
        .build()
        .unwrap()
        .finish(Some(text))
        .expect("null optionals are treated as absent");
    assert_eq!(niksi.config.registry, None);
    assert!(niksi.config.packages.is_empty());
}

#[test]
fn non_string_package_is_parse_error() {
    let pending = Niksi::builder()
        .config_file("niksi.json".to_string())
        .build()
        .unwrap();
    match pending.finish(Some(r#"{"name": "cs101", "version": "1.0", "packages": [1, 2]}"#)) {
        Err(BuilderError::ParseError(_)) => {}
        other => panic!("expected ParseError, got {:?}", other),
    }
}

#[test]
fn non_array_package_list_is_parse_error() {
    let pending = Niksi::builder()
        .config_file("niksi.json".to_string())
        .build()
        .unwrap();
    match pending.finish(Some(r#"{"name": "cs101", "version": "1.0", "packages": "git"}"#)) {
        Err(BuilderError::ParseError(_)) => {}
        other => panic!("expected ParseError, got {:?}", other),
    }
}

#[test]
fn non_object_root_is_parse_error() {
    let pending = Niksi::builder()
        .config_file("niksi.json".to_string())
        .build()
        .unwrap();
    match pending.finish(Some("[1, 2, 3]")) {
        Err(BuilderError::ParseError(_)) => {}
        other => panic!("expected ParseError, got {:?}", other),
    }
}

#[test]
fn error_messages_name_their_subject() {
    assert_eq!(
        BuilderError::Incomplete("config_file".to_string()).message(),
        "Incomplete build, missing required field config_file"
    );
    assert_eq!(
        BuilderError::NoSuchFile("niksi.json".to_string()).message(),
        "Failed to read configuration file niksi.json"
    );
    assert_eq!(
        BuilderError::ParseError("bad".to_string()).message(),
        "Malformed configuration file: bad"
    );
}
