use spud::manifest::{
    validate_allowlist, validate_nonempty, validate_runtime_args, ManifestError,
    PluginCompatibility, PluginManifest, PluginPermissions, PluginRuntime,
};
use spud::text::{blank, is_whitespace, trimmed};

fn valid_manifest() -> PluginManifest {
    PluginManifest {
        id: "spud.test".to_string(),
        name: "SPUD Test Plugin".to_string(),
        version: "0.1.0".to_string(),
        runtime: PluginRuntime {
            entrypoint: "dist/index.js".to_string(),
            command: Some("node".to_string()),
            args: vec!["--enable-source-maps".to_string()],
        },
        compatibility: PluginCompatibility {
            host_api: "^1.0.0".to_string(),
        },
        permissions: PluginPermissions {
            commands: vec!["help".to_string(), "switch".to_string()],
            event_tags: vec!["plugin.metrics".to_string()],
            subscriptions: vec!["tick".to_string(), "resize".to_string()],
        },
    }
}

#[test]
fn valid_manifest_passes_and_allows_what_it_lists() {
    let manifest = valid_manifest();
    assert_eq!(manifest.validate(), Ok(()));
    assert_eq!(manifest.id, "spud.test");
    assert!(manifest.permissions.allows_command("help"));
    assert!(!manifest.permissions.allows_command("quit"));
    assert!(manifest.permissions.allows_event_tag("plugin.metrics"));
    assert!(!manifest.permissions.allows_event_tag("plugin"));
    assert!(manifest.permissions.allows_subscription("tick"));
    assert!(!manifest.permissions.allows_subscription("custom"));
}

#[test]
fn invalid_semver_is_rejected() {
    let mut manifest = valid_manifest();
    manifest.version = "not-semver".to_string();
    let err = manifest.validate().unwrap_err();
    assert_eq!(err, ManifestError::InvalidVersion("not-semver".to_string()));
    assert!(err
        .message()
        .contains("manifest version must be valid semver"));
}

#[test]
fn invalid_host_api_requirement_is_rejected() {
    let mut manifest = valid_manifest();
    manifest.compatibility.host_api = "what".to_string();
    let err = manifest.validate().unwrap_err();
    assert_eq!(err, ManifestError::InvalidHostApi("what".to_string()));
    assert!(err
        .message()
        .contains("compatibility.host_api must be a valid semver requirement"));
}

#[test]
fn duplicate_allowlist_entries_are_rejected() {
    let mut manifest = valid_manifest();
    manifest.permissions.commands = vec!["help".to_string(), "help".to_string()];
    let err = manifest.validate().unwrap_err();
    assert_eq!(
        err,
        ManifestError::DuplicateEntry("permissions.commands".to_string(), "help".to_string())
    );
    assert_eq!(
        err.message(),
        "permissions.commands contains duplicate entry \"help\""
    );
}

#[test]
fn compatibility_check_rejects_incompatible_host() {
    let manifest = valid_manifest();
    assert_eq!(manifest.supports_host_api("1.4.2"), Ok(()));
    let err = manifest.supports_host_api("2.0.0").unwrap_err();
    assert_eq!(
        err,
        ManifestError::UnsupportedHost {
            required: "^1.0.0".to_string(),
            host: "2.0.0".to_string()
        }
    );
    assert!(err.message().contains("plugin requires host_api"));
    assert_eq!(
        manifest.supports_host_api("two").unwrap_err(),
        ManifestError::InvalidHostVersion("two".to_string())
    );
}

#[test]
fn runtime_args_allow_duplicate_flags() {
    let mut manifest = valid_manifest();
    manifest.runtime.args = vec!["-v".to_string(), "-v".to_string()];
    assert_eq!(manifest.validate(), Ok(()));
}

#[test]
fn blank_fields_are_rejected_in_order() {
    let mut manifest = valid_manifest();
    manifest.name = "  ".to_string();
    manifest.version = String::new();
    assert_eq!(
        manifest.validate(),
        Err(ManifestError::EmptyField("name".to_string()))
    );
    manifest.id = "\t".to_string();
    let err = manifest.validate().unwrap_err();
    assert_eq!(err, ManifestError::EmptyField("id".to_string()));
    assert_eq!(err.message(), "id must not be empty");

    let mut manifest = valid_manifest();
    manifest.runtime.command = Some(" ".to_string());
    assert_eq!(
        manifest.validate(),
        Err(ManifestError::EmptyField("runtime.command".to_string()))
    );
    manifest.runtime.entrypoint = String::new();
    assert_eq!(
        manifest.validate(),
        Err(ManifestError::EmptyField("runtime.entrypoint".to_string()))
    );
}

#[test]
fn runtime_args_must_be_trimmed_and_not_blank() {
    assert_eq!(validate_runtime_args(&vec![]), Ok(()));
    assert_eq!(
        validate_runtime_args(&vec!["a".to_string(), " ".to_string()]),
        Err(ManifestError::EmptyRuntimeArg)
    );
    let err = validate_runtime_args(&vec!["a".to_string(), " b".to_string()]).unwrap_err();
    assert_eq!(err, ManifestError::UntrimmedRuntimeArg(" b".to_string()));
    assert_eq!(
        err.message(),
        "runtime.args entry \" b\" has leading/trailing whitespace"
    );
    assert_eq!(
        ManifestError::EmptyRuntimeArg.message(),
        "runtime.args entries must not be empty"
    );
}

#[test]
fn allowlists_report_their_first_fault() {
    assert_eq!(
        validate_allowlist("l", &vec!["a".to_string(), "b".to_string()]),
        Ok(())
    );
    assert_eq!(
        validate_allowlist("l", &vec!["a".to_string(), String::new(), "a".to_string()]),
        Err(ManifestError::EmptyEntry("l".to_string()))
    );
    assert_eq!(
        validate_allowlist("l", &vec!["a".to_string(), "a".to_string(), "b ".to_string()]),
        Err(ManifestError::DuplicateEntry(
            "l".to_string(),
            "a".to_string()
        ))
    );
    let err = validate_allowlist("l", &vec!["b\n".to_string()]).unwrap_err();
    assert_eq!(
        err,
        ManifestError::UntrimmedEntry("l".to_string(), "b\n".to_string())
    );
    assert_eq!(
        err.message(),
        "l entry \"b\\n\" has leading/trailing whitespace"
    );
    assert_eq!(
        ManifestError::EmptyEntry("l".to_string()).message(),
        "l entries must not be empty"
    );
    assert_eq!(validate_nonempty("f", "x"), Ok(()));
}

#[test]
fn white_space_is_what_the_standard_library_says() {
    for code in 0u32..0x3100 {
        if let Some(c) = char::from_u32(code) {
            assert_eq!(is_whitespace(c), c.is_whitespace(), "U+{:04X}", code);
        }
    }
    let samples = ["", " ", "a", " a", "a ", "\u{2003}a", "a\u{3000}", "a b", "\n\t", "\u{a0}"];
    for s in samples {
        assert_eq!(blank(s), s.trim().is_empty(), "{:?}", s);
        assert_eq!(trimmed(s), s.trim() == s, "{:?}", s);
    }
}
