use burncloud_client_models::checksum::ChecksumType;
use burncloud_client_models::format::ModelFormat;
use burncloud_client_models::validation::{
    compute_is_valid, CheckStatus, CheckType, ErrorSeverity, ErrorType, FileSnapshot,
    ModelSignature, ModelValidator, ValidationConfig, ValidationError, WarningType,
};

fn snapshot(content: &[u8], readonly: bool) -> FileSnapshot {
    FileSnapshot {
        is_file: true,
        size: content.len() as u64,
        content: content.to_vec(),
        reread: Some(content.to_vec()),
        readonly: Some(readonly),
    }
}

fn missing() -> FileSnapshot {
    FileSnapshot { is_file: false, size: 0, content: vec![], reread: None, readonly: None }
}

fn all_checks(strict: bool) -> ValidationConfig {
    ValidationConfig {
        enable_checksum_verification: true,
        enable_malware_scanning: true,
        enable_format_validation: true,
        enable_dependency_check: true,
        enable_permission_check: true,
        strict_mode: strict,
        timeout_seconds: 60,
        quarantine_suspicious_files: false,
    }
}

fn signature(name: &str) -> (String, ModelSignature) {
    (
        name.to_string(),
        ModelSignature {
            model_name: name.to_string(),
            version: "1.0".to_string(),
            provider: "p".to_string(),
            expected_size: 4,
            expected_checksum: String::new(),
            checksum_type: ChecksumType::SHA256,
            format: ModelFormat::GGUF,
            trusted: true,
            signature_date: 0,
        },
    )
}

fn statuses(r: &burncloud_client_models::validation::ValidationResult) -> Vec<(CheckType, CheckStatus)> {
    r.checks_performed.iter().map(|c| (c.check_type, c.status)).collect()
}

#[test]
fn missing_file_has_one_failed_check() {
    let v = ModelValidator::new("/tmp/t".to_string());
    for strict in [false, true] {
        let r = v.validate_with("/no/such/file.gguf", 7, 0, all_checks(strict), &missing());
        assert!(!r.is_valid);
        assert_eq!(statuses(&r), vec![(CheckType::FileExists, CheckStatus::Failed)]);
        assert_eq!(r.errors.len(), 1);
        assert_eq!(r.errors[0].severity, ErrorSeverity::Critical);
        assert!(r.warnings.is_empty());
        assert_eq!(r.metadata.file_size, 0);
        assert!(r.metadata.checksum_sha256.is_empty());
        assert!(r.metadata.file_type.is_empty());
        assert!(r.metadata.model_format.is_none());
        assert_eq!(r.model_id, 7);
    }
}

#[test]
fn clean_gguf_file_passes_every_check() {
    let mut v = ModelValidator::new("/tmp/t".to_string());
    v.load_signatures(vec![signature("model.gguf")]);
    let r = v.validate_with("/m/model.gguf", 1, 5, all_checks(true), &snapshot(b"GGUF", true));
    assert!(r.is_valid);
    assert_eq!(
        statuses(&r),
        vec![
            (CheckType::FileExists, CheckStatus::Passed),
            (CheckType::Checksum, CheckStatus::Passed),
            (CheckType::FileFormat, CheckStatus::Passed),
            (CheckType::MalwareCheck, CheckStatus::Passed),
            (CheckType::Permissions, CheckStatus::Passed),
            (CheckType::Dependencies, CheckStatus::Passed),
            (CheckType::DigitalSignature, CheckStatus::Passed),
        ]
    );
    assert!(r.errors.is_empty());
    assert!(r.warnings.is_empty());
    assert_eq!(r.metadata.file_size, 4);
    assert_eq!(r.metadata.file_type, "gguf");
    assert_eq!(r.metadata.model_format, Some(ModelFormat::GGUF));
    assert_eq!(r.metadata.permissions, 0o644);
    assert_eq!(r.validation_time, 5);
    assert_eq!(r.model_path, "/m/model.gguf");
}

#[test]
fn metadata_records_sha256_of_content() {
    let v = ModelValidator::new("/tmp/t".to_string());
    let r = v.validate_with("/m/a.bin", 1, 0, ValidationConfig::default(), &snapshot(b"abc", true));
    assert_eq!(
        r.metadata.checksum_sha256,
        "ba7816bf8f01cfea414140de5dae2223b00361a396177a9cb410ff61f20015ad"
    );
}

#[test]
fn exe_fails_malware_scan_critically() {
    let v = ModelValidator::new("/tmp/t".to_string());
    for strict in [false, true] {
        let r = v.validate_with("/m/tool.exe", 1, 0, all_checks(strict), &snapshot(b"MZ", true));
        assert!(!r.is_valid);
        assert!(statuses(&r).contains(&(CheckType::MalwareCheck, CheckStatus::Failed)));
        assert!(r
            .errors
            .iter()
            .any(|e| e.error_type == ErrorType::SecurityRisk && e.severity == ErrorSeverity::Critical));
    }
}

#[test]
fn other_denied_extensions_fail_malware_scan() {
    let v = ModelValidator::new("/tmp/t".to_string());
    for path in ["/m/a.bat", "/m/a.cmd", "/m/a.scr", "/m/a.com"] {
        let r = v.validate_with(path, 1, 0, ValidationConfig::default(), &snapshot(b"x", true));
        assert!(!r.is_valid, "{}", path);
    }
}

#[test]
fn malware_scan_disabled_lets_exe_through() {
    let v = ModelValidator::new("/tmp/t".to_string());
    let mut config = ValidationConfig::default();
    config.enable_malware_scanning = false;
    let r = v.validate_with("/m/tool.exe", 1, 0, config, &snapshot(b"MZ", true));
    assert!(r.is_valid);
}

#[test]
fn checksum_mismatch_is_tolerated_outside_strict_mode() {
    let v = ModelValidator::new("/tmp/t".to_string());
    let mut file = snapshot(b"GGUF", true);
    file.reread = Some(b"changed".to_vec());
    let r = v.validate_with("/m/model.gguf", 1, 0, all_checks(false), &file);
    assert!(statuses(&r).contains(&(CheckType::Checksum, CheckStatus::Failed)));
    assert!(r
        .errors
        .iter()
        .any(|e| e.error_type == ErrorType::ChecksumMismatch && e.severity == ErrorSeverity::High));
    assert!(r.is_valid);
}

#[test]
fn checksum_read_failure_fails_the_check() {
    let v = ModelValidator::new("/tmp/t".to_string());
    let mut file = snapshot(b"GGUF", true);
    file.reread = None;
    let r = v.validate_with("/m/model.gguf", 1, 0, all_checks(false), &file);
    assert!(statuses(&r).contains(&(CheckType::Checksum, CheckStatus::Failed)));
}

#[test]
fn unsigned_file_is_invalid_in_strict_mode() {
    let v = ModelValidator::new("/tmp/t".to_string());
    let r = v.validate_with("/m/model.gguf", 1, 0, all_checks(true), &snapshot(b"GGUF", true));
    assert!(!r.is_valid);
    assert_eq!(
        statuses(&r).last(),
        Some(&(CheckType::DigitalSignature, CheckStatus::Failed))
    );
    assert!(r.errors.iter().any(|e| e.severity == ErrorSeverity::High));
}

#[test]
fn unsigned_file_is_a_warning_outside_strict_mode() {
    let v = ModelValidator::new("/tmp/t".to_string());
    let r = v.validate_with("/m/model.gguf", 1, 0, all_checks(false), &snapshot(b"GGUF", true));
    assert!(r.is_valid);
    assert_eq!(
        statuses(&r).last(),
        Some(&(CheckType::DigitalSignature, CheckStatus::Warning))
    );
    assert_eq!(r.warnings.len(), 1);
    assert_eq!(r.warnings[0].warning_type, WarningType::SecurityConcern);
}

#[test]
fn writable_file_gives_permission_warning() {
    let mut v = ModelValidator::new("/tmp/t".to_string());
    v.load_signatures(vec![signature("model.gguf")]);
    let r = v.validate_with("/m/model.gguf", 1, 0, all_checks(false), &snapshot(b"GGUF", false));
    assert!(r.is_valid);
    assert!(statuses(&r).contains(&(CheckType::Permissions, CheckStatus::Warning)));
    assert_eq!(r.warnings.len(), 1);
}

#[test]
fn unknown_format_is_a_warning_check_only() {
    let mut v = ModelValidator::new("/tmp/t".to_string());
    v.load_signatures(vec![signature("notes.xyz")]);
    let r = v.validate_with("/m/notes.xyz", 1, 0, all_checks(false), &snapshot(b"hello", true));
    assert!(statuses(&r).contains(&(CheckType::FileFormat, CheckStatus::Warning)));
    assert!(r.errors.is_empty());
    assert_eq!(r.metadata.model_format, Some(ModelFormat::Unknown("xyz".to_string())));
}

#[test]
fn disabled_checks_are_not_recorded() {
    let v = ModelValidator::new("/tmp/t".to_string());
    let config = ValidationConfig {
        enable_checksum_verification: false,
        enable_malware_scanning: false,
        enable_format_validation: false,
        enable_dependency_check: false,
        enable_permission_check: false,
        strict_mode: false,
        timeout_seconds: 1,
        quarantine_suspicious_files: false,
    };
    let r = v.validate_with("/m/model.gguf", 1, 0, config, &snapshot(b"GGUF", true));
    assert_eq!(
        statuses(&r),
        vec![
            (CheckType::FileExists, CheckStatus::Passed),
            (CheckType::DigitalSignature, CheckStatus::Warning),
        ]
    );
}

#[test]
fn validate_model_keeps_given_id_and_generates_one_otherwise() {
    let v = ModelValidator::new("/tmp/t".to_string());
    let r = v.validate_model("/m/model.gguf", Some(42), ValidationConfig::default(), &snapshot(b"GGUF", true));
    assert_eq!(r.model_id, 42);
    let a = v.validate_model("/m/model.gguf", None, ValidationConfig::default(), &snapshot(b"GGUF", true));
    let b = v.validate_model("/m/model.gguf", None, ValidationConfig::default(), &snapshot(b"GGUF", true));
    assert_ne!(a.model_id, b.model_id);
    assert!(a.validation_time > 0);
}

#[test]
fn quick_validate_checks_checksum_and_format_only() {
    let v = ModelValidator::new("/tmp/t".to_string());
    assert!(v.quick_validate("/m/tool.exe", &snapshot(b"MZ", false)));
    assert!(!v.quick_validate("/m/none.gguf", &missing()));
}

#[test]
fn default_validation_config() {
    let c = ValidationConfig::default();
    assert!(c.enable_checksum_verification);
    assert!(c.enable_malware_scanning);
    assert!(c.enable_format_validation);
    assert!(!c.enable_dependency_check);
    assert!(c.enable_permission_check);
    assert!(!c.strict_mode);
    assert_eq!(c.timeout_seconds, 120);
    assert!(!c.quarantine_suspicious_files);
}

fn error(severity: ErrorSeverity) -> ValidationError {
    ValidationError {
        error_type: ErrorType::UnknownError,
        message: String::new(),
        severity,
        details: vec![],
    }
}

#[test]
fn verdict_follows_severity_policy() {
    assert!(compute_is_valid(&vec![], true));
    assert!(compute_is_valid(&vec![error(ErrorSeverity::High), error(ErrorSeverity::Medium)], false));
    assert!(!compute_is_valid(&vec![error(ErrorSeverity::High)], true));
    assert!(!compute_is_valid(&vec![error(ErrorSeverity::Low), error(ErrorSeverity::Critical)], false));
    assert!(compute_is_valid(&vec![error(ErrorSeverity::Low)], true));
}

#[test]
fn signature_lookup_by_file_name() {
    let mut v = ModelValidator::new("/tmp/t".to_string());
    assert!(!v.has_signature("a.gguf"));
    v.load_signatures(vec![signature("a.gguf"), signature("b.gguf")]);
    assert!(v.has_signature("b.gguf"));
    assert!(!v.has_signature("c.gguf"));
    assert_eq!(v.temp_dir(), "/tmp/t");
}

#[test]
fn repeated_signature_names_are_kept_once() {
    let mut v = ModelValidator::new("/tmp/t".to_string());
    v.load_signatures(vec![signature("a.gguf"), signature("b.gguf"), signature("a.gguf")]);
    assert!(v.has_signature("a.gguf"));
    assert!(v.has_signature("b.gguf"));
    let r = v.validate_with("/m/a.gguf", 1, 0, all_checks(true), &snapshot(b"GGUF", true));
    assert!(r.is_valid);
}
