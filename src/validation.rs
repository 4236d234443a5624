//! Validation engine: a fixed sequence of checks over a model file, each
//! recorded with its outcome, and a verdict over the errors found.

use vstd::prelude::*;
use crate::checksum::{
    calculate_checksum, checksums_match, same_ignoring_ascii_case, sha256_hex, ChecksumType,
};
use crate::format::{
    detect_file_type, detect_format_spec, detect_model_format, extension_or_empty, file_type_spec,
    FormatView, ModelFormat,
};
use crate::ids::{new_model_id, now_millis};
use crate::paths::{extension, extension_of, file_name, file_name_of, same_text};

verus! {

/// The kinds of check a validation run can record.
#[derive(Clone, Copy, Debug, PartialEq, Eq, Structural)]
pub enum CheckType {
    FileExists,
    FileSize,
    Checksum,
    FileFormat,
    ModelStructure,
    Dependencies,
    Permissions,
    MalwareCheck,
    DigitalSignature,
    VersionCompatibility,
}

/// Outcome of one check.
#[derive(Clone, Copy, Debug, PartialEq, Eq, Structural)]
pub enum CheckStatus {
    Passed,
    Failed,
    Warning,
    Skipped,
}

/// One check performed, with its outcome and key/value details.
#[derive(Clone, Debug)]
pub struct ValidationCheck {
    pub check_type: CheckType,
    pub status: CheckStatus,
    pub message: String,
    pub details: Vec<(String, String)>,
}

/// Kinds of validation error.
#[derive(Clone, Copy, Debug, PartialEq, Eq, Structural)]
pub enum ErrorType {
    CorruptedFile,
    InvalidFormat,
    ChecksumMismatch,
    MissingDependencies,
    SecurityRisk,
    VersionIncompatibility,
    PermissionDenied,
    UnknownError,
}

/// Seriousness of a validation error, from `Low` to `Critical`.
#[derive(Clone, Copy, Debug, PartialEq, Eq, Structural)]
pub enum ErrorSeverity {
    Low,
    Medium,
    High,
    Critical,
}

/// Kinds of validation warning.
#[derive(Clone, Copy, Debug, PartialEq, Eq, Structural)]
pub enum WarningType {
    PerformanceIssue,
    CompatibilityIssue,
    SecurityConcern,
    DeprecatedFeature,
    ResourceUsage,
}

/// An error found by a check.
#[derive(Clone, Debug)]
pub struct ValidationError {
    pub error_type: ErrorType,
    pub message: String,
    pub severity: ErrorSeverity,
    pub details: Vec<(String, String)>,
}

/// A non-fatal finding, with advice.
#[derive(Clone, Debug)]
pub struct ValidationWarning {
    pub warning_type: WarningType,
    pub message: String,
    pub recommendation: String,
}

/// What was learnt of the file. Times are milliseconds since the Unix epoch.
#[derive(Clone, Debug)]
pub struct ModelMetadata {
    pub file_size: u64,
    pub checksum_sha256: String,
    pub file_type: String,
    pub mime_type: Option<String>,
    pub creation_time: Option<i64>,
    pub modification_time: Option<i64>,
    pub permissions: u32,
    pub is_executable: bool,
    pub architecture: Option<String>,
    pub model_format: Option<ModelFormat>,
}

/// A known signature of a model file.
#[derive(Clone, Debug)]
pub struct ModelSignature {
    pub model_name: String,
    pub version: String,
    pub provider: String,
    pub expected_size: u64,
    pub expected_checksum: String,
    pub checksum_type: ChecksumType,
    pub format: ModelFormat,
    pub trusted: bool,
    pub signature_date: i64,
}

/// Which checks run, and how strictly the verdict is taken.
#[derive(Clone, Copy, Debug)]
pub struct ValidationConfig {
    pub enable_checksum_verification: bool,
    pub enable_malware_scanning: bool,
    pub enable_format_validation: bool,
    pub enable_dependency_check: bool,
    pub enable_permission_check: bool,
    pub strict_mode: bool,
    pub timeout_seconds: u64,
    pub quarantine_suspicious_files: bool,
}

impl Default for ValidationConfig {
    fn default() -> (r: Self)
        ensures
            r.enable_checksum_verification,
            r.enable_malware_scanning,
            r.enable_format_validation,
            !r.enable_dependency_check,
            r.enable_permission_check,
            !r.strict_mode,
            r.timeout_seconds == 120,
            !r.quarantine_suspicious_files,
    {
        ValidationConfig {
            enable_checksum_verification: true,
            enable_malware_scanning: true,
            enable_format_validation: true,
            enable_dependency_check: false,
            enable_permission_check: true,
            strict_mode: false,
            timeout_seconds: 120,
            quarantine_suspicious_files: false,
        }
    }
}

/// Errors of the validator's own operations.
#[derive(Clone, Debug, PartialEq, Eq)]
pub enum ValidatorError {
    IoError(String),
    JsonError(String),
    TimeoutError,
    FileNotFound(String),
    AccessDenied(String),
    UnsupportedFormat(String),
    ConfigError(String),
}

/// What the caller read of a file before validation.
#[derive(Clone, Debug)]
pub struct FileSnapshot {
    /// The path exists and is a regular file.
    pub is_file: bool,
    /// Its length in bytes.
    pub size: u64,
    /// Its content, read once for the metadata.
    pub content: Vec<u8>,
    /// Its content read a second time for checksum verification, `None`
    /// where that read failed.
    pub reread: Option<Vec<u8>>,
    /// Whether it is read-only, `None` where its permissions could not be read.
    pub readonly: Option<bool>,
}

/// The verdict of one validation run.
#[derive(Clone, Debug)]
pub struct ValidationResult {
    pub model_id: u128,
    pub model_path: String,
    pub is_valid: bool,
    pub validation_time: i64,
    pub checks_performed: Vec<ValidationCheck>,
    pub errors: Vec<ValidationError>,
    pub warnings: Vec<ValidationWarning>,
    pub metadata: ModelMetadata,
}

/// Validates model files against a table of known signatures.
pub struct ModelValidator {
    known_signatures: Vec<(String, ModelSignature)>,
    temp_dir: String,
}

// ---------------------------------------------------------------------------
// The model of a validation run.

pub open spec fn opt<A>(present: bool, x: A) -> Seq<A> {
    if present {
        seq![x]
    } else {
        Seq::empty()
    }
}

pub open spec fn check_kinds(v: Seq<ValidationCheck>) -> Seq<(CheckType, CheckStatus)> {
    v.map_values(|c: ValidationCheck| (c.check_type, c.status))
}

pub open spec fn error_kinds(v: Seq<ValidationError>) -> Seq<(ErrorType, ErrorSeverity)> {
    v.map_values(|e: ValidationError| (e.error_type, e.severity))
}

pub open spec fn warning_kinds(v: Seq<ValidationWarning>) -> Seq<WarningType> {
    v.map_values(|w: ValidationWarning| w.warning_type)
}

/// Outcome of checksum verification against `expected`: the re-read
/// content must give that digest, compared without regard to case; a failed
/// re-read fails the check.
pub open spec fn checksum_status(file: FileSnapshot, expected: Seq<char>) -> CheckStatus {
    match file.reread {
        Some(b) => if same_ignoring_ascii_case(sha256_hex(b@), expected) {
            CheckStatus::Passed
        } else {
            CheckStatus::Failed
        },
        None => CheckStatus::Failed,
    }
}

/// Outcome of format validation for a detected format, if any.
pub open spec fn format_status(f: Option<FormatView>) -> CheckStatus {
    match f {
        Some(FormatView::Unknown(_)) => CheckStatus::Warning,
        Some(_) => CheckStatus::Passed,
        None => CheckStatus::Failed,
    }
}

/// The view of a detected format, if any.
pub open spec fn detected_format(f: Option<ModelFormat>) -> Option<FormatView> {
    match f {
        Some(f) => Some(f@),
        None => None,
    }
}

/// Extensions that the malware heuristic refuses.
pub open spec fn is_denied_extension(ext: Seq<char>) -> bool {
    ext == "exe"@ || ext == "bat"@ || ext == "cmd"@ || ext == "scr"@ || ext == "com"@
}

pub open spec fn malware_status(path: Seq<char>) -> CheckStatus {
    if is_denied_extension(extension_or_empty(path)) {
        CheckStatus::Failed
    } else {
        CheckStatus::Passed
    }
}

pub open spec fn permission_status(file: FileSnapshot) -> CheckStatus {
    match file.readonly {
        Some(true) => CheckStatus::Passed,
        Some(false) => CheckStatus::Warning,
        None => CheckStatus::Failed,
    }
}

/// The name under which a file's signature is looked up.
pub open spec fn signature_key(path: Seq<char>) -> Seq<char> {
    match file_name_of(path) {
        Some(n) => n,
        None => Seq::empty(),
    }
}

pub open spec fn signature_status(names: Seq<Seq<char>>, path: Seq<char>, strict: bool) -> CheckStatus {
    if names.contains(signature_key(path)) {
        CheckStatus::Passed
    } else if strict {
        CheckStatus::Failed
    } else {
        CheckStatus::Warning
    }
}

pub open spec fn has_severity(errors: Seq<(ErrorType, ErrorSeverity)>, s: ErrorSeverity) -> bool {
    exists|i: int| 0 <= i < errors.len() && (#[trigger] errors[i]).1 == s
}

/// No Critical error, and in strict mode no High one either.
pub open spec fn verdict(errors: Seq<(ErrorType, ErrorSeverity)>, strict: bool) -> bool {
    !has_severity(errors, ErrorSeverity::Critical) && (!strict || !has_severity(
        errors,
        ErrorSeverity::High,
    ))
}

pub open spec fn expected_checks(
    names: Seq<Seq<char>>,
    path: Seq<char>,
    config: ValidationConfig,
    file: FileSnapshot,
) -> Seq<(CheckType, CheckStatus)> {
    if !file.is_file {
        seq![(CheckType::FileExists, CheckStatus::Failed)]
    } else {
        seq![(CheckType::FileExists, CheckStatus::Passed)] + opt(
            config.enable_checksum_verification,
            (CheckType::Checksum, checksum_status(file, sha256_hex(file.content@))),
        ) + opt(
            config.enable_format_validation,
            (CheckType::FileFormat, format_status(Some(detect_format_spec(path, file.content@)))),
        ) + opt(config.enable_malware_scanning, (CheckType::MalwareCheck, malware_status(path)))
            + opt(
            config.enable_permission_check,
            (CheckType::Permissions, permission_status(file)),
        ) + opt(config.enable_dependency_check, (CheckType::Dependencies, CheckStatus::Passed))
            + seq![
            (CheckType::DigitalSignature, signature_status(names, path, config.strict_mode)),
        ]
    }
}

pub open spec fn expected_errors(
    names: Seq<Seq<char>>,
    path: Seq<char>,
    config: ValidationConfig,
    file: FileSnapshot,
) -> Seq<(ErrorType, ErrorSeverity)> {
    if !file.is_file {
        seq![(ErrorType::CorruptedFile, ErrorSeverity::Critical)]
    } else {
        opt(
            config.enable_checksum_verification && checksum_status(file, sha256_hex(file.content@)) == CheckStatus::Failed,
            (ErrorType::ChecksumMismatch, ErrorSeverity::High),
        ) + opt(
            config.enable_format_validation && format_status(
                Some(detect_format_spec(path, file.content@)),
            ) == CheckStatus::Failed,
            (ErrorType::InvalidFormat, ErrorSeverity::Medium),
        ) + opt(
            config.enable_malware_scanning && malware_status(path) == CheckStatus::Failed,
            (ErrorType::SecurityRisk, ErrorSeverity::Critical),
        ) + opt(
            signature_status(names, path, config.strict_mode) == CheckStatus::Failed,
            (ErrorType::SecurityRisk, ErrorSeverity::High),
        )
    }
}

pub open spec fn expected_warnings(
    names: Seq<Seq<char>>,
    path: Seq<char>,
    config: ValidationConfig,
    file: FileSnapshot,
) -> Seq<WarningType> {
    if !file.is_file {
        Seq::empty()
    } else {
        opt(
            config.enable_permission_check && permission_status(file) == CheckStatus::Warning,
            WarningType::SecurityConcern,
        ) + opt(
            signature_status(names, path, config.strict_mode) == CheckStatus::Warning,
            WarningType::SecurityConcern,
        )
    }
}

/// Metadata of a file that was found: size, SHA-256, type and format.
pub open spec fn metadata_of(m: ModelMetadata, path: Seq<char>, file: FileSnapshot) -> bool {
    &&& m.file_size == file.size
    &&& m.checksum_sha256@ == sha256_hex(file.content@)
    &&& m.file_type@ == file_type_spec(path)
    &&& m.model_format matches Some(f) && f@ == detect_format_spec(path, file.content@)
    &&& m.permissions == 0o644
    &&& !m.is_executable
    &&& m.mime_type is None
    &&& m.creation_time is None
    &&& m.modification_time is None
    &&& m.architecture is None
}

/// The empty metadata of a file that was not found.
pub open spec fn metadata_is_empty(m: ModelMetadata) -> bool {
    &&& m.file_size == 0
    &&& m.checksum_sha256@.len() == 0
    &&& m.file_type@.len() == 0
    &&& m.mime_type is None
    &&& m.creation_time is None
    &&& m.modification_time is None
    &&& m.permissions == 0
    &&& !m.is_executable
    &&& m.architecture is None
    &&& m.model_format is None
}

/// The whole outcome of validating `file` at `path`.
pub open spec fn validation_outcome(
    r: ValidationResult,
    names: Seq<Seq<char>>,
    path: Seq<char>,
    config: ValidationConfig,
    file: FileSnapshot,
) -> bool {
    &&& r.model_path@ == path
    &&& check_kinds(r.checks_performed@) == expected_checks(names, path, config, file)
    &&& error_kinds(r.errors@) == expected_errors(names, path, config, file)
    &&& warning_kinds(r.warnings@) == expected_warnings(names, path, config, file)
    &&& r.is_valid == verdict(error_kinds(r.errors@), config.strict_mode)
    &&& if file.is_file {
        metadata_of(r.metadata, path, file)
    } else {
        metadata_is_empty(r.metadata)
    }
}

/// The configuration of a quick validation: checksum and format only,
/// not strict.
pub open spec fn quick_config(c: ValidationConfig) -> bool {
    &&& c.enable_checksum_verification
    &&& !c.enable_malware_scanning
    &&& c.enable_format_validation
    &&& !c.enable_dependency_check
    &&& !c.enable_permission_check
    &&& !c.strict_mode
}

proof fn lemma_map_push<A, B>(s: Seq<A>, x: A, f: spec_fn(A) -> B)
    ensures
        s.push(x).map_values(f) == s.map_values(f).push(f(x)),
{
    assert(s.push(x).map_values(f) =~= s.map_values(f).push(f(x)));
}

fn push_check(checks: &mut Vec<ValidationCheck>, c: ValidationCheck)
    ensures
        check_kinds(final(checks)@) == check_kinds(old(checks)@).push((c.check_type, c.status)),
{
    proof {
        lemma_map_push(checks@, c, |c: ValidationCheck| (c.check_type, c.status));
    }
    checks.push(c);
}

fn push_error(errors: &mut Vec<ValidationError>, e: ValidationError)
    ensures
        error_kinds(final(errors)@) == error_kinds(old(errors)@).push((e.error_type, e.severity)),
{
    proof {
        lemma_map_push(errors@, e, |e: ValidationError| (e.error_type, e.severity));
    }
    errors.push(e);
}

fn push_warning(warnings: &mut Vec<ValidationWarning>, w: ValidationWarning)
    ensures
        warning_kinds(final(warnings)@) == warning_kinds(old(warnings)@).push(w.warning_type),
{
    proof {
        lemma_map_push(warnings@, w, |w: ValidationWarning| w.warning_type);
    }
    warnings.push(w);
}

fn make_check(check_type: CheckType, status: CheckStatus, message: &str) -> (r: ValidationCheck)
    ensures
        r.check_type == check_type,
        r.status == status,
{
    ValidationCheck { check_type, status, message: message.to_string(), details: Vec::new() }
}

fn make_error(error_type: ErrorType, severity: ErrorSeverity, message: &str) -> (r: ValidationError)
    ensures
        r.error_type == error_type,
        r.severity == severity,
{
    ValidationError { error_type, message: message.to_string(), severity, details: Vec::new() }
}

fn make_warning(warning_type: WarningType, message: &str, recommendation: &str) -> (r:
    ValidationWarning)
    ensures
        r.warning_type == warning_type,
{
    ValidationWarning {
        warning_type,
        message: message.to_string(),
        recommendation: recommendation.to_string(),
    }
}

fn empty_metadata() -> (r: ModelMetadata)
    ensures
        metadata_is_empty(r),
{
    ModelMetadata {
        file_size: 0,
        checksum_sha256: String::new(),
        file_type: String::new(),
        mime_type: None,
        creation_time: None,
        modification_time: None,
        permissions: 0,
        is_executable: false,
        architecture: None,
        model_format: None,
    }
}

/// Whether any error has severity `s`.
fn any_severity(errors: &Vec<ValidationError>, s: ErrorSeverity) -> (r: bool)
    ensures
        r == has_severity(error_kinds(errors@), s),
{
    let mut i: usize = 0;
    while i < errors.len()
        invariant
            i <= errors@.len(),
            forall|j: int| 0 <= j < i ==> (#[trigger] errors@[j]).severity != s,
        decreases errors@.len() - i,
    {
        if errors[i].severity == s {
            assert(error_kinds(errors@)[i as int].1 == s);
            return true;
        }
        i = i + 1;
    }
    assert forall|j: int| 0 <= j < error_kinds(errors@).len() implies (#[trigger] error_kinds(
        errors@,
    )[j]).1 != s by {
        assert(errors@[j].severity != s);
    }
    false
}

/// The verdict over a list of errors: valid when none is Critical and, in
/// strict mode, none is High.
pub fn compute_is_valid(errors: &Vec<ValidationError>, strict_mode: bool) -> (r: bool)
    ensures
        r == verdict(error_kinds(errors@), strict_mode),
{
    let has_critical = any_severity(errors, ErrorSeverity::Critical);
    let has_high = any_severity(errors, ErrorSeverity::High);
    !has_critical && (!strict_mode || !has_high)
}

impl ModelValidator {
    /// The names under which signatures are known.
    pub closed spec fn signature_names(&self) -> Seq<Seq<char>> {
        entry_names(self.known_signatures@)
    }

    /// No name is known twice.
    pub closed spec fn well_formed(&self) -> bool {
        self.signature_names().no_duplicates()
    }

    pub closed spec fn temp_dir_spec(&self) -> Seq<char> {
        self.temp_dir@
    }

    /// A validator with no known signatures; `temp_dir` is where it may keep
    /// scratch files.
    pub fn new(temp_dir: String) -> (r: Self)
        ensures
            r.well_formed(),
            r.signature_names().len() == 0,
            r.temp_dir_spec() == temp_dir@,
    {
        ModelValidator { known_signatures: Vec::new(), temp_dir }
    }

    /// The directory given at construction.
    pub fn temp_dir(&self) -> (r: &str)
        ensures
            r@ == self.temp_dir_spec(),
    {
        self.temp_dir.as_str()
    }

    /// Replaces the table of known signatures, keyed by file name. Where a
    /// name comes twice, the later entry replaces the earlier, as in a map.
    pub fn load_signatures(&mut self, signatures: Vec<(String, ModelSignature)>)
        ensures
            final(self).well_formed(),
            forall|n: Seq<char>|
                #![trigger final(self).signature_names().contains(n)]
                final(self).signature_names().contains(n) <==> entry_names(signatures@).contains(n),
            final(self).temp_dir_spec() == old(self).temp_dir_spec(),
    {
        let ghost input = entry_names(signatures@);
        let ghost all = signatures@;
        let mut rest = signatures;
        let mut table: Vec<(String, ModelSignature)> = Vec::new();
        let mut k: usize = 0;
        let count = rest.len();
        proof {
            assert(entry_names(table@) =~= Seq::<Seq<char>>::empty());
            assert(all.subrange(0, 0) =~= Seq::<(String, ModelSignature)>::empty());
        }
        while rest.len() > 0
            invariant
                k <= all.len(),
                all.len() == count,
                input == entry_names(all),
                rest@ == all.subrange(k as int, all.len() as int),
                entry_names(table@).no_duplicates(),
                forall|n: Seq<char>|
                    #![trigger entry_names(table@).contains(n)]
                    entry_names(table@).contains(n) <==> input.subrange(0, k as int).contains(n),
            decreases rest@.len(),
        {
            assert(k < all.len());
            let e = rest.remove(0);
            let ghost name = e.0@;
            let ghost before = entry_names(table@);
            assert(e == all[k as int]);
            assert(input[k as int] == name);
            match position_of(&table, e.0.as_str()) {
                Some(i) => {
                    table[i] = e;
                    assert(entry_names(table@) =~= before);
                },
                None => {
                    table.push(e);
                    assert(entry_names(table@) =~= before.push(name));
                    assert forall|a: int, b: int|
                        0 <= a < b < entry_names(table@).len() implies entry_names(table@)[a]
                        != entry_names(table@)[b] by {
                        if b == before.len() {
                            assert(before[a] != name);
                        }
                    }
                },
            }
            assert(input.subrange(0, k + 1) =~= input.subrange(0, k as int).push(name));
            k = k + 1;
            assert forall|n: Seq<char>|
                #![trigger entry_names(table@).contains(n)]
                entry_names(table@).contains(n) <==> input.subrange(0, k as int).contains(n) by {
                if n == name {
                    assert(input.subrange(0, k as int)[k - 1] == name);
                    if !before.contains(name) {
                        assert(entry_names(table@)[before.len() as int] == name);
                    }
                } else {
                    if entry_names(table@).contains(n) {
                        let j = choose|j: int| 0 <= j < entry_names(table@).len() && entry_names(table@)[j] == n;
                        assert(before[j] == n);
                    }
                    if input.subrange(0, k as int).contains(n) {
                        let j = choose|j: int| 0 <= j < k && input.subrange(0, k as int)[j] == n;
                        assert(input.subrange(0, k - 1)[j] == n);
                    }
                    if before.contains(n) {
                        let j = choose|j: int| 0 <= j < before.len() && before[j] == n;
                        assert(entry_names(table@)[j] == n);
                    }
                }
            }
        }
        assert(k == all.len());
        assert(input.subrange(0, k as int) =~= input);
        self.known_signatures = table;
    }

    /// Whether a signature is known under `name`.
    pub fn has_signature(&self, name: &str) -> (r: bool)
        ensures
            r == self.signature_names().contains(name@),
    {
        position_of(&self.known_signatures, name).is_some()
    }

    fn check_file_exists(&self, file: &FileSnapshot) -> (r: ValidationCheck)
        ensures
            r.check_type == CheckType::FileExists,
            r.status == (if file.is_file {
                CheckStatus::Passed
            } else {
                CheckStatus::Failed
            }),
    {
        if file.is_file {
            make_check(CheckType::FileExists, CheckStatus::Passed, "file exists")
        } else {
            make_check(
                CheckType::FileExists,
                CheckStatus::Failed,
                "file does not exist or is not a regular file",
            )
        }
    }

    fn extract_metadata(&self, path: &str, file: &FileSnapshot) -> (r: ModelMetadata)
        ensures
            metadata_of(r, path@, *file),
    {
        let checksum_sha256 = calculate_sha256(file.content.as_slice());
        let file_type = detect_file_type(path);
        let model_format = detect_model_format(path, file.content.as_slice());
        ModelMetadata {
            file_size: file.size,
            checksum_sha256,
            file_type,
            mime_type: None,
            creation_time: None,
            modification_time: None,
            permissions: 0o644,
            is_executable: false,
            architecture: None,
            model_format: Some(model_format),
        }
    }

    fn verify_checksum(&self, file: &FileSnapshot, expected: &String) -> (r: ValidationCheck)
        ensures
            r.check_type == CheckType::Checksum,
            r.status == checksum_status(*file, expected@),
    {
        match &file.reread {
            Some(bytes) => {
                let actual = calculate_sha256(bytes.as_slice());
                let mut details: Vec<(String, String)> = Vec::new();
                details.push(("expected".to_string(), expected.clone()));
                details.push(("actual".to_string(), actual.clone()));
                if checksums_match(actual.as_str(), expected.as_str()) {
                    ValidationCheck {
                        check_type: CheckType::Checksum,
                        status: CheckStatus::Passed,
                        message: "checksum matches".to_string(),
                        details,
                    }
                } else {
                    ValidationCheck {
                        check_type: CheckType::Checksum,
                        status: CheckStatus::Failed,
                        message: "checksum mismatch".to_string(),
                        details,
                    }
                }
            },
            None => make_check(
                CheckType::Checksum,
                CheckStatus::Failed,
                "checksum could not be computed",
            ),
        }
    }

    fn validate_file_format(&self, metadata: &ModelMetadata) -> (r: ValidationCheck)
        ensures
            r.check_type == CheckType::FileFormat,
            r.status == format_status(detected_format(metadata.model_format)),
    {
        match &metadata.model_format {
            Some(ModelFormat::Unknown(_)) => make_check(
                CheckType::FileFormat,
                CheckStatus::Warning,
                "unknown file format",
            ),
            Some(_) => make_check(CheckType::FileFormat, CheckStatus::Passed, "supported format"),
            None => make_check(
                CheckType::FileFormat,
                CheckStatus::Failed,
                "file format could not be detected",
            ),
        }
    }

    fn scan_for_malware(&self, path: &str) -> (r: ValidationCheck)
        ensures
            r.check_type == CheckType::MalwareCheck,
            r.status == malware_status(path@),
    {
        let ext = match extension(path) {
            Some(e) => e,
            None => "",
        };
        proof {
            reveal_strlit("");
            assert(""@ =~= Seq::<char>::empty());
        }
        if same_text(ext, "exe") || same_text(ext, "bat") || same_text(ext, "cmd") || same_text(
            ext,
            "scr",
        ) || same_text(ext, "com") {
            let mut details: Vec<(String, String)> = Vec::new();
            details.push(("extension".to_string(), ext.to_string()));
            ValidationCheck {
                check_type: CheckType::MalwareCheck,
                status: CheckStatus::Failed,
                message: "suspicious file type".to_string(),
                details,
            }
        } else {
            make_check(CheckType::MalwareCheck, CheckStatus::Passed, "no malware detected")
        }
    }

    fn check_permissions(&self, file: &FileSnapshot) -> (r: ValidationCheck)
        ensures
            r.check_type == CheckType::Permissions,
            r.status == permission_status(*file),
    {
        match file.readonly {
            Some(true) => make_check(CheckType::Permissions, CheckStatus::Passed, "permissions are sound"),
            Some(false) => make_check(CheckType::Permissions, CheckStatus::Warning, "file is writable"),
            None => make_check(
                CheckType::Permissions,
                CheckStatus::Failed,
                "permissions could not be read",
            ),
        }
    }

    fn check_dependencies(&self) -> (r: ValidationCheck)
        ensures
            r.check_type == CheckType::Dependencies,
            r.status == CheckStatus::Passed,
    {
        make_check(CheckType::Dependencies, CheckStatus::Passed, "dependencies satisfied")
    }

    fn verify_digital_signature(&self, path: &str, strict_mode: bool) -> (r: ValidationCheck)
        ensures
            r.check_type == CheckType::DigitalSignature,
            r.status == signature_status(self.signature_names(), path@, strict_mode),
    {
        let key = match file_name(path) {
            Some(n) => n,
            None => "",
        };
        proof {
            reveal_strlit("");
            assert(""@ =~= Seq::<char>::empty());
        }
        if self.has_signature(key) {
            make_check(CheckType::DigitalSignature, CheckStatus::Passed, "known signature found")
        } else if strict_mode {
            make_check(CheckType::DigitalSignature, CheckStatus::Failed, "no digital signature found")
        } else {
            make_check(CheckType::DigitalSignature, CheckStatus::Warning, "no digital signature found")
        }
    }
}

impl ModelValidator {
    fn stage_checksum(
        &self,
        enabled: bool,
        file: &FileSnapshot,
        expected: &String,
        checks: &mut Vec<ValidationCheck>,
        errors: &mut Vec<ValidationError>,
    )
        ensures
            check_kinds(final(checks)@) == check_kinds(old(checks)@) + opt(
                enabled,
                (CheckType::Checksum, checksum_status(*file, expected@)),
            ),
            error_kinds(final(errors)@) == error_kinds(old(errors)@) + opt(
                enabled && checksum_status(*file, expected@) == CheckStatus::Failed,
                (ErrorType::ChecksumMismatch, ErrorSeverity::High),
            ),
    {
        let ghost c0 = check_kinds(checks@);
        let ghost e0 = error_kinds(errors@);
        if enabled {
            let c = self.verify_checksum(file, expected);
            let failed = c.status == CheckStatus::Failed;
            push_check(checks, c);
            if failed {
                push_error(
                    errors,
                    make_error(ErrorType::ChecksumMismatch, ErrorSeverity::High, "checksum mismatch"),
                );
            }
        }
        assert(check_kinds(checks@) =~= c0 + opt(enabled, (CheckType::Checksum, checksum_status(*file, expected@))));
        assert(error_kinds(errors@) =~= e0 + opt(
            enabled && checksum_status(*file, expected@) == CheckStatus::Failed,
            (ErrorType::ChecksumMismatch, ErrorSeverity::High),
        ));
    }

    fn stage_format(
        &self,
        enabled: bool,
        metadata: &ModelMetadata,
        checks: &mut Vec<ValidationCheck>,
        errors: &mut Vec<ValidationError>,
    )
        ensures
            ({
                let f = detected_format(metadata.model_format);
                &&& check_kinds(final(checks)@) == check_kinds(old(checks)@) + opt(
                    enabled,
                    (CheckType::FileFormat, format_status(f)),
                )
                &&& error_kinds(final(errors)@) == error_kinds(old(errors)@) + opt(
                    enabled && format_status(f) == CheckStatus::Failed,
                    (ErrorType::InvalidFormat, ErrorSeverity::Medium),
                )
            }),
    {
        let ghost c0 = check_kinds(checks@);
        let ghost e0 = error_kinds(errors@);
        let ghost f = detected_format(metadata.model_format);
        if enabled {
            let c = self.validate_file_format(metadata);
            let failed = c.status == CheckStatus::Failed;
            push_check(checks, c);
            if failed {
                push_error(
                    errors,
                    make_error(ErrorType::InvalidFormat, ErrorSeverity::Medium, "unsupported file format"),
                );
            }
        }
        assert(check_kinds(checks@) =~= c0 + opt(enabled, (CheckType::FileFormat, format_status(f))));
        assert(error_kinds(errors@) =~= e0 + opt(
            enabled && format_status(f) == CheckStatus::Failed,
            (ErrorType::InvalidFormat, ErrorSeverity::Medium),
        ));
    }

    fn stage_malware(
        &self,
        enabled: bool,
        path: &str,
        checks: &mut Vec<ValidationCheck>,
        errors: &mut Vec<ValidationError>,
    )
        ensures
            check_kinds(final(checks)@) == check_kinds(old(checks)@) + opt(
                enabled,
                (CheckType::MalwareCheck, malware_status(path@)),
            ),
            error_kinds(final(errors)@) == error_kinds(old(errors)@) + opt(
                enabled && malware_status(path@) == CheckStatus::Failed,
                (ErrorType::SecurityRisk, ErrorSeverity::Critical),
            ),
    {
        let ghost c0 = check_kinds(checks@);
        let ghost e0 = error_kinds(errors@);
        if enabled {
            let c = self.scan_for_malware(path);
            let failed = c.status == CheckStatus::Failed;
            push_check(checks, c);
            if failed {
                push_error(
                    errors,
                    make_error(ErrorType::SecurityRisk, ErrorSeverity::Critical, "security threat detected"),
                );
            }
        }
        assert(check_kinds(checks@) =~= c0 + opt(enabled, (CheckType::MalwareCheck, malware_status(path@))));
        assert(error_kinds(errors@) =~= e0 + opt(
            enabled && malware_status(path@) == CheckStatus::Failed,
            (ErrorType::SecurityRisk, ErrorSeverity::Critical),
        ));
    }

    fn stage_permissions(
        &self,
        enabled: bool,
        file: &FileSnapshot,
        checks: &mut Vec<ValidationCheck>,
        warnings: &mut Vec<ValidationWarning>,
    )
        ensures
            check_kinds(final(checks)@) == check_kinds(old(checks)@) + opt(
                enabled,
                (CheckType::Permissions, permission_status(*file)),
            ),
            warning_kinds(final(warnings)@) == warning_kinds(old(warnings)@) + opt(
                enabled && permission_status(*file) == CheckStatus::Warning,
                WarningType::SecurityConcern,
            ),
    {
        let ghost c0 = check_kinds(checks@);
        let ghost w0 = warning_kinds(warnings@);
        if enabled {
            let c = self.check_permissions(file);
            let warned = c.status == CheckStatus::Warning;
            push_check(checks, c);
            if warned {
                push_warning(
                    warnings,
                    make_warning(
                        WarningType::SecurityConcern,
                        "file permissions may be a security risk",
                        "check the file's permissions",
                    ),
                );
            }
        }
        assert(check_kinds(checks@) =~= c0 + opt(enabled, (CheckType::Permissions, permission_status(*file))));
        assert(warning_kinds(warnings@) =~= w0 + opt(
            enabled && permission_status(*file) == CheckStatus::Warning,
            WarningType::SecurityConcern,
        ));
    }

    fn stage_dependencies(&self, enabled: bool, checks: &mut Vec<ValidationCheck>)
        ensures
            check_kinds(final(checks)@) == check_kinds(old(checks)@) + opt(
                enabled,
                (CheckType::Dependencies, CheckStatus::Passed),
            ),
    {
        let ghost c0 = check_kinds(checks@);
        if enabled {
            push_check(checks, self.check_dependencies());
        }
        assert(check_kinds(checks@) =~= c0 + opt(enabled, (CheckType::Dependencies, CheckStatus::Passed)));
    }

    fn stage_signature(
        &self,
        path: &str,
        strict_mode: bool,
        checks: &mut Vec<ValidationCheck>,
        errors: &mut Vec<ValidationError>,
        warnings: &mut Vec<ValidationWarning>,
    )
        ensures
            ({
                let st = signature_status(self.signature_names(), path@, strict_mode);
                &&& check_kinds(final(checks)@) == check_kinds(old(checks)@) + seq![
                    (CheckType::DigitalSignature, st),
                ]
                &&& error_kinds(final(errors)@) == error_kinds(old(errors)@) + opt(
                    st == CheckStatus::Failed,
                    (ErrorType::SecurityRisk, ErrorSeverity::High),
                )
                &&& warning_kinds(final(warnings)@) == warning_kinds(old(warnings)@) + opt(
                    st == CheckStatus::Warning,
                    WarningType::SecurityConcern,
                )
            }),
    {
        let ghost c0 = check_kinds(checks@);
        let ghost e0 = error_kinds(errors@);
        let ghost w0 = warning_kinds(warnings@);
        let ghost st = signature_status(self.signature_names(), path@, strict_mode);
        let sig = self.verify_digital_signature(path, strict_mode);
        let sig_status = sig.status;
        push_check(checks, sig);
        if sig_status == CheckStatus::Failed {
            push_error(
                errors,
                make_error(
                    ErrorType::SecurityRisk,
                    ErrorSeverity::High,
                    "digital signature verification failed",
                ),
            );
        } else if sig_status == CheckStatus::Warning {
            push_warning(
                warnings,
                make_warning(
                    WarningType::SecurityConcern,
                    "file is unsigned or its signature cannot be verified",
                    "use model files from trusted sources only",
                ),
            );
        }
        assert(check_kinds(checks@) =~= c0 + seq![(CheckType::DigitalSignature, st)]);
        assert(error_kinds(errors@) =~= e0 + opt(
            st == CheckStatus::Failed,
            (ErrorType::SecurityRisk, ErrorSeverity::High),
        ));
        assert(warning_kinds(warnings@) =~= w0 + opt(
            st == CheckStatus::Warning,
            WarningType::SecurityConcern,
        ));
    }

    /// Runs the checks that `config` enables over what was read of the file
    /// at `path`, in their fixed order, and gives the verdict. A file that is
    /// not found ends the run after the existence check.
    pub fn validate_with(
        &self,
        path: &str,
        model_id: u128,
        validation_time: i64,
        config: ValidationConfig,
        file: &FileSnapshot,
    ) -> (r: ValidationResult)
        ensures
            validation_outcome(r, self.signature_names(), path@, config, *file),
            r.model_id == model_id,
            r.validation_time == validation_time,
    {
        let ghost names = self.signature_names();
        let mut checks: Vec<ValidationCheck> = Vec::new();
        let mut errors: Vec<ValidationError> = Vec::new();
        let mut warnings: Vec<ValidationWarning> = Vec::new();
        proof {
            assert(check_kinds(checks@) =~= Seq::<(CheckType, CheckStatus)>::empty());
            assert(error_kinds(errors@) =~= Seq::<(ErrorType, ErrorSeverity)>::empty());
            assert(warning_kinds(warnings@) =~= Seq::<WarningType>::empty());
        }

        let exists_check = self.check_file_exists(file);
        let exists = exists_check.status == CheckStatus::Passed;
        push_check(&mut checks, exists_check);
        if !exists {
            push_error(
                &mut errors,
                make_error(ErrorType::CorruptedFile, ErrorSeverity::Critical, "model file not found"),
            );
            let is_valid = compute_is_valid(&errors, config.strict_mode);
            proof {
                assert(check_kinds(checks@) =~= expected_checks(names, path@, config, *file));
                assert(error_kinds(errors@) =~= expected_errors(names, path@, config, *file));
                assert(warning_kinds(warnings@) =~= expected_warnings(names, path@, config, *file));
            }
            return ValidationResult {
                model_id,
                model_path: path.to_string(),
                is_valid,
                validation_time,
                checks_performed: checks,
                errors,
                warnings,
                metadata: empty_metadata(),
            };
        }
        proof {
            assert(check_kinds(checks@) =~= seq![(CheckType::FileExists, CheckStatus::Passed)]);
        }

        let metadata = self.extract_metadata(path, file);
        self.stage_checksum(
            config.enable_checksum_verification,
            file,
            &metadata.checksum_sha256,
            &mut checks,
            &mut errors,
        );
        self.stage_format(config.enable_format_validation, &metadata, &mut checks, &mut errors);
        self.stage_malware(config.enable_malware_scanning, path, &mut checks, &mut errors);
        self.stage_permissions(config.enable_permission_check, file, &mut checks, &mut warnings);
        self.stage_dependencies(config.enable_dependency_check, &mut checks);
        self.stage_signature(path, config.strict_mode, &mut checks, &mut errors, &mut warnings);
        proof {
            assert(error_kinds(errors@) =~= expected_errors(names, path@, config, *file));
            assert(warning_kinds(warnings@) =~= expected_warnings(names, path@, config, *file));
        }

        let is_valid = compute_is_valid(&errors, config.strict_mode);
        ValidationResult {
            model_id,
            model_path: path.to_string(),
            is_valid,
            validation_time,
            checks_performed: checks,
            errors,
            warnings,
            metadata,
        }
    }
}

impl ModelValidator {
    /// Validates what was read of the file at `path`. Without an id, a fresh
    /// one is generated; the time recorded is the time of the call.
    pub fn validate_model(
        &self,
        path: &str,
        model_id: Option<u128>,
        config: ValidationConfig,
        file: &FileSnapshot,
    ) -> (r: ValidationResult)
        ensures
            validation_outcome(r, self.signature_names(), path@, config, *file),
            model_id matches Some(id) ==> r.model_id == id,
    {
        let id = match model_id {
            Some(id) => id,
            None => new_model_id(),
        };
        let validation_time = now_millis();
        self.validate_with(path, id, validation_time, config, file)
    }

    /// Validates with checksum and format checks only, not strictly, and
    /// gives the verdict alone.
    pub fn quick_validate(&self, path: &str, file: &FileSnapshot) -> (r: bool)
        ensures
            r == verdict(
                expected_errors(self.signature_names(), path@, quick_validation_config(), *file),
                false,
            ),
    {
        let config = ValidationConfig {
            enable_checksum_verification: true,
            enable_malware_scanning: false,
            enable_format_validation: true,
            enable_dependency_check: false,
            enable_permission_check: false,
            strict_mode: false,
            timeout_seconds: 30,
            quarantine_suspicious_files: false,
        };
        let result = self.validate_model(path, None, config, file);
        result.is_valid
    }
}

/// The configuration that `quick_validate` runs with.
pub open spec fn quick_validation_config() -> ValidationConfig {
    ValidationConfig {
        enable_checksum_verification: true,
        enable_malware_scanning: false,
        enable_format_validation: true,
        enable_dependency_check: false,
        enable_permission_check: false,
        strict_mode: false,
        timeout_seconds: 30,
        quarantine_suspicious_files: false,
    }
}

/// A file that is not found is invalid, with the failed existence check as
/// the only check recorded, and empty metadata.
pub proof fn missing_file_is_invalid(
    r: ValidationResult,
    names: Seq<Seq<char>>,
    path: Seq<char>,
    config: ValidationConfig,
    file: FileSnapshot,
)
    requires
        validation_outcome(r, names, path, config, file),
        !file.is_file,
    ensures
        !r.is_valid,
        r.checks_performed@.len() == 1,
        r.checks_performed@[0].check_type == CheckType::FileExists,
        r.checks_performed@[0].status == CheckStatus::Failed,
        metadata_is_empty(r.metadata),
{
    let k = check_kinds(r.checks_performed@);
    assert(k.len() == 1);
    assert(r.checks_performed@.len() == k.len());
    assert(k[0] == (r.checks_performed@[0].check_type, r.checks_performed@[0].status));
    assert(k[0] == (CheckType::FileExists, CheckStatus::Failed));
    assert(error_kinds(r.errors@)[0].1 == ErrorSeverity::Critical);
}

/// With malware scanning enabled, a file with the extension `exe` fails the
/// scan with a Critical error and is invalid, whatever the other settings.
pub proof fn executable_is_rejected(
    r: ValidationResult,
    names: Seq<Seq<char>>,
    path: Seq<char>,
    config: ValidationConfig,
    file: FileSnapshot,
)
    requires
        validation_outcome(r, names, path, config, file),
        file.is_file,
        config.enable_malware_scanning,
        extension_of(path) == Some("exe"@),
    ensures
        check_kinds(r.checks_performed@).contains((CheckType::MalwareCheck, CheckStatus::Failed)),
        error_kinds(r.errors@).contains((ErrorType::SecurityRisk, ErrorSeverity::Critical)),
        !r.is_valid,
{
    assert(malware_status(path) == CheckStatus::Failed);
    let c = check_kinds(r.checks_performed@);
    let e = error_kinds(r.errors@);
    let c1 = seq![(CheckType::FileExists, CheckStatus::Passed)] + opt(
        config.enable_checksum_verification,
        (CheckType::Checksum, checksum_status(file, sha256_hex(file.content@))),
    ) + opt(
        config.enable_format_validation,
        (CheckType::FileFormat, format_status(Some(detect_format_spec(path, file.content@)))),
    );
    let c2 = c1 + opt(config.enable_malware_scanning, (CheckType::MalwareCheck, malware_status(path)));
    assert(c2[c1.len() as int] == (CheckType::MalwareCheck, CheckStatus::Failed));
    assert(c[c1.len() as int] == c2[c1.len() as int]);
    let e1 = opt(
        config.enable_checksum_verification && checksum_status(file, sha256_hex(file.content@)) == CheckStatus::Failed,
        (ErrorType::ChecksumMismatch, ErrorSeverity::High),
    ) + opt(
        config.enable_format_validation && format_status(
            Some(detect_format_spec(path, file.content@)),
        ) == CheckStatus::Failed,
        (ErrorType::InvalidFormat, ErrorSeverity::Medium),
    );
    assert(e[e1.len() as int] == (ErrorType::SecurityRisk, ErrorSeverity::Critical));
    assert(has_severity(e, ErrorSeverity::Critical));
}

/// Outside strict mode, errors without a Critical one (a checksum mismatch
/// of High severity among them) leave the verdict valid; in strict mode a
/// High error makes it invalid.
pub proof fn severity_policy(errors: Seq<(ErrorType, ErrorSeverity)>)
    ensures
        !has_severity(errors, ErrorSeverity::Critical) ==> verdict(errors, false),
        has_severity(errors, ErrorSeverity::Critical) ==> !verdict(errors, false) && !verdict(
            errors,
            true,
        ),
        has_severity(errors, ErrorSeverity::High) ==> !verdict(errors, true),
{
}

/// Outside strict mode, a file whose only fault is a checksum mismatch is
/// still valid; in strict mode, a file without a known signature is invalid.
pub proof fn strictness_decides(
    r: ValidationResult,
    names: Seq<Seq<char>>,
    path: Seq<char>,
    config: ValidationConfig,
    file: FileSnapshot,
)
    requires
        validation_outcome(r, names, path, config, file),
        file.is_file,
    ensures
        !config.strict_mode && (!config.enable_malware_scanning || malware_status(path)
            != CheckStatus::Failed) ==> r.is_valid,
        config.strict_mode && !names.contains(signature_key(path)) ==> !r.is_valid,
{
    let e = error_kinds(r.errors@);
    let fmt = format_status(Some(detect_format_spec(path, file.content@)));
    assert(fmt != CheckStatus::Failed);
    let e1 = opt(
        config.enable_checksum_verification && checksum_status(file, sha256_hex(file.content@)) == CheckStatus::Failed,
        (ErrorType::ChecksumMismatch, ErrorSeverity::High),
    ) + opt(
        config.enable_format_validation && fmt == CheckStatus::Failed,
        (ErrorType::InvalidFormat, ErrorSeverity::Medium),
    ) + opt(
        config.enable_malware_scanning && malware_status(path) == CheckStatus::Failed,
        (ErrorType::SecurityRisk, ErrorSeverity::Critical),
    );
    if !config.strict_mode && (!config.enable_malware_scanning || malware_status(path)
        != CheckStatus::Failed) {
        assert forall|i: int| 0 <= i < e.len() implies (#[trigger] e[i]).1
            != ErrorSeverity::Critical by {
            assert(e[i].1 == ErrorSeverity::High);
        }
    }
    if config.strict_mode && !names.contains(signature_key(path)) {
        assert(e[e1.len() as int] == (ErrorType::SecurityRisk, ErrorSeverity::High));
    }
}

/// The names of a signature table's entries, in order.
pub open spec fn entry_names(v: Seq<(String, ModelSignature)>) -> Seq<Seq<char>> {
    v.map_values(|e: (String, ModelSignature)| e.0@)
}

/// Index of the entry named `name`, if any.
fn position_of(table: &Vec<(String, ModelSignature)>, name: &str) -> (r: Option<usize>)
    ensures
        match r {
            Some(i) => i < table@.len() && entry_names(table@)[i as int] == name@,
            None => !entry_names(table@).contains(name@),
        },
{
    let mut i: usize = 0;
    while i < table.len()
        invariant
            i <= table@.len(),
            forall|j: int| 0 <= j < i ==> entry_names(table@)[j] != name@,
        decreases table@.len() - i,
    {
        if same_text(table[i].0.as_str(), name) {
            return Some(i);
        }
        i = i + 1;
    }
    None
}

/// The SHA-256 digest of `content`, in lower-case hexadecimal.
fn calculate_sha256(content: &[u8]) -> (r: String)
    ensures
        r@ == sha256_hex(content@),
{
    calculate_checksum(content, ChecksumType::SHA256)
}

} // verus!
