//! Download manager: the status of a transfer, its progress arithmetic, the
//! capacity and integrity decisions, and the layout of the download root.

use vstd::prelude::*;
use crate::checksum::{
    calculate_checksum, checksums_match, digest_hex, same_ignoring_ascii_case, sha256_hex,
    ChecksumType,
};
use crate::ids::{uuid_string, uuid_text};
use crate::paths::{file_name, file_name_of, is_under, join, join_spec, starts_with_dir};

verus! {

/// Lifecycle of one transfer. `Completed`, `Failed` and `Cancelled` are final;
/// `Paused` is a detour from and back to `Downloading`.
#[derive(Clone, Copy, Debug, PartialEq, Eq, Structural)]
pub enum DownloadStatus {
    Queued,
    Downloading,
    Verifying,
    Installing,
    Completed,
    Failed,
    Cancelled,
    Paused,
}

pub open spec fn is_terminal(s: DownloadStatus) -> bool {
    s == DownloadStatus::Completed || s == DownloadStatus::Failed || s == DownloadStatus::Cancelled
}

/// The transitions of the lifecycle: forward one stage at a time (a
/// verified download may complete without an installing stage), the pause
/// detour, and failure or cancellation from any state not yet final.
pub open spec fn transition_allowed(from: DownloadStatus, to: DownloadStatus) -> bool {
    ||| from == DownloadStatus::Queued && to == DownloadStatus::Downloading
    ||| from == DownloadStatus::Downloading && to == DownloadStatus::Verifying
    ||| from == DownloadStatus::Downloading && to == DownloadStatus::Paused
    ||| from == DownloadStatus::Paused && to == DownloadStatus::Downloading
    ||| from == DownloadStatus::Verifying && to == DownloadStatus::Installing
    ||| from == DownloadStatus::Verifying && to == DownloadStatus::Completed
    ||| from == DownloadStatus::Installing && to == DownloadStatus::Completed
    ||| !is_terminal(from) && (to == DownloadStatus::Failed || to == DownloadStatus::Cancelled)
}

impl DownloadStatus {
    /// Whether the lifecycle allows moving from `self` to `next`.
    pub fn can_transition_to(&self, next: DownloadStatus) -> (r: bool)
        ensures
            r == transition_allowed(*self, next),
    {
        let terminal = match *self {
            DownloadStatus::Completed | DownloadStatus::Failed | DownloadStatus::Cancelled => true,
            _ => false,
        };
        match (*self, next) {
            (DownloadStatus::Queued, DownloadStatus::Downloading) => true,
            (DownloadStatus::Downloading, DownloadStatus::Verifying) => true,
            (DownloadStatus::Downloading, DownloadStatus::Paused) => true,
            (DownloadStatus::Paused, DownloadStatus::Downloading) => true,
            (DownloadStatus::Verifying, DownloadStatus::Installing) => true,
            (DownloadStatus::Verifying, DownloadStatus::Completed) => true,
            (DownloadStatus::Installing, DownloadStatus::Completed) => true,
            (_, DownloadStatus::Failed) | (_, DownloadStatus::Cancelled) => !terminal,
            _ => false,
        }
    }
}

/// Errors of downloading and installing.
#[derive(Clone, Debug, PartialEq, Eq)]
pub enum DownloadError {
    NetworkError(String),
    IoError(String),
    ChecksumMismatch { expected: String, actual: String },
    InsufficientSpace { required: u64, available: u64 },
    PermissionDenied(String),
    ModelAlreadyExists(String),
    InvalidUrl(String),
    InstallationFailed(String),
    ConfigError(String),
    SerializationError(String),
}

/// Progress of one transfer. The percentage is whole and capped at 100;
/// throughput is in bytes per second; times are milliseconds since the Unix
/// epoch.
#[derive(Clone, Debug)]
pub struct DownloadProgress {
    pub model_id: u128,
    pub model_name: String,
    pub status: DownloadStatus,
    pub total_bytes: u64,
    pub downloaded_bytes: u64,
    pub progress_percent: u64,
    pub download_speed_bps: u64,
    pub estimated_remaining_seconds: Option<u64>,
    pub started_at: i64,
    pub error_message: Option<String>,
}

/// Whole percentage of `total` that `done` makes, capped at 100; 0 while
/// the total is unknown.
pub open spec fn percent_of(done: nat, total: nat) -> nat {
    if total == 0 {
        0
    } else if done >= total {
        100
    } else {
        done * 100 / total
    }
}

/// Seconds left at `speed` bytes per second for what remains of `total`.
pub open spec fn remaining_seconds(total: nat, done: nat, speed: nat) -> nat
    recommends
        speed > 0,
{
    if done >= total {
        0
    } else {
        ((total - done) as nat) / speed
    }
}

/// The throughput after `elapsed` seconds, which stays as it was during the
/// first second.
pub open spec fn speed_after(done: nat, elapsed: nat, previous: nat) -> nat {
    if elapsed > 0 {
        done / elapsed
    } else {
        previous
    }
}

/// The estimate after a chunk: defined once the throughput is positive,
/// else as it was.
pub open spec fn estimate_after(total: nat, done: nat, elapsed: nat, previous: Option<u64>) -> Option<nat> {
    if elapsed > 0 && done / elapsed > 0 {
        Some(remaining_seconds(total, done, done / elapsed))
    } else {
        match previous {
            Some(v) => Some(v as nat),
            None => None,
        }
    }
}

/// The fields that name a transfer and date it are the same in both.
pub open spec fn same_transfer(a: DownloadProgress, b: DownloadProgress) -> bool {
    &&& a.model_id == b.model_id
    &&& a.model_name == b.model_name
    &&& a.started_at == b.started_at
}

/// The byte counts and the figures derived from them are the same in both.
pub open spec fn same_counts(a: DownloadProgress, b: DownloadProgress) -> bool {
    &&& a.total_bytes == b.total_bytes
    &&& a.downloaded_bytes == b.downloaded_bytes
    &&& a.progress_percent == b.progress_percent
    &&& a.download_speed_bps == b.download_speed_bps
    &&& a.estimated_remaining_seconds == b.estimated_remaining_seconds
}

pub open spec fn opt_nat(o: Option<u64>) -> Option<nat> {
    match o {
        Some(v) => Some(v as nat),
        None => None,
    }
}

impl DownloadProgress {
    /// A queued transfer with nothing received yet.
    pub fn new(model_id: u128, model_name: String, started_at: i64) -> (r: Self)
        ensures
            r.model_id == model_id,
            r.model_name@ == model_name@,
            r.status == DownloadStatus::Queued,
            r.total_bytes == 0,
            r.downloaded_bytes == 0,
            r.progress_percent == 0,
            r.download_speed_bps == 0,
            r.estimated_remaining_seconds is None,
            r.started_at == started_at,
            r.error_message is None,
    {
        DownloadProgress {
            model_id,
            model_name,
            status: DownloadStatus::Queued,
            total_bytes: 0,
            downloaded_bytes: 0,
            progress_percent: 0,
            download_speed_bps: 0,
            estimated_remaining_seconds: None,
            started_at,
            error_message: None,
        }
    }

    /// Moves to `next` where the lifecycle allows it; leaves the progress as
    /// it was and returns `false` otherwise.
    pub fn transition(&mut self, next: DownloadStatus) -> (r: bool)
        ensures
            r == transition_allowed(old(self).status, next),
            final(self).status == (if r {
                next
            } else {
                old(self).status
            }),
            same_transfer(*final(self), *old(self)),
            same_counts(*final(self), *old(self)),
            final(self).error_message == old(self).error_message,
    {
        if self.status.can_transition_to(next) {
            self.status = next;
            true
        } else {
            false
        }
    }

    /// Starts the transfer once the capacity check is made: with enough room
    /// the status becomes `Downloading`, else `Failed` with the capacity
    /// error, before any byte of the body is taken.
    pub fn start(&mut self, required: u64, available: u64) -> (r: Result<(), DownloadError>)
        requires
            old(self).status == DownloadStatus::Queued,
        ensures
            required <= available ==> r is Ok && final(self).status == DownloadStatus::Downloading,
            required > available ==> r == Err::<(), DownloadError>(
                DownloadError::InsufficientSpace { required, available },
            ) && final(self).status == DownloadStatus::Failed,
            same_transfer(*final(self), *old(self)),
            same_counts(*final(self), *old(self)),
            final(self).error_message == old(self).error_message,
    {
        match check_disk_space(required, available) {
            Ok(()) => {
                self.status = DownloadStatus::Downloading;
                Ok(())
            },
            Err(e) => {
                self.status = DownloadStatus::Failed;
                Err(e)
            },
        }
    }

    /// Records the length of the body, 0 where it is unknown.
    pub fn set_total(&mut self, content_length: Option<u64>)
        ensures
            final(self).total_bytes == (match content_length {
                Some(n) => n,
                None => 0,
            }),
            final(self).status == old(self).status,
            same_transfer(*final(self), *old(self)),
            final(self).downloaded_bytes == old(self).downloaded_bytes,
            final(self).progress_percent == old(self).progress_percent,
            final(self).download_speed_bps == old(self).download_speed_bps,
            final(self).estimated_remaining_seconds == old(self).estimated_remaining_seconds,
            final(self).error_message == old(self).error_message,
    {
        self.total_bytes = match content_length {
            Some(n) => n,
            None => 0,
        };
    }

    /// Records a chunk of `chunk_len` bytes received `elapsed_secs` whole
    /// seconds after the transfer began: the count, the percentage, and,
    /// once a second has passed, the throughput and, while it is positive,
    /// the estimate of the time left.
    pub fn record_chunk(&mut self, chunk_len: u64, elapsed_secs: u64)
        requires
            old(self).status == DownloadStatus::Downloading,
            old(self).downloaded_bytes + chunk_len <= u64::MAX,
        ensures
            final(self).downloaded_bytes == old(self).downloaded_bytes + chunk_len,
            final(self).progress_percent as nat == percent_of(
                final(self).downloaded_bytes as nat,
                old(self).total_bytes as nat,
            ),
            final(self).download_speed_bps as nat == speed_after(
                final(self).downloaded_bytes as nat,
                elapsed_secs as nat,
                old(self).download_speed_bps as nat,
            ),
            opt_nat(final(self).estimated_remaining_seconds) == estimate_after(
                old(self).total_bytes as nat,
                final(self).downloaded_bytes as nat,
                elapsed_secs as nat,
                old(self).estimated_remaining_seconds,
            ),
            final(self).status == old(self).status,
            final(self).total_bytes == old(self).total_bytes,
            same_transfer(*final(self), *old(self)),
            final(self).error_message == old(self).error_message,
    {
        let downloaded = self.downloaded_bytes + chunk_len;
        self.downloaded_bytes = downloaded;
        let total = self.total_bytes;
        self.progress_percent = if total == 0 {
            0
        } else if downloaded >= total {
            100
        } else {
            let scaled = (downloaded as u128) * 100;
            let p = scaled / (total as u128);
            assert(p < 100) by (nonlinear_arith)
                requires
                    scaled == downloaded as int * 100,
                    p == scaled as int / total as int,
                    downloaded < total,
                    total > 0,
            ;
            p as u64
        };
        if elapsed_secs > 0 {
            let speed = downloaded / elapsed_secs;
            self.download_speed_bps = speed;
            if speed > 0 {
                let remaining = total.saturating_sub(downloaded);
                self.estimated_remaining_seconds = Some(remaining / speed);
            }
        }
    }

    /// Records a failure with its message.
    pub fn fail(&mut self, message: String)
        ensures
            transition_allowed(old(self).status, DownloadStatus::Failed) ==> final(self).status
                == DownloadStatus::Failed,
            !transition_allowed(old(self).status, DownloadStatus::Failed) ==> final(self).status
                == old(self).status,
            final(self).error_message matches Some(m) && m@ == message@,
            same_transfer(*final(self), *old(self)),
            same_counts(*final(self), *old(self)),
    {
        self.transition(DownloadStatus::Failed);
        self.error_message = Some(message);
    }
}

/// The capacity check: a transfer that needs more bytes than are available
/// is refused, with both counts.
pub fn check_disk_space(required: u64, available: u64) -> (r: Result<(), DownloadError>)
    ensures
        required <= available ==> r is Ok,
        required > available ==> r == Err::<(), DownloadError>(
            DownloadError::InsufficientSpace { required, available },
        ),
{
    if required > available {
        Err(DownloadError::InsufficientSpace { required, available })
    } else {
        Ok(())
    }
}

/// Checks downloaded content against the digest expected of it; a mismatch
/// carries both digests.
pub fn verify_checksum(content: &[u8], expected: &str, kind: ChecksumType) -> (r: Result<
    (),
    DownloadError,
>)
    ensures
        same_ignoring_ascii_case(digest_hex(kind, content@), expected@) ==> r is Ok,
        !same_ignoring_ascii_case(digest_hex(kind, content@), expected@) ==> (r matches Err(
            DownloadError::ChecksumMismatch { expected: e, actual: a },
        ) && e@ == expected@ && a@ == digest_hex(kind, content@)),
{
    let actual = calculate_checksum(content, kind);
    if checksums_match(actual.as_str(), expected) {
        Ok(())
    } else {
        Err(DownloadError::ChecksumMismatch { expected: expected.to_string(), actual })
    }
}

/// Whether a text parses as an absolute URL.
pub uninterp spec fn parses_as_url(s: Seq<char>) -> bool;

/// Relies on `reqwest::Url::parse` (the `url` crate's parser): whether the
/// text parses as an absolute URL.
#[verifier::external_body]
fn url_parses(s: &str) -> (r: bool)
    ensures
        r == parses_as_url(s@),
{
    reqwest::Url::parse(s).is_ok()
}

/// Options of an installation. `custom_install_path` replaces the default
/// directory under the download root.
#[derive(Clone, Debug)]
pub struct InstallationConfig {
    pub auto_verify: bool,
    pub keep_temp_files: bool,
    pub create_symlink: bool,
    pub install_dependencies: bool,
    pub enable_gpu: bool,
    pub custom_install_path: Option<String>,
}

impl Default for InstallationConfig {
    fn default() -> (r: Self)
        ensures
            r.auto_verify,
            !r.keep_temp_files,
            !r.create_symlink,
            r.install_dependencies,
            !r.enable_gpu,
            r.custom_install_path is None,
    {
        InstallationConfig {
            auto_verify: true,
            keep_temp_files: false,
            create_symlink: false,
            install_dependencies: true,
            enable_gpu: false,
            custom_install_path: None,
        }
    }
}

/// The files that make up an installation.
#[derive(Clone, Debug)]
pub struct InstallationMetadata {
    pub config_files: Vec<String>,
    pub data_files: Vec<String>,
    pub executable_files: Vec<String>,
    pub documentation: Vec<String>,
    pub symlinks: Vec<(String, String)>,
}

/// One artifact placed on disk. `installed_at` is in milliseconds since the
/// Unix epoch.
#[derive(Clone, Debug)]
pub struct ModelInstallation {
    pub model_id: u128,
    pub install_path: String,
    pub version: String,
    pub installed_at: i64,
    pub file_size: u64,
    pub checksum: String,
    pub dependencies: Vec<String>,
    pub metadata: InstallationMetadata,
}

/// Where an installation goes and what becomes of its source, decided before
/// any file is touched.
#[derive(Clone, Debug)]
pub struct InstallPlan {
    pub model_id: u128,
    pub source_path: String,
    pub install_path: String,
    pub target_path: String,
    pub config_path: String,
    pub create_symlink: bool,
    pub auto_verify: bool,
    /// The source is removed once installed: only where temporary files
    /// are not kept and the source lies in the temporary directory.
    pub delete_source: bool,
}

/// The version recorded for every installation.
pub open spec fn installed_version() -> Seq<char> {
    "1.0.0"@
}

/// The entries that parsed, in their order.
pub open spec fn parsed_entries<T>(s: Seq<Option<T>>) -> Seq<T>
    decreases s.len(),
{
    if s.len() == 0 {
        Seq::empty()
    } else {
        let rest = parsed_entries(s.drop_first());
        match s[0] {
            Some(x) => seq![x] + rest,
            None => rest,
        }
    }
}

proof fn lemma_parsed_entries_split<T>(a: Seq<Option<T>>, b: Seq<Option<T>>)
    ensures
        parsed_entries(a + b) == parsed_entries(a) + parsed_entries(b),
    decreases a.len(),
{
    if a.len() == 0 {
        assert(a + b =~= b);
        assert(parsed_entries(a) + parsed_entries(b) =~= parsed_entries(b));
    } else {
        assert((a + b).drop_first() =~= a.drop_first() + b);
        lemma_parsed_entries_split(a.drop_first(), b);
        match a[0] {
            Some(x) => {
                assert(seq![x] + (parsed_entries(a.drop_first()) + parsed_entries(b)) =~= (seq![x]
                    + parsed_entries(a.drop_first())) + parsed_entries(b));
            },
            None => {},
        }
    }
}

/// Keeps the installation records that were read, in order, and drops the
/// entries whose descriptor could not be parsed: one bad descriptor does not
/// hide the others.
pub fn collect_installations(entries: Vec<Option<ModelInstallation>>) -> (r: Vec<ModelInstallation>)
    ensures
        r@ == parsed_entries(entries@),
{
    let ghost all = entries@;
    let mut entries = entries;
    let mut out: Vec<ModelInstallation> = Vec::new();
    while entries.len() > 0
        invariant
            parsed_entries(all) == out@ + parsed_entries(entries@),
        decreases entries@.len(),
    {
        let ghost before = entries@;
        let e = entries.remove(0);
        proof {
            assert(before =~= seq![e] + entries@);
            lemma_parsed_entries_split(seq![e], entries@);
            assert(seq![e].drop_first() =~= Seq::<Option<ModelInstallation>>::empty());
        }
        match e {
            Some(x) => {
                out.push(x);
                proof {
                    assert(parsed_entries(all) =~= out@ + parsed_entries(entries@));
                }
            },
            None => {},
        }
    }
    assert(entries@ =~= Seq::<Option<ModelInstallation>>::empty());
    assert(out@ =~= out@ + Seq::<ModelInstallation>::empty());
    out
}

/// Fetches artifacts into a download root laid out as `<root>/<name>` for
/// finished downloads, `<root>/temp/<id>.tmp` for transfers in flight and
/// `<root>/installed/<id>/` for installations.
pub struct ModelDownloadManager {
    download_dir: String,
    temp_dir: String,
    max_concurrent_downloads: usize,
}

impl ModelDownloadManager {
    pub closed spec fn root(&self) -> Seq<char> {
        self.download_dir@
    }

    pub closed spec fn temp(&self) -> Seq<char> {
        self.temp_dir@
    }

    pub closed spec fn max_concurrent(&self) -> usize {
        self.max_concurrent_downloads
    }

    /// The directory of the installation of `id` under the default layout.
    pub open spec fn default_install_dir(&self, id: u128) -> Seq<char> {
        join_spec(join_spec(self.root(), "installed"@), uuid_text(id))
    }

    /// A manager for the root `download_dir`, allowing three downloads at once.
    pub fn new(download_dir: String) -> (r: Self)
        ensures
            r.root() == download_dir@,
            r.temp() == join_spec(download_dir@, "temp"@),
            r.max_concurrent() == 3,
    {
        let temp_dir = join(download_dir.as_str(), "temp");
        ModelDownloadManager { download_dir, temp_dir, max_concurrent_downloads: 3 }
    }

    /// Sets how many downloads may run at once; the caller's scheduler
    /// enforces it.
    pub fn with_max_concurrent(self, max: usize) -> (r: Self)
        ensures
            r.root() == self.root(),
            r.temp() == self.temp(),
            r.max_concurrent() == max,
    {
        ModelDownloadManager { max_concurrent_downloads: max, ..self }
    }

    pub fn max_concurrent_downloads(&self) -> (r: usize)
        ensures
            r == self.max_concurrent(),
    {
        self.max_concurrent_downloads
    }

    pub fn download_dir(&self) -> (r: &str)
        ensures
            r@ == self.root(),
    {
        self.download_dir.as_str()
    }

    pub fn temp_dir(&self) -> (r: &str)
        ensures
            r@ == self.temp(),
    {
        self.temp_dir.as_str()
    }

    /// The temporary file of a transfer in flight: `<temp>/<id>.tmp`.
    pub fn temp_file_path(&self, model_id: u128) -> (r: String)
        ensures
            r@ == join_spec(self.temp(), uuid_text(model_id) + ".tmp"@),
    {
        let name = uuid_string(model_id).concat(".tmp");
        join(self.temp_dir.as_str(), name.as_str())
    }

    /// Where a finished download of `model_name` is kept.
    pub fn final_path(&self, model_name: &str) -> (r: String)
        ensures
            r@ == join_spec(self.root(), model_name@),
    {
        join(self.download_dir.as_str(), model_name)
    }

    /// The directory that holds one directory per installation.
    pub fn installed_dir(&self) -> (r: String)
        ensures
            r@ == join_spec(self.root(), "installed"@),
    {
        join(self.download_dir.as_str(), "installed")
    }

    /// The directory of the installation of `model_id`; uninstalling removes
    /// it.
    pub fn installation_dir(&self, model_id: u128) -> (r: String)
        ensures
            r@ == self.default_install_dir(model_id),
    {
        let installed = self.installed_dir();
        let id = uuid_string(model_id);
        join(installed.as_str(), id.as_str())
    }

    /// Checks the URL of a download and gives the temporary file it is
    /// fetched into.
    pub fn prepare_download(&self, model_id: u128, download_url: &str) -> (r: Result<
        String,
        DownloadError,
    >)
        ensures
            parses_as_url(download_url@) ==> (r matches Ok(p) && p@ == join_spec(
                self.temp(),
                uuid_text(model_id) + ".tmp"@,
            )),
            !parses_as_url(download_url@) ==> (r matches Err(DownloadError::InvalidUrl(u))
                && u@ == download_url@),
    {
        if !url_parses(download_url) {
            return Err(DownloadError::InvalidUrl(download_url.to_string()));
        }
        Ok(self.temp_file_path(model_id))
    }

    /// Acknowledges a request to pause a transfer; suspending it mid-stream
    /// is left to the caller's scheduler.
    pub fn pause_download(&self, model_id: u128) -> (r: Result<(), DownloadError>)
        ensures
            r is Ok,
    {
        Ok(())
    }

    /// Acknowledges a request to resume a paused transfer.
    pub fn resume_download(&self, model_id: u128) -> (r: Result<(), DownloadError>)
        ensures
            r is Ok,
    {
        Ok(())
    }

    /// Decides an installation of the file at `model_path`: its directory
    /// (the custom one, else the default under the root), the target named
    /// after the source's file name, the descriptor beside it, and whether
    /// the source is removed afterwards. A source without a file name is a
    /// configuration error.
    pub fn plan_install(
        &self,
        model_id: u128,
        model_path: &str,
        config: &InstallationConfig,
    ) -> (r: Result<InstallPlan, DownloadError>)
        ensures
            file_name_of(model_path@) is None ==> r matches Err(DownloadError::ConfigError(_)),
            file_name_of(model_path@) matches Some(name) ==> (r matches Ok(plan) && {
                let dir = match config.custom_install_path {
                    Some(c) => c@,
                    None => self.default_install_dir(model_id),
                };
                &&& plan.model_id == model_id
                &&& plan.source_path@ == model_path@
                &&& plan.install_path@ == dir
                &&& plan.target_path@ == join_spec(dir, name)
                &&& plan.config_path@ == join_spec(dir, "model.json"@)
                &&& plan.create_symlink == config.create_symlink
                &&& plan.auto_verify == config.auto_verify
                &&& plan.delete_source == (!config.keep_temp_files && is_under(
                    self.temp(),
                    model_path@,
                ))
            }),
    {
        let name = match file_name(model_path) {
            Some(n) => n,
            None => {
                return Err(DownloadError::ConfigError("invalid model file path".to_string()));
            },
        };
        let install_path = match &config.custom_install_path {
            Some(c) => c.clone(),
            None => self.installation_dir(model_id),
        };
        let target_path = join(install_path.as_str(), name);
        let config_path = join(install_path.as_str(), "model.json");
        let delete_source = !config.keep_temp_files && starts_with_dir(
            model_path,
            self.temp_dir.as_str(),
        );
        Ok(
            InstallPlan {
                model_id,
                source_path: model_path.to_string(),
                install_path,
                target_path,
                config_path,
                create_symlink: config.create_symlink,
                auto_verify: config.auto_verify,
                delete_source,
            },
        )
    }

    /// The record of a finished installation: the size of the installed
    /// file, its SHA-256 digest where the plan verifies (else empty), the
    /// descriptor and data file, and the link made where the plan links.
    pub fn finish_install(
        &self,
        plan: &InstallPlan,
        file_size: u64,
        installed_content: &[u8],
        installed_at: i64,
    ) -> (r: ModelInstallation)
        ensures
            r.model_id == plan.model_id,
            r.install_path@ == plan.install_path@,
            r.version@ == installed_version(),
            r.installed_at == installed_at,
            r.file_size == file_size,
            r.checksum@ == (if plan.auto_verify {
                sha256_hex(installed_content@)
            } else {
                Seq::empty()
            }),
            r.dependencies@.len() == 0,
            r.metadata.config_files@.len() == 1,
            r.metadata.config_files@[0]@ == plan.config_path@,
            r.metadata.data_files@.len() == 1,
            r.metadata.data_files@[0]@ == plan.target_path@,
            r.metadata.executable_files@.len() == 0,
            r.metadata.documentation@.len() == 0,
            r.metadata.symlinks@.len() == (if plan.create_symlink {
                1int
            } else {
                0
            }),
            plan.create_symlink ==> r.metadata.symlinks@[0].0@ == plan.source_path@
                && r.metadata.symlinks@[0].1@ == plan.target_path@,
    {
        let checksum = if plan.auto_verify {
            calculate_checksum(installed_content, ChecksumType::SHA256)
        } else {
            String::new()
        };
        let mut config_files: Vec<String> = Vec::new();
        config_files.push(plan.config_path.clone());
        let mut data_files: Vec<String> = Vec::new();
        data_files.push(plan.target_path.clone());
        let mut symlinks: Vec<(String, String)> = Vec::new();
        if plan.create_symlink {
            symlinks.push((plan.source_path.clone(), plan.target_path.clone()));
        }
        let version = "1.0.0".to_string();
        ModelInstallation {
            model_id: plan.model_id,
            install_path: plan.install_path.clone(),
            version,
            installed_at,
            file_size,
            checksum,
            dependencies: Vec::new(),
            metadata: InstallationMetadata {
                config_files,
                data_files,
                executable_files: Vec::new(),
                documentation: Vec::new(),
                symlinks,
            },
        }
    }
}

/// The estimate of the time left never grows as more bytes arrive at a
/// steady throughput.
pub proof fn estimate_decreases_with_progress(total: nat, d1: nat, d2: nat, speed: nat)
    requires
        speed > 0,
        d1 <= d2,
    ensures
        remaining_seconds(total, d2, speed) <= remaining_seconds(total, d1, speed),
{
    if d2 < total {
        let a = (total - d2) as nat;
        let b = (total - d1) as nat;
        assert(a <= b);
        assert(a / speed <= b / speed) by (nonlinear_arith)
            requires
                a <= b,
                speed > 0,
        ;
    }
}

/// No estimate exists while nothing has been received: from a fresh
/// progress, chunks of no bytes leave the estimate absent.
pub proof fn no_estimate_before_data(total: nat, elapsed: nat)
    ensures
        estimate_after(total, 0, elapsed, None) == None::<nat>,
{
    if elapsed > 0 {
        assert(0nat / elapsed == 0);
    }
}

/// A failed capacity check ends the transfer before its body: the status it
/// leaves is final, and no lifecycle step leads from it to `Downloading`.
pub proof fn capacity_failure_is_final(next: DownloadStatus)
    ensures
        is_terminal(DownloadStatus::Failed),
        !transition_allowed(DownloadStatus::Failed, next),
{
}

} // verus!
