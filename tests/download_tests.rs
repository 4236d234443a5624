use burncloud_client_models::catalog::{find_discovered_model, random, ResourceOverview};
use burncloud_client_models::checksum::{calculate_checksum, ChecksumType};
use burncloud_client_models::download::{
    check_disk_space, collect_installations, verify_checksum, DownloadError, DownloadProgress,
    DownloadStatus, InstallationConfig, ModelDownloadManager, ModelInstallation,
};
use burncloud_client_models::workflow::{WorkflowEvent, WorkflowStage};

const ID: u128 = 0x67e55044_10b1_426f_9247_bb680e5fe0c8;
const ID_TEXT: &str = "67e55044-10b1-426f-9247-bb680e5fe0c8";

fn downloading() -> DownloadProgress {
    let mut p = DownloadProgress::new(ID, "m".to_string(), 0);
    p.start(10, 100).unwrap();
    p
}

#[test]
fn progress_starts_queued_and_empty() {
    let p = DownloadProgress::new(ID, "model".to_string(), 99);
    assert_eq!(p.status, DownloadStatus::Queued);
    assert_eq!(p.downloaded_bytes, 0);
    assert_eq!(p.estimated_remaining_seconds, None);
    assert_eq!(p.started_at, 99);
}

#[test]
fn capacity_shortfall_fails_before_transfer() {
    let mut p = DownloadProgress::new(ID, "m".to_string(), 0);
    let r = p.start(200, 100);
    assert_eq!(r, Err(DownloadError::InsufficientSpace { required: 200, available: 100 }));
    assert_eq!(p.status, DownloadStatus::Failed);
    assert!(!p.status.can_transition_to(DownloadStatus::Downloading));
    assert_eq!(p.downloaded_bytes, 0);
}

#[test]
fn capacity_check_boundaries() {
    assert_eq!(check_disk_space(100, 100), Ok(()));
    assert_eq!(check_disk_space(0, 0), Ok(()));
    assert_eq!(
        check_disk_space(101, 100),
        Err(DownloadError::InsufficientSpace { required: 101, available: 100 })
    );
}

#[test]
fn estimate_absent_until_bytes_arrive() {
    let mut p = downloading();
    p.set_total(Some(1000));
    p.record_chunk(0, 0);
    assert_eq!(p.estimated_remaining_seconds, None);
    p.record_chunk(0, 3);
    assert_eq!(p.estimated_remaining_seconds, None);
    assert_eq!(p.download_speed_bps, 0);
}

#[test]
fn estimate_falls_at_steady_throughput() {
    let mut p = downloading();
    p.set_total(Some(1000));
    let mut last = u64::MAX;
    for second in 1..=10u64 {
        p.record_chunk(100, second);
        assert_eq!(p.download_speed_bps, 100);
        let eta = p.estimated_remaining_seconds.unwrap();
        assert!(eta <= last);
        last = eta;
    }
    assert_eq!(last, 0);
    assert_eq!(p.progress_percent, 100);
}

#[test]
fn progress_figures_after_a_chunk() {
    let mut p = downloading();
    p.set_total(Some(400));
    p.record_chunk(100, 2);
    assert_eq!(p.downloaded_bytes, 100);
    assert_eq!(p.progress_percent, 25);
    assert_eq!(p.download_speed_bps, 50);
    assert_eq!(p.estimated_remaining_seconds, Some(6));
}

#[test]
fn unknown_total_gives_zero_percent() {
    let mut p = downloading();
    p.set_total(None);
    p.record_chunk(500, 1);
    assert_eq!(p.total_bytes, 0);
    assert_eq!(p.progress_percent, 0);
    assert_eq!(p.estimated_remaining_seconds, Some(0));
}

#[test]
fn status_transitions() {
    assert!(DownloadStatus::Queued.can_transition_to(DownloadStatus::Downloading));
    assert!(DownloadStatus::Downloading.can_transition_to(DownloadStatus::Verifying));
    assert!(DownloadStatus::Downloading.can_transition_to(DownloadStatus::Paused));
    assert!(DownloadStatus::Paused.can_transition_to(DownloadStatus::Downloading));
    assert!(DownloadStatus::Verifying.can_transition_to(DownloadStatus::Completed));
    assert!(DownloadStatus::Verifying.can_transition_to(DownloadStatus::Installing));
    assert!(DownloadStatus::Installing.can_transition_to(DownloadStatus::Completed));
    assert!(DownloadStatus::Paused.can_transition_to(DownloadStatus::Cancelled));
    assert!(!DownloadStatus::Downloading.can_transition_to(DownloadStatus::Completed));
    assert!(!DownloadStatus::Verifying.can_transition_to(DownloadStatus::Downloading));
    assert!(!DownloadStatus::Completed.can_transition_to(DownloadStatus::Failed));
    assert!(!DownloadStatus::Cancelled.can_transition_to(DownloadStatus::Downloading));
    assert!(!DownloadStatus::Queued.can_transition_to(DownloadStatus::Verifying));
}

#[test]
fn refused_transition_leaves_status() {
    let mut p = downloading();
    assert!(!p.transition(DownloadStatus::Completed));
    assert_eq!(p.status, DownloadStatus::Downloading);
    assert!(p.transition(DownloadStatus::Verifying));
    assert_eq!(p.status, DownloadStatus::Verifying);
    p.fail("boom".to_string());
    assert_eq!(p.status, DownloadStatus::Failed);
    assert_eq!(p.error_message.as_deref(), Some("boom"));
}

#[test]
fn checksum_verification_of_download() {
    let sha = calculate_checksum(b"abc", ChecksumType::SHA256);
    assert_eq!(verify_checksum(b"abc", &sha, ChecksumType::SHA256), Ok(()));
    assert_eq!(verify_checksum(b"abc", &sha.to_uppercase(), ChecksumType::SHA256), Ok(()));
    assert_eq!(
        verify_checksum(b"abc", "900150983CD24FB0D6963F7D28E17F72", ChecksumType::MD5),
        Ok(())
    );
    assert_eq!(
        verify_checksum(b"abd", &sha, ChecksumType::SHA256),
        Err(DownloadError::ChecksumMismatch {
            expected: sha.clone(),
            actual: calculate_checksum(b"abd", ChecksumType::SHA256),
        })
    );
}

#[test]
fn layout_of_download_root() {
    let m = ModelDownloadManager::new("/data/models".to_string());
    assert_eq!(m.download_dir(), "/data/models");
    assert_eq!(m.temp_dir(), "/data/models/temp");
    assert_eq!(m.max_concurrent_downloads(), 3);
    assert_eq!(m.temp_file_path(ID), format!("/data/models/temp/{}.tmp", ID_TEXT));
    assert_eq!(m.final_path("qwen.gguf"), "/data/models/qwen.gguf");
    assert_eq!(m.installed_dir(), "/data/models/installed");
    assert_eq!(m.installation_dir(ID), format!("/data/models/installed/{}", ID_TEXT));
    let m = m.with_max_concurrent(5);
    assert_eq!(m.max_concurrent_downloads(), 5);
}

#[test]
fn download_url_must_parse() {
    let m = ModelDownloadManager::new("/data/models".to_string());
    assert_eq!(
        m.prepare_download(ID, "https://example.com/model.gguf"),
        Ok(format!("/data/models/temp/{}.tmp", ID_TEXT))
    );
    assert_eq!(
        m.prepare_download(ID, "not a url"),
        Err(DownloadError::InvalidUrl("not a url".to_string()))
    );
}

#[test]
fn install_plan_deletes_only_temp_sources() {
    let m = ModelDownloadManager::new("/data/models".to_string());
    let config = InstallationConfig::default();
    let inside = m.plan_install(ID, "/data/models/temp/x.tmp", &config).unwrap();
    assert!(inside.delete_source);
    let outside = m.plan_install(ID, "/home/me/model.gguf", &config).unwrap();
    assert!(!outside.delete_source);
    let lookalike = m.plan_install(ID, "/data/models/temporary/x.gguf", &config).unwrap();
    assert!(!lookalike.delete_source);
    let mut keep = InstallationConfig::default();
    keep.keep_temp_files = true;
    assert!(!m.plan_install(ID, "/data/models/temp/x.tmp", &keep).unwrap().delete_source);
}

#[test]
fn install_plan_paths() {
    let m = ModelDownloadManager::new("/data/models".to_string());
    let plan = m.plan_install(ID, "/home/me/model.gguf", &InstallationConfig::default()).unwrap();
    let dir = format!("/data/models/installed/{}", ID_TEXT);
    assert_eq!(plan.install_path, dir);
    assert_eq!(plan.target_path, format!("{}/model.gguf", dir));
    assert_eq!(plan.config_path, format!("{}/model.json", dir));
    let mut custom = InstallationConfig::default();
    custom.custom_install_path = Some("/opt/m".to_string());
    custom.create_symlink = true;
    let plan = m.plan_install(ID, "/home/me/model.gguf", &custom).unwrap();
    assert_eq!(plan.install_path, "/opt/m");
    assert_eq!(plan.target_path, "/opt/m/model.gguf");
    assert!(plan.create_symlink);
}

#[test]
fn install_plan_needs_a_file_name() {
    let m = ModelDownloadManager::new("/data/models".to_string());
    let r = m.plan_install(ID, "/", &InstallationConfig::default());
    assert!(matches!(r, Err(DownloadError::ConfigError(_))));
    let r = m.plan_install(ID, "/home/..", &InstallationConfig::default());
    assert!(matches!(r, Err(DownloadError::ConfigError(_))));
    let plan = m.plan_install(ID, "/data/model.gguf/", &InstallationConfig::default()).unwrap();
    assert!(plan.target_path.ends_with("/model.gguf"));
}

#[test]
fn finished_installation_record() {
    let m = ModelDownloadManager::new("/data/models".to_string());
    let mut config = InstallationConfig::default();
    config.create_symlink = true;
    let plan = m.plan_install(ID, "/home/me/model.gguf", &config).unwrap();
    let rec = m.finish_install(&plan, 3, b"abc", 1234);
    assert_eq!(rec.model_id, ID);
    assert_eq!(rec.version, "1.0.0");
    assert_eq!(rec.file_size, 3);
    assert_eq!(rec.installed_at, 1234);
    assert_eq!(rec.checksum, calculate_checksum(b"abc", ChecksumType::SHA256));
    assert_eq!(rec.metadata.config_files, vec![plan.config_path.clone()]);
    assert_eq!(rec.metadata.data_files, vec![plan.target_path.clone()]);
    assert_eq!(
        rec.metadata.symlinks,
        vec![("/home/me/model.gguf".to_string(), plan.target_path.clone())]
    );
    let mut unverified = InstallationConfig::default();
    unverified.auto_verify = false;
    let plan = m.plan_install(ID, "/home/me/model.gguf", &unverified).unwrap();
    let rec = m.finish_install(&plan, 3, b"abc", 1234);
    assert_eq!(rec.checksum, "");
    assert!(rec.metadata.symlinks.is_empty());
}

fn record(id: u128) -> ModelInstallation {
    let m = ModelDownloadManager::new("/r".to_string());
    let plan = m.plan_install(id, "/src/a.gguf", &InstallationConfig::default()).unwrap();
    m.finish_install(&plan, 10, b"x", 0)
}

#[test]
fn unparsable_descriptors_are_skipped() {
    let out = collect_installations(vec![Some(record(1)), None, Some(record(2)), None]);
    assert_eq!(out.len(), 2);
    assert_eq!(out[0].model_id, 1);
    assert_eq!(out[1].model_id, 2);
    assert!(collect_installations(vec![None]).is_empty());
}

#[test]
fn default_installation_config() {
    let c = InstallationConfig::default();
    assert!(c.auto_verify);
    assert!(!c.keep_temp_files);
    assert!(!c.create_symlink);
    assert!(c.install_dependencies);
    assert!(!c.enable_gpu);
    assert!(c.custom_install_path.is_none());
}

#[test]
fn resource_overview_sums_and_lists() {
    let r = ResourceOverview::from_models(
        &vec![100, 200, 300],
        &vec![Some(8080), None, Some(9090)],
        &vec![None, Some(42), None],
    );
    assert_eq!(r.total_disk_usage_bytes, 600);
    assert_eq!(r.ports_in_use, vec![8080, 9090]);
    assert_eq!(r.active_processes, vec![42]);
}

#[test]
fn discovered_model_selection() {
    let c = vec![
        ("qwen".to_string(), "1.0".to_string()),
        ("llama".to_string(), "2.0".to_string()),
        ("qwen".to_string(), "2.0".to_string()),
    ];
    assert_eq!(find_discovered_model(&c, "qwen", None), Some(0));
    assert_eq!(find_discovered_model(&c, "qwen", Some("2.0")), Some(2));
    assert_eq!(find_discovered_model(&c, "qwen", Some("3.0")), None);
    assert_eq!(find_discovered_model(&c, "mistral", None), None);
}

#[test]
fn random_values_vary() {
    let a = random();
    let mut differs = false;
    for _ in 0..100_000 {
        if random() != a {
            differs = true;
            break;
        }
    }
    assert!(differs);
}

#[test]
fn workflow_advances_only_on_success() {
    let s = WorkflowStage::Discover.next(WorkflowEvent::ModelFound);
    assert_eq!(s, WorkflowStage::Download);
    let s = s.next(WorkflowEvent::Downloaded(DownloadStatus::Completed));
    assert_eq!(s, WorkflowStage::Validate);
    let s = s.next(WorkflowEvent::Validated(true));
    assert_eq!(s, WorkflowStage::Install);
    let s = s.next(WorkflowEvent::Installed);
    assert_eq!(s, WorkflowStage::Done);
    assert!(s.is_final());
    assert_eq!(WorkflowStage::Discover.next(WorkflowEvent::ModelMissing), WorkflowStage::Aborted);
    assert_eq!(
        WorkflowStage::Download.next(WorkflowEvent::Downloaded(DownloadStatus::Failed)),
        WorkflowStage::Aborted
    );
    assert_eq!(WorkflowStage::Validate.next(WorkflowEvent::Validated(false)), WorkflowStage::Aborted);
    assert_eq!(WorkflowStage::Install.next(WorkflowEvent::StageFailed), WorkflowStage::Aborted);
    assert_eq!(WorkflowStage::Aborted.next(WorkflowEvent::Installed), WorkflowStage::Aborted);
    assert!(!WorkflowStage::Validate.is_final());
}

#[test]
fn identifier_text_matches_uuid_display() {
    let m = ModelDownloadManager::new("/r".to_string());
    for id in [0u128, 1, u128::MAX, ID, 0x0123_4567_89ab_cdef_fedc_ba98_7654_3210] {
        let expected = format!("/r/installed/{}", uuid::Uuid::from_u128(id));
        assert_eq!(m.installation_dir(id), expected);
    }
}

#[test]
fn progress_steps_keep_identity() {
    let mut p = DownloadProgress::new(ID, "name".to_string(), 77);
    p.start(1, 2).unwrap();
    p.set_total(Some(10));
    p.record_chunk(10, 1);
    p.transition(DownloadStatus::Verifying);
    p.transition(DownloadStatus::Completed);
    assert_eq!(p.model_id, ID);
    assert_eq!(p.model_name, "name");
    assert_eq!(p.started_at, 77);
    assert_eq!(p.downloaded_bytes, 10);
    assert_eq!(p.status, DownloadStatus::Completed);
}
