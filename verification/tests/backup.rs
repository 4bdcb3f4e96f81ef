use arkade_manager::backup::{
    archive_file_name, cause_text_names_full_disk, is_disk_full_error, text_names_full_disk,
    BackupEvent, BackupPhase, BackupStep, BackupTarget, Failure,
};
use arkade_manager::monthly::{
    preview_monthly_archive, preview_monthly_archive_at, run_monthly_archive,
    run_monthly_archive_at, select_monthly_candidates,
};
use arkade_manager::retention::{
    cleanup_old_backups, cleanup_old_backups_at, is_expired_backup, is_older_than_days,
    ArchiveFile,
};
use arkade_manager::clock::{Instant, MONTH_PATTERN};
use arkade_manager::config::Config;
use arkade_manager::job::{Job, JobInput};
use chrono::Utc;

const T0: Instant = Instant { secs: 1_700_000_000, nanos: 0 };
const DAY: i64 = 86_400;

fn instant_now() -> Instant {
    let now = Utc::now();
    Instant { secs: now.timestamp(), nanos: now.timestamp_subsec_nanos() }
}

fn archive(path: &str, modified: Option<Instant>) -> ArchiveFile {
    let file_name = path.rsplit('/').next().unwrap().to_string();
    ArchiveFile { path: path.to_string(), file_name, modified }
}

fn failure(message: &str) -> Failure {
    Failure { message: message.to_string(), chain: vec![message.to_string()] }
}

fn job(map: &str) -> Job {
    let input = JobInput {
        id: Some("job".to_string()),
        name: "Island Nightly".to_string(),
        root_dir: "/srv/ark".to_string(),
        destination_dir: "/srv/backups".to_string(),
        map: map.to_string(),
        include_saves: true,
        include_map: true,
        include_server_files: false,
        include_plugin_configs: false,
        interval_value: 1,
        interval_unit: "hours".to_string(),
        retention_days: 7,
        enabled: false,
    };
    Job::from_input_at(input, String::new(), T0)
}

#[test]
fn test_retention_cutoff() {
    let retention_days = 7;
    let now = instant_now();
    let cutoff = now.plus_seconds(-(retention_days as i64) * DAY);
    let old_date = cutoff.plus_seconds(-DAY);
    let recent_date = cutoff.plus_seconds(DAY);

    assert!(old_date < cutoff);
    assert!(recent_date > cutoff);
    assert!(is_older_than_days(old_date, now, retention_days));
    assert!(!is_older_than_days(recent_date, now, retention_days));
}

#[test]
fn test_monthly_archive_selection() {
    assert_eq!(MONTH_PATTERN, "%Y-%m");
    let now = instant_now();
    let current_month = now.to_month_label();

    // Test dates in current month
    let test_date = now.plus_seconds(-5 * DAY);
    let test_month = test_date.to_month_label();

    let files = vec![archive("/b/test.zip", Some(test_date))];
    let preview = preview_monthly_archive_at(&files, now);
    if test_month == current_month {
        // Would be included in monthly archive
        assert_eq!(preview.files, vec!["/b/test.zip"]);
    } else {
        assert!(preview.files.is_empty());
    }
}

#[test]
fn test_monthly_archive_oldest_first() {
    let now = Instant { secs: 1_701_302_400, nanos: 0 };
    let dates = vec![
        now.plus_seconds(-10 * DAY),
        now.plus_seconds(-5 * DAY),
        now.plus_seconds(-1 * DAY),
    ];
    let files = vec![
        archive("/b/newest.zip", Some(dates[2])),
        archive("/b/oldest.zip", Some(dates[0])),
        archive("/b/middle.zip", Some(dates[1])),
    ];
    let sorted = select_monthly_candidates(&files, now);

    // Oldest should be first
    assert_eq!(sorted[0].modified, Some(dates[0]));
    assert_eq!(sorted[1].modified, Some(dates[1]));
    assert_eq!(sorted.len(), 2);
}

#[test]
fn retention_deletes_what_is_older_than_the_cutoff() {
    let files = vec![
        archive("/b/old.zip", Some(T0.plus_seconds(-8 * DAY))),
        archive("/b/new.zip", Some(T0.plus_seconds(-6 * DAY))),
        archive("/b/edge.zip", Some(T0.plus_seconds(-7 * DAY))),
        archive("/b/just_over.zip", Some(Instant { secs: T0.secs - 7 * DAY - 1, nanos: 999_999_999 })),
        archive("/b/old.txt", Some(T0.plus_seconds(-80 * DAY))),
        archive("/b/old.zip.tmp", Some(T0.plus_seconds(-80 * DAY))),
        archive("/b/unknown.zip", None),
        archive("/b/.zip", Some(T0.plus_seconds(-80 * DAY))),
        archive("/b/OLD.ZIP", Some(T0.plus_seconds(-80 * DAY))),
        archive("/b/ancient.zip", Some(Instant { secs: 0, nanos: 0 })),
    ];
    assert_eq!(
        cleanup_old_backups_at(&files, T0, 7),
        vec!["/b/old.zip", "/b/just_over.zip", "/b/ancient.zip"]
    );
    assert_eq!(cleanup_old_backups_at(&files, T0, 0).len(), 5);
    assert_eq!(cleanup_old_backups_at(&files, T0, u32::MAX), Vec::<String>::new());
    assert!(cleanup_old_backups_at(&Vec::new(), T0, 7).is_empty());
    assert!(is_expired_backup(&files[0], T0, 7));
    assert!(!is_expired_backup(&files[1], T0, 7));
}

#[test]
fn retention_cutoff_compares_nanoseconds() {
    let now = Instant { secs: T0.secs, nanos: 500 };
    let cutoff_secs = T0.secs - 3 * DAY;
    assert!(is_older_than_days(Instant { secs: cutoff_secs, nanos: 499 }, now, 3));
    assert!(!is_older_than_days(Instant { secs: cutoff_secs, nanos: 500 }, now, 3));
    assert!(!is_older_than_days(Instant { secs: cutoff_secs, nanos: 501 }, now, 3));
    assert!(is_older_than_days(Instant { secs: cutoff_secs - 1, nanos: 999 }, now, 3));
    assert!(!is_older_than_days(Instant { secs: i64::MIN, nanos: 0 }, Instant { secs: i64::MIN, nanos: 0 }, 1));
    assert!(is_older_than_days(Instant { secs: i64::MIN, nanos: 0 }, Instant { secs: i64::MAX, nanos: 0 }, u32::MAX));
}

#[test]
fn retention_by_the_clock() {
    let now = instant_now();
    let files = vec![
        archive("/b/old.zip", Some(now.plus_seconds(-8 * DAY))),
        archive("/b/new.zip", Some(now.plus_seconds(-6 * DAY))),
    ];
    assert_eq!(cleanup_old_backups(&files, 7), vec!["/b/old.zip"]);
    assert_eq!(cleanup_old_backups(&files, 5), vec!["/b/old.zip", "/b/new.zip"]);
    assert!(cleanup_old_backups(&files, 9).is_empty());
}

#[test]
fn monthly_preview_takes_the_two_oldest_of_the_month() {
    // T0 is 2023-11-14
    let files = vec![
        archive("/a/nov_10.zip", Some(T0.plus_seconds(-4 * DAY))),
        archive("/a/oct_25.zip", Some(T0.plus_seconds(-20 * DAY))),
        archive("/b/nov_02.zip", Some(T0.plus_seconds(-12 * DAY))),
        archive("/b/nov_13.zip", Some(T0.plus_seconds(-1 * DAY))),
        archive("/b/nov_01.txt", Some(T0.plus_seconds(-13 * DAY))),
        archive("/c/nov_05.zip", Some(T0.plus_seconds(-9 * DAY))),
        archive("/c/unknown.zip", None),
        archive("/c/dec_01.zip", Some(T0.plus_seconds(17 * DAY))),
    ];
    let preview = preview_monthly_archive_at(&files, T0);
    assert_eq!(preview.files, vec!["/b/nov_02.zip", "/c/nov_05.zip"]);
}

#[test]
fn monthly_preview_with_fewer_than_two() {
    let files = vec![
        archive("/a/oct.zip", Some(T0.plus_seconds(-20 * DAY))),
        archive("/a/nov.zip", Some(T0.plus_seconds(-2 * DAY))),
    ];
    assert_eq!(preview_monthly_archive_at(&files, T0).files, vec!["/a/nov.zip"]);
    assert!(preview_monthly_archive_at(&files[..1].to_vec(), T0).files.is_empty());
    assert!(preview_monthly_archive_at(&Vec::new(), T0).files.is_empty());
}

#[test]
fn monthly_preview_keeps_listing_order_among_equals() {
    let same = Some(T0.plus_seconds(-DAY));
    let files = vec![
        archive("/a/1.zip", same),
        archive("/a/2.zip", same),
        archive("/a/3.zip", same),
    ];
    assert_eq!(preview_monthly_archive_at(&files, T0).files, vec!["/a/1.zip", "/a/2.zip"]);
    let files = vec![
        archive("/a/late.zip", Some(T0)),
        archive("/a/1.zip", same),
        archive("/a/2.zip", same),
    ];
    assert_eq!(preview_monthly_archive_at(&files, T0).files, vec!["/a/1.zip", "/a/2.zip"]);
}

#[test]
fn monthly_preview_by_the_clock() {
    let now = instant_now();
    let files = vec![archive("/a/now.zip", Some(now))];
    assert_eq!(preview_monthly_archive(&files).unwrap().files, vec!["/a/now.zip"]);
    let plan = run_monthly_archive(&Config::default(), &files).unwrap();
    assert_eq!(plan.moves.len(), 1);
    assert_eq!(plan.moves[0].source, "/a/now.zip");
}

#[test]
fn monthly_plan_moves_into_the_months_directory() {
    let config = Config { theme: None, monthly_archive_destination: Some("/mnt/monthly".to_string()) };
    let files = vec![
        archive("/a/nov_10.zip", Some(T0.plus_seconds(-4 * DAY))),
        archive("/b/nov_02.zip", Some(T0.plus_seconds(-12 * DAY))),
        archive("/c/nov_05.zip", Some(T0.plus_seconds(-9 * DAY))),
    ];
    let plan = run_monthly_archive_at(&config, &files, T0);
    assert_eq!(plan.destination, "/mnt/monthly");
    assert_eq!(plan.archive_dir, "/mnt/monthly/2023-11/ASA");
    assert_eq!(plan.moves.len(), 2);
    assert_eq!(plan.moves[0].source, "/b/nov_02.zip");
    assert_eq!(plan.moves[0].target, "/mnt/monthly/2023-11/ASA/nov_02.zip");
    assert_eq!(plan.moves[1].source, "/c/nov_05.zip");
    assert_eq!(plan.moves[1].target, "/mnt/monthly/2023-11/ASA/nov_05.zip");
    let result = plan.finished(2);
    assert_eq!(result.archived, 2);
    assert_eq!(result.destination, "/mnt/monthly");
}

#[test]
fn monthly_plan_on_an_empty_preview_moves_nothing() {
    let config = Config { theme: None, monthly_archive_destination: None };
    let files = vec![archive("/a/oct.zip", Some(T0.plus_seconds(-20 * DAY)))];
    let plan = run_monthly_archive_at(&config, &files, T0);
    assert!(plan.moves.is_empty());
    let result = plan.finished(0);
    assert_eq!(result.archived, 0);
    assert_eq!(result.destination, r"C:\arkade\Arkade Shared Global\FOTM Backups");
}

#[test]
fn disk_full_is_read_from_the_words() {
    let none: Vec<String> = Vec::new();
    assert!(is_disk_full_error("No space left on device (os error 28)", &none));
    assert!(is_disk_full_error("DISK FULL", &none));
    assert!(is_disk_full_error("There is not enough space on the disk.", &none));
    assert!(is_disk_full_error("Insufficient system resources", &none));
    assert!(is_disk_full_error("os error 112", &none));
    assert!(is_disk_full_error("Error code: 112", &none));
    assert!(!is_disk_full_error("permission denied", &none));
    assert!(!is_disk_full_error("failed with code 112", &none));
    assert!(!is_disk_full_error("", &none));
}

#[test]
fn disk_full_is_read_from_the_chain() {
    let chain = |texts: &[&str]| -> Vec<String> { texts.iter().map(|t| t.to_string()).collect() };
    assert!(is_disk_full_error("Failed to finalize ZIP file", &chain(&["Failed to finalize ZIP file", "No Space left"])));
    assert!(is_disk_full_error("wrapper", &chain(&["wrapper", "inner", "code 112"])));
    assert!(is_disk_full_error("wrapper", &chain(&["Disk Full"])));
    assert!(is_disk_full_error(
        "Failed to finalize ZIP file",
        &chain(&["Failed to finalize ZIP file", "insufficient disk space"])
    ));
    assert!(is_disk_full_error("wrapper", &chain(&["wrapper", "Not Enough Space on device"])));
    assert!(is_disk_full_error("wrapper", &chain(&["wrapper", "os error code: 112"])));
    assert!(!is_disk_full_error("wrapper", &chain(&["wrapper", "not enough room"])));
    assert!(!is_disk_full_error("wrapper", &chain(&["wrapper", "permission denied", "locked"])));
    assert!(text_names_full_disk("insufficient"));
    assert!(!text_names_full_disk("Insufficient"));
    assert!(cause_text_names_full_disk("x112y"));
    assert!(cause_text_names_full_disk("insufficient"));
    assert!(!text_names_full_disk("x112y"));
    assert!(!cause_text_names_full_disk("permission denied"));
}

#[test]
fn archive_name_bears_the_job_and_the_time() {
    assert_eq!(archive_file_name("Island Nightly", T0), "Island Nightly_20231114_221320.zip");
    assert_eq!(archive_file_name("", T0), "_20231114_221320.zip");
}

#[test]
fn target_of_a_run() {
    let target = BackupTarget::prepare_at(&job("TheIsland"), T0).unwrap();
    assert_eq!(target.file_name, "Island Nightly_20231114_221320.zip");
    assert_eq!(target.backup_path, "/srv/backups/Island Nightly_20231114_221320.zip");
    assert_eq!(target.temp_path, "/srv/backups/Island Nightly_20231114_221320.zip.tmp");
    assert_eq!(target.saves_dir, "/srv/ark/ShooterGame/Saved/SavedArks/TheIsland_WP");
    assert_eq!(target.config_dir, "/srv/ark/ShooterGame/Saved/Config/WindowsServer");
    assert_eq!(target.plugins_dir, "/srv/ark/ShooterGame/Binaries/Win64/ArkApi/Plugins");
    assert!(BackupTarget::prepare_at(&job("Atlantis"), T0).is_none());
    assert!(BackupTarget::prepare(&job("Atlantis")).is_none());
    let by_clock = BackupTarget::prepare(&job("Forglar")).unwrap();
    assert!(by_clock.file_name.starts_with("Island Nightly_"));
    assert!(by_clock.file_name.ends_with(".zip"));
    assert_eq!(by_clock.temp_path, format!("{}.tmp", by_clock.backup_path));
    assert_eq!(by_clock.saves_dir, "/srv/ark/ShooterGame/Saved/SavedArks/Forglar");
}

#[test]
fn good_run_cleans_up_and_ends() {
    let mut phase = BackupPhase::start();
    assert!(matches!(phase.advance(BackupEvent::Archived(42)), BackupStep::CleanUp));
    assert_eq!(phase, BackupPhase::CleanupAfterSuccess(42));
    assert!(matches!(phase.advance(BackupEvent::CleanedUp), BackupStep::Finish(Ok(42))));
    assert_eq!(phase, BackupPhase::Done);
}

#[test]
fn cleanup_failure_after_a_good_run_is_the_result() {
    let mut phase = BackupPhase::start();
    phase.advance(BackupEvent::Archived(42));
    match phase.advance(BackupEvent::CleanupFailed(failure("Failed to delete old backup: x.zip"))) {
        BackupStep::Finish(Err(text)) => assert_eq!(text, "Failed to delete old backup: x.zip"),
        other => panic!("unexpected step {:?}", other),
    }
    assert_eq!(phase, BackupPhase::Done);
}

#[test]
fn other_failures_end_the_run_at_once() {
    let mut phase = BackupPhase::start();
    match phase.advance(BackupEvent::AttemptFailed(failure("permission denied"))) {
        BackupStep::Finish(Err(text)) => assert_eq!(text, "permission denied"),
        other => panic!("unexpected step {:?}", other),
    }
    assert_eq!(phase, BackupPhase::Done);
}

#[test]
fn full_disk_gets_one_more_attempt() {
    let mut phase = BackupPhase::start();
    assert!(matches!(
        phase.advance(BackupEvent::AttemptFailed(failure("No space left on device"))),
        BackupStep::CleanUp
    ));
    assert_eq!(phase, BackupPhase::CleanupBeforeRetry);
    assert!(matches!(phase.advance(BackupEvent::CleanedUp), BackupStep::Attempt));
    assert_eq!(phase, BackupPhase::SecondAttempt);
    assert!(matches!(phase.advance(BackupEvent::Archived(7)), BackupStep::Finish(Ok(7))));
    assert_eq!(phase, BackupPhase::Done);
}

#[test]
fn second_full_disk_is_final() {
    let mut phase = BackupPhase::SecondAttempt;
    match phase.advance(BackupEvent::AttemptFailed(failure("disk full again"))) {
        BackupStep::Finish(Err(text)) => assert_eq!(
            text,
            "Backup failed even after cleaning up old backups. Still insufficient disk space: disk full again"
        ),
        other => panic!("unexpected step {:?}", other),
    }
    assert_eq!(phase, BackupPhase::Done);

    let mut phase = BackupPhase::SecondAttempt;
    match phase.advance(BackupEvent::AttemptFailed(failure("locked"))) {
        BackupStep::Finish(Err(text)) => assert_eq!(text, "locked"),
        other => panic!("unexpected step {:?}", other),
    }
}

#[test]
fn failed_cleanup_before_the_retry_ends_the_run() {
    let mut phase = BackupPhase::CleanupBeforeRetry;
    match phase.advance(BackupEvent::CleanupFailed(failure("cannot delete"))) {
        BackupStep::Finish(Err(text)) => assert_eq!(text, "Failed to cleanup old backups"),
        other => panic!("unexpected step {:?}", other),
    }
    assert_eq!(phase, BackupPhase::Done);
}

#[test]
fn events_out_of_order_end_the_run() {
    for start in [
        BackupPhase::FirstAttempt,
        BackupPhase::SecondAttempt,
        BackupPhase::Done,
    ] {
        let mut phase = start;
        match phase.advance(BackupEvent::CleanedUp) {
            BackupStep::Finish(Err(text)) => assert_eq!(text, "Backup steps were reported out of order"),
            other => panic!("unexpected step {:?}", other),
        }
        assert_eq!(phase, BackupPhase::Done);
    }
    let mut phase = BackupPhase::CleanupAfterSuccess(1);
    assert!(matches!(phase.advance(BackupEvent::Archived(2)), BackupStep::Finish(Err(_))));
    let mut phase = BackupPhase::Done;
    assert!(matches!(phase.advance(BackupEvent::Archived(2)), BackupStep::Finish(Err(_))));
}

#[test]
fn archive_of_a_shared_directory_is_a_candidate_once() {
    let a = archive("/shared/a.zip", Some(T0.plus_seconds(-4 * DAY)));
    let b = archive("/shared/b.zip", Some(T0.plus_seconds(-2 * DAY)));
    // two jobs share the directory, so it is listed twice
    let files = vec![a.clone(), b.clone(), a.clone(), b.clone()];
    assert_eq!(preview_monthly_archive_at(&files, T0).files, vec!["/shared/a.zip", "/shared/b.zip"]);
    let plan = run_monthly_archive_at(&Config::default(), &files, T0);
    assert_eq!(plan.moves.len(), 2);
    assert_eq!(plan.moves[0].source, "/shared/a.zip");
    assert_eq!(plan.moves[1].source, "/shared/b.zip");
    let files = vec![a.clone(), a.clone(), a];
    assert_eq!(preview_monthly_archive_at(&files, T0).files, vec!["/shared/a.zip"]);
}
