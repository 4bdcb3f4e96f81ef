use arkade_manager::clock::Instant;
use arkade_manager::job::{calculate_next_run, schedule_fits, seconds_per_unit, Job, JobInput};
use arkade_manager::map::GameMap;
use chrono::Utc;

fn instant_now() -> Instant {
    let now = Utc::now();
    Instant { secs: now.timestamp(), nanos: now.timestamp_subsec_nanos() }
}

fn input(enabled: bool, value: u32, unit: &str) -> JobInput {
    JobInput {
        id: None,
        name: "Test".to_string(),
        root_dir: r"C:\test".to_string(),
        destination_dir: r"C:\backups".to_string(),
        map: "TheIsland".to_string(),
        include_saves: true,
        include_map: false,
        include_server_files: false,
        include_plugin_configs: false,
        interval_value: value,
        interval_unit: unit.to_string(),
        retention_days: 7,
        enabled,
    }
}

#[test]
fn test_calculate_next_run() {
    let now = instant_now();
    let next = calculate_next_run(now, 30, "minutes");
    assert!(next > now);
    let diff_minutes = (next.secs - now.secs) / 60;
    assert!(diff_minutes >= 29 && diff_minutes <= 31);

    let next2 = calculate_next_run(now, 2, "hours");
    assert!(next2 > now);
    let diff_hours = (next2.secs - now.secs) / 3600;
    assert!(diff_hours >= 1 && diff_hours <= 3);

    let next3 = calculate_next_run(now, 1, "days");
    assert!(next3 > now);
    let diff_days = (next3.secs - now.secs) / 86400;
    assert!(diff_days >= 0 && diff_days <= 2);
}

#[test]
fn test_job_from_input() {
    let input = JobInput {
        id: None,
        name: "Test Job".to_string(),
        root_dir: r"C:\test".to_string(),
        destination_dir: r"C:\backups".to_string(),
        map: "TheIsland".to_string(),
        include_saves: true,
        include_map: true,
        include_server_files: false,
        include_plugin_configs: false,
        interval_value: 60,
        interval_unit: "minutes".to_string(),
        retention_days: 7,
        enabled: true,
    };

    let job = Job::from_input(input).unwrap();
    assert_eq!(job.name, "Test Job");
    assert!(job.next_run_at.is_some());
    assert!(job.enabled);
}

#[test]
fn test_job_update_after_run() {
    let input = JobInput {
        id: None,
        name: "Test".to_string(),
        root_dir: r"C:\test".to_string(),
        destination_dir: r"C:\backups".to_string(),
        map: "TheIsland".to_string(),
        include_saves: true,
        include_map: false,
        include_server_files: false,
        include_plugin_configs: false,
        interval_value: 1,
        interval_unit: "hours".to_string(),
        retention_days: 7,
        enabled: true,
    };

    let mut job = Job::from_input(input).unwrap();
    let initial_next_run = job.next_run_at.clone();

    assert!(job.update_after_run(1024 * 1024));

    assert!(job.last_run_at.is_some());
    assert_eq!(job.last_file_size, Some(1024 * 1024));
    assert!(job.next_run_at.is_some());
    assert_ne!(job.next_run_at, initial_next_run);
}

#[test]
fn next_run_is_exact() {
    let now = Instant { secs: 1_700_000_000, nanos: 123_456_789 };
    assert_eq!(
        calculate_next_run(now, 30, "minutes"),
        Instant { secs: 1_700_001_800, nanos: 123_456_789 }
    );
    assert_eq!(
        calculate_next_run(now, 2, "hours"),
        Instant { secs: 1_700_007_200, nanos: 123_456_789 }
    );
    assert_eq!(
        calculate_next_run(now, 1, "days"),
        Instant { secs: 1_700_086_400, nanos: 123_456_789 }
    );
    assert_eq!(calculate_next_run(now, 0, "days"), now);
}

#[test]
fn unknown_unit_counts_as_hours() {
    let now = Instant { secs: 1_700_000_000, nanos: 0 };
    assert_eq!(seconds_per_unit("weeks"), 3600);
    assert_eq!(seconds_per_unit("Minutes"), 3600);
    assert_eq!(seconds_per_unit("minutes"), 60);
    assert_eq!(seconds_per_unit("hours"), 3600);
    assert_eq!(seconds_per_unit("days"), 86400);
    assert_eq!(calculate_next_run(now, 3, "weeks").secs, 1_700_000_000 + 3 * 3600);
}

#[test]
fn largest_interval_does_not_overflow() {
    let now = Instant { secs: 253_402_300_799, nanos: 999_999_999 };
    let next = calculate_next_run(now, u32::MAX, "days");
    assert_eq!(next.secs, 253_402_300_799 + 4_294_967_295i64 * 86_400);
    assert!(!schedule_fits(now, u32::MAX, "days"));
    assert!(schedule_fits(Instant { secs: 0, nanos: 0 }, 1, "days"));
    assert!(!schedule_fits(Instant { secs: 0, nanos: 1_000_000_000 }, 1, "days"));
}

#[test]
fn disabled_job_has_no_next_run() {
    let job = Job::from_input(input(false, 30, "minutes")).unwrap();
    assert!(!job.enabled);
    assert_eq!(job.next_run_at, None);
    assert_eq!(job.last_run_at, None);
    assert_eq!(job.last_file_size, None);
    assert_eq!(job.last_error, None);
}

#[test]
fn from_input_at_writes_the_next_run() {
    let now = Instant { secs: 1_700_000_000, nanos: 0 };
    let job = Job::from_input_at(input(true, 30, "minutes"), "generated".to_string(), now);
    assert_eq!(job.id, "generated");
    assert_eq!(job.next_run_at.as_deref(), Some("2023-11-14T22:43:20+00:00"));
    assert_eq!(job.last_run_at, None);

    let mut with_id = input(true, 2, "hours");
    with_id.id = Some("given".to_string());
    let job = Job::from_input_at(with_id, "generated".to_string(), now);
    assert_eq!(job.id, "given");
    assert_eq!(job.next_run_at.as_deref(), Some("2023-11-15T00:13:20+00:00"));
}

#[test]
fn from_input_gives_a_fresh_id_each_time() {
    let a = Job::from_input(input(true, 1, "hours")).unwrap();
    let b = Job::from_input(input(true, 1, "hours")).unwrap();
    assert_eq!(a.id.len(), 36);
    assert_ne!(a.id, b.id);
    let mut with_id = input(true, 1, "hours");
    with_id.id = Some("kept".to_string());
    assert_eq!(Job::from_input(with_id).unwrap().id, "kept");
}

#[test]
fn from_input_refuses_a_run_beyond_the_calendar() {
    assert!(Job::from_input(input(true, u32::MAX, "days")).is_none());
    assert!(Job::from_input(input(false, u32::MAX, "days")).is_some());
}

#[test]
fn update_after_run_at_records_success() {
    let start = Instant { secs: 1_700_000_000, nanos: 0 };
    let mut job = Job::from_input_at(input(true, 1, "days"), "a".to_string(), start);
    job.last_error = Some("old failure".to_string());
    let end = Instant { secs: 1_700_000_100, nanos: 500_000_000 };
    job.update_after_run_at(2048, end);
    assert_eq!(job.last_run_at.as_deref(), Some("2023-11-14T22:15:00.500+00:00"));
    assert_eq!(job.last_file_size, Some(2048));
    assert_eq!(job.last_error, None);
    assert_eq!(job.next_run_at.as_deref(), Some("2023-11-15T22:15:00.500+00:00"));
}

#[test]
fn update_after_error_at_keeps_size_and_reschedules() {
    let start = Instant { secs: 1_700_000_000, nanos: 0 };
    let mut job = Job::from_input_at(input(true, 30, "minutes"), "a".to_string(), start);
    job.update_after_run_at(4096, start);
    let end = Instant { secs: 1_700_003_600, nanos: 0 };
    job.update_after_error_at("disk on fire".to_string(), end);
    assert_eq!(job.last_run_at.as_deref(), Some("2023-11-14T23:13:20+00:00"));
    assert_eq!(job.last_file_size, Some(4096));
    assert_eq!(job.last_error.as_deref(), Some("disk on fire"));
    assert_eq!(job.next_run_at.as_deref(), Some("2023-11-14T23:43:20+00:00"));
}

#[test]
fn disabled_job_keeps_no_next_run_after_a_run() {
    let now = Instant { secs: 1_700_000_000, nanos: 0 };
    let mut job = Job::from_input_at(input(false, 30, "minutes"), "a".to_string(), now);
    job.update_after_run_at(1, now);
    assert_eq!(job.next_run_at, None);
    assert!(job.last_run_at.is_some());
    job.update_next_run_at(now);
    assert_eq!(job.next_run_at, None);
    assert!(job.update_after_error("failed".to_string()));
    assert_eq!(job.next_run_at, None);
    assert_eq!(job.last_error.as_deref(), Some("failed"));
}

#[test]
fn update_is_refused_where_the_next_run_leaves_the_calendar() {
    let now = Instant { secs: 1_700_000_000, nanos: 0 };
    let mut job = Job::from_input_at(input(true, 30, "minutes"), "a".to_string(), now);
    job.interval_value = u32::MAX;
    job.interval_unit = "days".to_string();
    let before = job.clone();
    assert!(!job.can_record_at(now));
    assert!(!job.update_after_run(5));
    assert_eq!(job.next_run_at, before.next_run_at);
    assert_eq!(job.last_run_at, before.last_run_at);
    assert_eq!(job.last_file_size, before.last_file_size);
    assert!(!job.update_next_run());
    assert!(!job.update_after_error("x".to_string()));
    assert_eq!(job.last_error, None);
}

#[test]
fn get_map_resolves_known_names_only() {
    let now = Instant { secs: 0, nanos: 0 };
    let mut job = Job::from_input_at(input(false, 1, "hours"), "a".to_string(), now);
    assert_eq!(job.get_map(), Some(GameMap::TheIsland));
    job.map = "Ragnarok".to_string();
    assert_eq!(job.get_map(), Some(GameMap::Ragnarok));
    job.map = "theisland".to_string();
    assert_eq!(job.get_map(), None);
    job.map = "TheIsland_WP".to_string();
    assert_eq!(job.get_map(), None);
    job.map = String::new();
    assert_eq!(job.get_map(), None);
}

#[test]
fn clone_copies_every_field() {
    let now = Instant { secs: 1_700_000_000, nanos: 0 };
    let mut job = Job::from_input_at(input(true, 30, "minutes"), "a".to_string(), now);
    job.update_after_error_at("oops".to_string(), now);
    let copy = job.clone();
    assert_eq!(format!("{:?}", copy), format!("{:?}", job));
    let source = input(true, 30, "minutes");
    assert_eq!(format!("{:?}", source.clone()), format!("{:?}", source));
}

#[test]
fn update_next_run_by_the_clock() {
    let now = Instant { secs: 1_700_000_000, nanos: 0 };
    let mut disabled = Job::from_input_at(input(false, u32::MAX, "days"), "a".to_string(), now);
    assert!(disabled.update_next_run());
    assert_eq!(disabled.next_run_at, None);

    let mut enabled = Job::from_input_at(input(true, 30, "minutes"), "a".to_string(), now);
    let before = enabled.next_run_at.clone();
    assert!(enabled.update_next_run());
    assert!(enabled.next_run_at.is_some());
    assert_ne!(enabled.next_run_at, before);
    assert_eq!(enabled.last_run_at, None);

    assert!(enabled.update_after_error("failed".to_string()));
    assert!(enabled.last_run_at.is_some());
    assert_eq!(enabled.last_error.as_deref(), Some("failed"));
    assert!(enabled.update_after_run(12));
    assert_eq!(enabled.last_error, None);
    assert_eq!(enabled.last_file_size, Some(12));
}

#[test]
fn disabled_job_loses_a_stale_next_run() {
    let now = Instant { secs: 1_700_000_000, nanos: 0 };
    let mut job = Job::from_input_at(input(true, 30, "minutes"), "a".to_string(), now);
    assert!(job.next_run_at.is_some());
    job.enabled = false;
    let mut by_hand = job.clone();
    by_hand.update_next_run_at(now);
    assert_eq!(by_hand.next_run_at, None);
    assert_eq!(by_hand.last_run_at, None);
    assert_eq!(by_hand.name, job.name);

    let mut after_run = job.clone();
    after_run.update_after_run_at(7, now);
    assert_eq!(after_run.next_run_at, None);
    assert_eq!(after_run.last_file_size, Some(7));

    let mut after_error = job.clone();
    after_error.update_after_error_at("failed".to_string(), now);
    assert_eq!(after_error.next_run_at, None);

    let mut by_clock = job.clone();
    assert!(by_clock.update_next_run());
    assert_eq!(by_clock.next_run_at, None);
    let mut by_clock = job.clone();
    assert!(by_clock.update_after_error("failed".to_string()));
    assert_eq!(by_clock.next_run_at, None);
}

#[test]
fn from_input_schedules_an_enabled_job_after_the_clock() {
    let before = Utc::now();
    let job = Job::from_input(input(true, 30, "minutes")).unwrap();
    let after = Utc::now();
    let next = Instant::parse_rfc3339(job.next_run_at.as_deref().unwrap()).unwrap();
    assert!(next.secs >= before.timestamp() + 1800);
    assert!(next.secs <= after.timestamp() + 1800);
    assert_eq!(job.id.len(), 36);
}
