use arkade_manager::clock::Instant;
use arkade_manager::retention::{
    begin_cleanup, cleanup_old_backups_at, continue_cleanup, ArchiveFile, CleanupPhase,
    CleanupStep,
};

const NOW: Instant = Instant { secs: 1_700_000_000, nanos: 0 };

fn told(step: &CleanupStep) -> String {
    match step {
        CleanupStep::Delete { path } => format!("delete {}", path),
        CleanupStep::Finish(Ok(deleted)) => format!("deleted {}", deleted),
        CleanupStep::Finish(Err(text)) => format!("error {}", text),
    }
}

fn expired(count: usize) -> Vec<String> {
    (0..count).map(|k| format!("/b/old_{}.zip", k)).collect()
}

#[test]
fn cleanup_deletes_in_the_order_of_the_list() {
    let list = expired(3);
    let (mut phase, first) = begin_cleanup(&list);
    assert_eq!(phase, CleanupPhase::Deleting(0));
    let mut steps = vec![told(&first)];
    for _ in 0..3 {
        steps.push(told(&continue_cleanup(&list, &mut phase, true)));
    }
    assert_eq!(
        steps,
        vec!["delete /b/old_0.zip", "delete /b/old_1.zip", "delete /b/old_2.zip", "deleted 3"]
    );
    assert_eq!(phase, CleanupPhase::Done);
    assert_eq!(
        told(&continue_cleanup(&list, &mut phase, true)),
        "error Cleanup steps were reported out of order"
    );
}

#[test]
fn cleanup_of_nothing_is_over_at_once() {
    let list = expired(0);
    let (phase, first) = begin_cleanup(&list);
    assert_eq!(told(&first), "deleted 0");
    assert_eq!(phase, CleanupPhase::Done);
}

#[test]
fn failed_deletion_names_the_file_and_ends_the_cleanup() {
    let list = expired(3);
    let (mut phase, first) = begin_cleanup(&list);
    assert_eq!(told(&first), "delete /b/old_0.zip");
    assert_eq!(told(&continue_cleanup(&list, &mut phase, true)), "delete /b/old_1.zip");
    assert_eq!(
        told(&continue_cleanup(&list, &mut phase, false)),
        "error Failed to delete old backup: /b/old_1.zip"
    );
    assert_eq!(phase, CleanupPhase::Done);
    // nothing behind the failure is deleted
    assert_eq!(
        told(&continue_cleanup(&list, &mut phase, true)),
        "error Cleanup steps were reported out of order"
    );
}

#[test]
fn cleanup_report_for_a_place_beyond_the_list_is_out_of_order() {
    let list = expired(2);
    let mut phase = CleanupPhase::Deleting(5);
    assert_eq!(
        told(&continue_cleanup(&list, &mut phase, true)),
        "error Cleanup steps were reported out of order"
    );
    assert_eq!(phase, CleanupPhase::Done);
}

#[test]
fn cleanup_runs_over_what_retention_lists() {
    let day: i64 = 86_400;
    let files = vec![
        ArchiveFile {
            path: "/b/a.zip".to_string(),
            file_name: "a.zip".to_string(),
            modified: Some(NOW.plus_seconds(-8 * day)),
        },
        ArchiveFile {
            path: "/b/b.zip".to_string(),
            file_name: "b.zip".to_string(),
            modified: Some(NOW.plus_seconds(-6 * day)),
        },
        ArchiveFile {
            path: "/b/c.zip".to_string(),
            file_name: "c.zip".to_string(),
            modified: Some(NOW.plus_seconds(-9 * day)),
        },
    ];
    let list = cleanup_old_backups_at(&files, NOW, 7);
    let (mut phase, first) = begin_cleanup(&list);
    assert_eq!(told(&first), "delete /b/a.zip");
    assert_eq!(told(&continue_cleanup(&list, &mut phase, true)), "delete /b/c.zip");
    assert_eq!(told(&continue_cleanup(&list, &mut phase, true)), "deleted 2");
}
