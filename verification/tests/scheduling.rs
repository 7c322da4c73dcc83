use rotation_uploader::config::{Environment, RunConfig, ALWAYS_DUE};
use rotation_uploader::schedule::{
    is_due, plan, plan_cycle, CyclePlan, IDLE_SLEEP_SECS, POST_RUN_SLEEP_SECS,
};
use rotation_uploader::select::{select, Selection};

fn config(folder: &str, run_hour: &str) -> RunConfig {
    RunConfig::from_environment(Environment {
        host: Some("host:22".to_string()),
        user: Some("user".to_string()),
        password: Some("password".to_string()),
        remote_path: Some("/remote/file".to_string()),
        local_folder: Some(folder.to_string()),
        run_hour: Some(run_hour.to_string()),
        webhook_url: None,
    })
    .unwrap()
}

fn some_file() -> Selection {
    Selection {
        files: vec!["d/a".to_string(), "d/b".to_string(), "d/c".to_string()],
        day_of_year: 7,
        index: 1,
        path: "d/b".to_string(),
    }
}

#[test]
fn sleep_lengths() {
    assert_eq!(POST_RUN_SLEEP_SECS, 24 * 60 * 60);
    assert_eq!(IDLE_SLEEP_SECS, 30 * 60);
    assert_eq!(ALWAYS_DUE, 99);
}

#[test]
fn due_at_the_run_hour_and_at_no_other() {
    for run_hour in 0..24u32 {
        for hour in 0..24u32 {
            assert_eq!(is_due(run_hour, hour), run_hour == hour);
        }
    }
}

#[test]
fn always_due_under_the_sentinel() {
    for hour in 0..24u32 {
        assert!(is_due(99, hour));
    }
}

#[test]
fn run_hour_that_is_no_hour_is_never_due() {
    for hour in 0..24u32 {
        assert!(!is_due(24, hour));
        assert!(!is_due(50, hour));
        assert!(!is_due(100, hour));
    }
}

#[test]
fn due_wake_uploads_and_sleeps_a_day() {
    assert_eq!(
        plan(5, 5, Some(some_file())),
        CyclePlan { hour: 5, due: true, upload: Some(some_file()), sleep_secs: 86400 }
    );
    assert_eq!(
        plan(99, 17, Some(some_file())),
        CyclePlan { hour: 17, due: true, upload: Some(some_file()), sleep_secs: 86400 }
    );
}

#[test]
fn wake_that_is_not_due_uploads_nothing_and_sleeps_half_an_hour() {
    assert_eq!(
        plan(5, 6, Some(some_file())),
        CyclePlan { hour: 6, due: false, upload: None, sleep_secs: 1800 }
    );
    assert_eq!(plan(5, 4, None), CyclePlan { hour: 4, due: false, upload: None, sleep_secs: 1800 });
}

#[test]
fn empty_directory_means_no_upload_and_the_usual_sleep() {
    let nothing = select(Vec::new(), 7);
    assert_eq!(nothing, None);
    let met = plan(5, 5, nothing);
    assert_eq!(met, CyclePlan { hour: 5, due: true, upload: None, sleep_secs: 86400 });
    let unmet = plan(5, 6, select(Vec::new(), 7));
    assert_eq!(unmet, CyclePlan { hour: 6, due: false, upload: None, sleep_secs: 1800 });
}

#[test]
fn sleep_does_not_depend_on_what_was_found() {
    for run_hour in [0u32, 5, 23, 99] {
        for hour in 0..24u32 {
            let with = plan(run_hour, hour, Some(some_file()));
            let without = plan(run_hour, hour, None);
            assert_eq!(with.sleep_secs, without.sleep_secs);
            assert_eq!(with.due, without.due);
        }
    }
}

#[test]
fn cycle_under_the_sentinel_is_due_now() {
    let p = plan_cycle(&config("/", "99"));
    assert!(p.hour < 24);
    assert!(p.due);
    assert_eq!(p.sleep_secs, 86400);
    let chosen = p.upload.unwrap();
    assert!(chosen.path.starts_with('/'));
    assert_eq!(chosen.index, chosen.day_of_year as usize % chosen.files.len());
    assert_eq!(chosen.path, chosen.files[chosen.index]);
}

#[test]
fn cycle_over_a_missing_directory_uploads_nothing() {
    let p = plan_cycle(&config("/no-such-directory-for-the-scheduler", "99"));
    assert!(p.due);
    assert_eq!(p.upload, None);
    assert_eq!(p.sleep_secs, 86400);
}

#[test]
fn cycle_with_a_run_hour_that_never_comes_waits() {
    let p = plan_cycle(&config("/", "24"));
    assert!(p.hour < 24);
    assert!(!p.due);
    assert_eq!(p.upload, None);
    assert_eq!(p.sleep_secs, 1800);
}

#[test]
fn cycle_is_due_exactly_when_the_hour_matches() {
    for run_hour in 0..24u32 {
        let p = plan_cycle(&config("/no-such-directory-for-the-scheduler", &run_hour.to_string()));
        assert_eq!(p.due, p.hour == run_hour);
        assert_eq!(p.sleep_secs, if p.due { 86400 } else { 1800 });
    }
}

#[test]
fn directory_name_with_glob_syntax_does_not_stop_the_cycle() {
    for folder in ["[", "a/***", "/no-such-directory-*", "/no-such-directory/**"] {
        let due = plan_cycle(&config(folder, "99"));
        assert!(due.due);
        assert_eq!(due.upload, None);
        assert_eq!(due.sleep_secs, 86400);
        let waiting = plan_cycle(&config(folder, "24"));
        assert!(!waiting.due);
        assert_eq!(waiting.upload, None);
        assert_eq!(waiting.sleep_secs, 1800);
    }
}
