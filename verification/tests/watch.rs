use xpectate::event::{EventKind, NormalizedEvent, RawEvent, RawKind, SourceError};
use xpectate::watch::{Notification, Outcome, Watch, WatchConfig};

const MS: u64 = 1_000_000;

fn list(items: &[&str]) -> Vec<String> {
    items.iter().map(|item| item.to_string()).collect()
}

fn config(extensions: Option<&[&str]>, command: Option<&str>) -> WatchConfig {
    WatchConfig { extensions: extensions.map(list), command: command.map(|c| c.to_string()) }
}

fn change(kind: RawKind, paths: &[&str]) -> Notification {
    Notification::Event(RawEvent { kind, paths: list(paths) })
}

fn nothing() -> Outcome {
    Outcome { error: None, detected: None, run: None }
}

fn normalized(kind: EventKind, path: &str) -> NormalizedEvent {
    NormalizedEvent { kind, path: path.to_string() }
}

#[test]
fn a_new_watch_holds_its_configuration_and_a_fresh_trigger() {
    let watch = Watch::new(config(Some(&["css"]), Some("echo rebuilt")), 3_000_000_000);
    assert_eq!(watch.config(), &config(Some(&["css"]), Some("echo rebuilt")));
    assert!(!watch.trigger().has_pending_change());
    assert_eq!(watch.trigger().last_fire_time(), 2_000_000_000);
}

#[test]
fn without_extensions_and_command_changes_are_announced_once_and_nothing_runs() {
    let mut watch = Watch::new(config(None, None), 0);
    let first = watch.step(&change(RawKind::Create, &["/tmp/x/new.txt"]), 10 * MS);
    assert_eq!(
        first,
        Outcome {
            error: None,
            detected: Some(normalized(EventKind::Create, "/tmp/x/new.txt")),
            run: None,
        }
    );
    let mut now = 10 * MS;
    for path in ["/tmp/x/new.txt", "/tmp/x/sub/other", "/tmp/x/app.css", "/tmp/x"] {
        now += 700 * MS;
        assert_eq!(watch.step(&change(RawKind::Modify, &[path]), now), nothing());
    }
    assert!(watch.trigger().has_pending_change());
    assert_eq!(watch.trigger().last_fire_time(), -1_000_000_000);
}

#[test]
fn a_change_to_a_file_with_another_extension_is_filtered_out() {
    let mut watch = Watch::new(config(Some(&["css"]), Some("echo rebuilt")), 0);
    let outcome = watch.step(&change(RawKind::Modify, &["/tmp/x/app.js"]), 5 * MS);
    assert_eq!(outcome, nothing());
    assert!(!watch.trigger().has_pending_change());
    assert_eq!(watch.trigger().last_fire_time(), -1_000_000_000);
}

#[test]
fn a_filtered_event_does_not_evaluate_the_firing_condition() {
    let mut watch = Watch::new(config(Some(&["css"]), Some("echo rebuilt")), 0);
    let first = watch.step(&change(RawKind::Modify, &["/tmp/x/app.css"]), 0);
    assert!(first.run.is_some());
    let filtered = watch.step(&change(RawKind::Modify, &["/tmp/x/app.js"]), 5_000 * MS);
    assert_eq!(filtered, nothing());
    assert_eq!(watch.trigger().last_fire_time(), 0);
}

#[test]
fn three_changes_to_a_stylesheet_run_the_command_twice() {
    let mut watch = Watch::new(config(Some(&["css"]), Some("echo rebuilt")), 0);
    let at_0 = watch.step(&change(RawKind::Modify, &["/tmp/x/app.css"]), 0);
    assert_eq!(
        at_0,
        Outcome {
            error: None,
            detected: Some(normalized(EventKind::Modify, "/tmp/x/app.css")),
            run: Some(list(&["echo", "rebuilt"])),
        }
    );
    let at_300 = watch.step(&change(RawKind::Modify, &["/tmp/x/app.css"]), 300 * MS);
    assert_eq!(at_300, nothing());
    let at_1200 = watch.step(&change(RawKind::Modify, &["/tmp/x/app.css"]), 1200 * MS);
    assert_eq!(
        at_1200,
        Outcome { error: None, detected: None, run: Some(list(&["echo", "rebuilt"])) }
    );
    assert_eq!(watch.trigger().last_fire_time(), 1_200_000_000);
}

#[test]
fn an_error_is_reported_and_the_watch_goes_on() {
    let mut watch = Watch::new(config(Some(&["css"]), Some("echo rebuilt")), 0);
    let at_0 = watch.step(&change(RawKind::Modify, &["/tmp/x/app.css"]), 0);
    assert!(at_0.run.is_some());
    let failed = watch.step(&Notification::Error("queue overflow".to_string()), 300 * MS);
    assert_eq!(
        failed,
        Outcome {
            error: Some(SourceError::Backend("queue overflow".to_string())),
            detected: None,
            run: None,
        }
    );
    assert!(watch.trigger().has_pending_change());
    assert_eq!(watch.trigger().last_fire_time(), 0);
    let at_600 = watch.step(&change(RawKind::Modify, &["/tmp/x/app.css"]), 600 * MS);
    assert_eq!(at_600, nothing());
    let at_1200 = watch.step(&change(RawKind::Modify, &["/tmp/x/app.css"]), 1200 * MS);
    assert_eq!(at_1200.run, Some(list(&["echo", "rebuilt"])));
    assert_eq!(at_1200.error, None);
}

#[test]
fn an_error_does_not_touch_the_trigger_even_when_the_window_has_passed() {
    let mut watch = Watch::new(config(None, Some("make")), 0);
    assert!(watch.step(&change(RawKind::Create, &["a"]), 0).run.is_some());
    let failed = watch.step(&Notification::Error("lost".to_string()), 5_000 * MS);
    assert_eq!(failed.run, None);
    assert_eq!(failed.detected, None);
    assert_eq!(failed.error, Some(SourceError::Backend("lost".to_string())));
    assert_eq!(watch.trigger().last_fire_time(), 0);
}

#[test]
fn an_error_before_any_change_is_reported_too() {
    let mut watch = Watch::new(config(None, None), 0);
    let failed = watch.step(&Notification::Error("no such directory".to_string()), 1);
    assert_eq!(failed.error.map(|e| e.message()), Some("no such directory".to_string()));
    assert!(!watch.trigger().has_pending_change());
    let next = watch.step(&change(RawKind::Remove, &["/tmp/x/gone"]), 2);
    assert_eq!(next.detected, Some(normalized(EventKind::Remove, "/tmp/x/gone")));
}

#[test]
fn a_relevant_event_without_paths_is_skipped_and_reported() {
    let mut watch = Watch::new(config(None, Some("echo rebuilt")), 0);
    let skipped = watch.step(&change(RawKind::Modify, &[]), 10 * MS);
    assert_eq!(skipped, Outcome { error: Some(SourceError::NoPath), detected: None, run: None });
    assert!(!watch.trigger().has_pending_change());
    assert_eq!(watch.trigger().last_fire_time(), -1_000_000_000);
    let next = watch.step(&change(RawKind::Modify, &["/tmp/x/app.css"]), 20 * MS);
    assert_eq!(
        next,
        Outcome {
            error: None,
            detected: Some(normalized(EventKind::Modify, "/tmp/x/app.css")),
            run: Some(list(&["echo", "rebuilt"])),
        }
    );
}

#[test]
fn with_an_allow_list_an_event_without_paths_is_passed_over_in_silence() {
    let mut watch = Watch::new(config(Some(&["css"]), Some("echo rebuilt")), 0);
    assert_eq!(watch.step(&change(RawKind::Modify, &[]), 10 * MS), nothing());
    assert!(!watch.trigger().has_pending_change());
}

#[test]
fn the_filter_looks_at_every_path_but_the_first_is_announced() {
    let mut watch = Watch::new(config(Some(&["css"]), None), 0);
    let outcome = watch.step(&change(RawKind::Modify, &["/tmp/x/app.js", "/tmp/x/app.css"]), 0);
    assert_eq!(outcome.detected, Some(normalized(EventKind::Modify, "/tmp/x/app.js")));
    assert_eq!(outcome.run, None);
}

#[test]
fn an_unknown_kind_is_announced_as_unknown() {
    let mut watch = Watch::new(config(None, None), 0);
    let outcome = watch.step(&change(RawKind::Any, &["/tmp/x/thing"]), 0);
    let announced = outcome.detected.map(|e| e.to_tuple());
    assert_eq!(announced, Some(("Unknown".to_string(), "/tmp/x/thing".to_string())));
}

#[test]
fn a_blank_command_is_launched_without_arguments() {
    let mut watch = Watch::new(config(None, Some("   ")), 0);
    let outcome = watch.step(&change(RawKind::Modify, &["a"]), 0);
    assert_eq!(outcome.run, Some(Vec::<String>::new()));
}

#[test]
fn the_command_runs_at_most_once_per_window() {
    let mut watch = Watch::new(config(None, Some("cargo  build --release")), 1_000 * MS);
    let mut launches: Vec<u64> = Vec::new();
    let mut now = 1_000 * MS;
    for step in 0..120u64 {
        now += 90 * MS + (step % 5) * 110 * MS;
        let outcome = watch.step(&change(RawKind::Modify, &["/src/lib.rs"]), now);
        assert_eq!(outcome.error, None);
        assert_eq!(outcome.detected.is_some(), step == 0);
        if let Some(args) = outcome.run {
            assert_eq!(args, list(&["cargo", "build", "--release"]));
            launches.push(now);
        }
    }
    assert!(launches.len() > 1);
    for pair in launches.windows(2) {
        assert!(pair[1] - pair[0] >= 1_000 * MS);
    }
}

#[test]
fn a_change_to_a_file_named_by_a_dot_and_an_allowed_extension_passes_the_filter() {
    let mut watch = Watch::new(config(Some(&["css"]), Some("echo rebuilt")), 0);
    let outcome = watch.step(&change(RawKind::Create, &["/tmp/x/.css"]), 0);
    assert_eq!(
        outcome,
        Outcome {
            error: None,
            detected: Some(normalized(EventKind::Create, "/tmp/x/.css")),
            run: Some(list(&["echo", "rebuilt"])),
        }
    );
    assert!(watch.trigger().has_pending_change());
}
