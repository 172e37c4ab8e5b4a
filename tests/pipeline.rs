use anni_sync::freshness::{aggregate, should_rebuild, SyncResult};
use anni_sync::pipeline::{Action, Event, Pipeline, Stage};
use anni_sync::source::{Config, SourceSpec, SyncError};
use anni_sync::sync::{clone_outcome, contains_up_to_date, plan_sync, pull_outcome, SyncOp};

fn source(name: &str, url: &str) -> SourceSpec {
    SourceSpec::new(name.to_string(), url.to_string())
}

fn config(base: (&str, &str), overlays: &[(&str, &str)]) -> Config {
    Config {
        base: source(base.0, base.1),
        overlay: overlays.iter().map(|(n, u)| source(n, u)).collect(),
    }
}

fn cloned() -> Event {
    Event::CloneFinished { success: true, stderr: String::new() }
}

fn up_to_date() -> Event {
    Event::PullFinished {
        success: true,
        stdout: b"Already up to date.\n".to_vec(),
        stderr: String::new(),
    }
}

fn updated() -> Event {
    Event::PullFinished {
        success: true,
        stdout: b"Updating 1a2b3c4..5d6e7f8\nFast-forward\n album.toml | 2 +-\n".to_vec(),
        stderr: String::new(),
    }
}

fn pull_failed(detail: &str) -> Event {
    Event::PullFinished { success: false, stdout: Vec::new(), stderr: detail.to_string() }
}

fn probe_path(a: &Action) -> String {
    match a {
        Action::Probe { path } => path.clone(),
        other => panic!("expected a probe, got {:?}", other),
    }
}

#[test]
fn scenario_fresh_clone_of_single_base_triggers_compose() {
    let mut p = Pipeline::new(config(("core", "https://example.org/core.git"), &[]));
    assert_eq!(probe_path(&p.next_action()), "core");
    p.handle(Event::Presence { exists: false });
    match p.next_action() {
        Action::Clone { url, path } => {
            assert_eq!(url, "https://example.org/core.git");
            assert_eq!(path, "core");
        }
        other => panic!("expected a clone, got {:?}", other),
    }
    p.handle(cloned());
    assert!(p.fresh);
    assert!(matches!(p.next_action(), Action::CheckOutputs));
    p.handle(Event::Outputs { database: true, metadata: true });
    assert!(matches!(p.next_action(), Action::Compose));
    assert_eq!(p.composer_roots(), vec!["core".to_string()]);
    p.handle(Event::Composed { success: true, detail: String::new() });
    assert!(p.is_finished());
    assert!(matches!(p.next_action(), Action::Finished { rebuilt: true }));
}

#[test]
fn scenario_everything_up_to_date_skips_compose() {
    let mut p = Pipeline::new(config(("core", "u1"), &[("extra", "u2")]));
    assert_eq!(probe_path(&p.next_action()), "core");
    p.handle(Event::Presence { exists: true });
    assert!(matches!(p.next_action(), Action::Pull { ref path } if path == "core"));
    p.handle(up_to_date());
    assert_eq!(probe_path(&p.next_action()), "extra");
    p.handle(Event::Presence { exists: true });
    assert!(matches!(p.next_action(), Action::Pull { ref path } if path == "extra"));
    p.handle(up_to_date());
    assert!(!p.fresh);
    assert!(matches!(p.next_action(), Action::CheckOutputs));
    p.handle(Event::Outputs { database: true, metadata: true });
    assert!(matches!(p.next_action(), Action::Finished { rebuilt: false }));
    assert!(matches!(p.stage, Stage::Done { rebuilt: false }));
}

#[test]
fn scenario_diverged_base_aborts_before_overlays() {
    let mut p = Pipeline::new(config(("core", "u1"), &[("extra", "u2")]));
    p.handle(Event::Presence { exists: true });
    p.handle(pull_failed("fatal: Not possible to fast-forward, aborting."));
    assert!(p.is_finished());
    match p.next_action() {
        Action::Abort { error: SyncError::UpdateFailed { source, detail } } => {
            assert_eq!(source.name, "core");
            assert_eq!(source.url, "u1");
            assert_eq!(detail, "fatal: Not possible to fast-forward, aborting.");
        }
        other => panic!("expected an update failure, got {:?}", other),
    }
    // The overlay is never probed afterwards.
    p.handle(Event::Presence { exists: true });
    assert_eq!(p.index, 0);
    assert!(matches!(p.next_action(), Action::Abort { .. }));
}

#[test]
fn all_missing_sources_are_each_cloned_once() {
    let mut p = Pipeline::new(config(("a", "ua"), &[("b", "ub"), ("c", "uc")]));
    let mut clones = Vec::new();
    loop {
        match p.next_action() {
            Action::Probe { .. } => p.handle(Event::Presence { exists: false }),
            Action::Clone { path, .. } => {
                clones.push(path);
                p.handle(cloned());
            }
            Action::CheckOutputs => break,
            other => panic!("unexpected action {:?}", other),
        }
    }
    assert_eq!(clones, vec!["a".to_string(), "b".to_string(), "c".to_string()]);
    assert!(p.fresh);
}

#[test]
fn all_settled_sources_are_not_fresh() {
    let mut p = Pipeline::new(config(("a", "ua"), &[("b", "ub"), ("c", "uc")]));
    let mut pulls = 0;
    loop {
        match p.next_action() {
            Action::Probe { .. } => p.handle(Event::Presence { exists: true }),
            Action::Pull { .. } => {
                pulls += 1;
                p.handle(up_to_date());
            }
            Action::CheckOutputs => break,
            other => panic!("unexpected action {:?}", other),
        }
    }
    assert_eq!(pulls, 3);
    assert!(!p.fresh);
}

#[test]
fn second_run_without_changes_does_not_rebuild() {
    let cfg = || config(("core", "u1"), &[("extra", "u2")]);
    let mut first = Pipeline::new(cfg());
    for e in [Event::Presence { exists: false }, cloned(), Event::Presence { exists: false }, cloned()] {
        first.handle(e);
    }
    first.handle(Event::Outputs { database: false, metadata: false });
    first.handle(Event::Composed { success: true, detail: String::new() });
    assert!(matches!(first.stage, Stage::Done { rebuilt: true }));

    let mut second = Pipeline::new(cfg());
    for e in [Event::Presence { exists: true }, up_to_date(), Event::Presence { exists: true }, up_to_date()] {
        second.handle(e);
    }
    second.handle(Event::Outputs { database: true, metadata: true });
    assert!(matches!(second.stage, Stage::Done { rebuilt: false }));
}

#[test]
fn missing_database_rebuilds_without_changes() {
    let mut p = Pipeline::new(config(("core", "u1"), &[]));
    p.handle(Event::Presence { exists: true });
    p.handle(up_to_date());
    assert!(!p.fresh);
    p.handle(Event::Outputs { database: false, metadata: true });
    assert!(matches!(p.next_action(), Action::Compose));
}

#[test]
fn missing_metadata_rebuilds_without_changes() {
    let mut p = Pipeline::new(config(("core", "u1"), &[]));
    p.handle(Event::Presence { exists: true });
    p.handle(up_to_date());
    p.handle(Event::Outputs { database: true, metadata: false });
    assert!(matches!(p.stage, Stage::Composing));
}

#[test]
fn stale_first_source_does_not_skip_failing_second() {
    let mut p = Pipeline::new(config(("core", "u1"), &[("extra", "u2")]));
    p.handle(Event::Presence { exists: true });
    p.handle(updated());
    assert!(p.fresh);
    assert_eq!(probe_path(&p.next_action()), "extra");
    p.handle(Event::Presence { exists: true });
    p.handle(pull_failed("fatal: unable to access remote"));
    match &p.stage {
        Stage::Failed { error: SyncError::UpdateFailed { source, detail } } => {
            assert_eq!(source.name, "extra");
            assert_eq!(detail, "fatal: unable to access remote");
        }
        other => panic!("expected an update failure, got {:?}", other),
    }
}

#[test]
fn clone_failure_aborts_run() {
    let mut p = Pipeline::new(config(("core", "bad-url"), &[]));
    p.handle(Event::Presence { exists: false });
    p.handle(Event::CloneFinished { success: false, stderr: "repository not found".to_string() });
    match p.next_action() {
        Action::Abort { error: SyncError::CloneFailed { source, detail } } => {
            assert_eq!(source.url, "bad-url");
            assert_eq!(detail, "repository not found");
        }
        other => panic!("expected a clone failure, got {:?}", other),
    }
}

#[test]
fn composer_failure_aborts_run() {
    let mut p = Pipeline::new(config(("core", "u1"), &[]));
    p.handle(Event::Presence { exists: false });
    p.handle(cloned());
    p.handle(Event::Outputs { database: true, metadata: true });
    p.handle(Event::Composed { success: false, detail: "conflicting album".to_string() });
    assert!(matches!(
        p.next_action(),
        Action::Abort { error: SyncError::ComposerError { ref detail } } if detail == "conflicting album"
    ));
}

#[test]
fn io_failure_aborts_run() {
    let mut p = Pipeline::new(config(("core", "u1"), &[]));
    p.handle(Event::IoFailed { detail: "permission denied".to_string() });
    assert!(matches!(p.stage, Stage::Failed { error: SyncError::IOError { .. } }));
}

#[test]
fn unexpected_event_is_ignored() {
    let mut p = Pipeline::new(config(("core", "u1"), &[]));
    p.handle(cloned());
    assert!(matches!(p.stage, Stage::Probing));
    assert_eq!(p.index, 0);
}

#[test]
fn composer_roots_keep_configured_order() {
    let p = Pipeline::new(config(("base", "u"), &[("z", "u"), ("a", "u"), ("m", "u")]));
    assert_eq!(p.composer_roots(), vec!["base", "z", "a", "m"]);
    assert_eq!(p.sources.len(), 4);
}

#[test]
fn aggregate_is_logical_or() {
    let r = |c: bool| SyncResult { source: source("s", "u"), changed: c };
    assert!(!aggregate(&vec![]));
    assert!(!aggregate(&vec![r(false), r(false)]));
    assert!(aggregate(&vec![r(true), r(false)]));
    assert!(aggregate(&vec![r(false), r(false), r(true)]));
}

#[test]
fn should_rebuild_table() {
    assert!(!should_rebuild(false, true, true));
    assert!(should_rebuild(true, true, true));
    assert!(should_rebuild(false, false, true));
    assert!(should_rebuild(false, true, false));
    assert!(should_rebuild(false, false, false));
}

#[test]
fn up_to_date_phrase_detection() {
    assert!(contains_up_to_date(&b"Already up to date.".to_vec()));
    assert!(contains_up_to_date(&b"From x\n * branch main\nAlready up to date.\n".to_vec()));
    assert!(!contains_up_to_date(&b"Already up to date".to_vec()));
    assert!(!contains_up_to_date(&b"already up to date.".to_vec()));
    assert!(!contains_up_to_date(&Vec::new()));
    assert!(!contains_up_to_date(&b"Fast-forward\n".to_vec()));
}

#[test]
fn plan_sync_clones_missing_and_pulls_existing() {
    assert_eq!(plan_sync(false), SyncOp::Clone);
    assert_eq!(plan_sync(true), SyncOp::Pull);
}

#[test]
fn transfer_outcomes_are_classified() {
    let s = source("core", "u");
    assert!(matches!(clone_outcome(&s, true, String::new()), Ok(true)));
    assert!(matches!(clone_outcome(&s, false, "x".to_string()), Err(SyncError::CloneFailed { .. })));
    assert!(matches!(
        pull_outcome(&s, true, &b"Already up to date.\n".to_vec(), String::new()),
        Ok(false)
    ));
    assert!(matches!(pull_outcome(&s, true, &b"Fast-forward\n".to_vec(), String::new()), Ok(true)));
    assert!(matches!(
        pull_outcome(&s, false, &Vec::new(), "diverged".to_string()),
        Err(SyncError::UpdateFailed { .. })
    ));
}
