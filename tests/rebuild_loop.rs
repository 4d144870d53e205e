use cargo_leptos::bus::Bus;
use cargo_leptos::msg::{Msg, Watched};
use cargo_leptos::pipeline::Stage;
use cargo_leptos::rebuild::{Action, Input, Phase, RebuildLoop};
use cargo_leptos::reload::{forward_pending, send_reload};
use cargo_leptos::shutdown::ShutdownFlag;

/// Runs the whole pipeline of a fresh loop to success; returns the actions of
/// the last step.
fn build_to_success(l: &mut RebuildLoop) -> Vec<Action> {
    loop {
        let acts = l.step(Input::StageOk);
        if l.phase() != Phase::Building {
            return acts;
        }
    }
}

fn stages_of(acts: &[Action]) -> Vec<Stage> {
    acts.iter()
        .filter_map(|a| match a {
            Action::RunStage(s) => Some(*s),
            _ => None,
        })
        .collect()
}

#[test]
fn first_build_runs_whole_pipeline_then_launches() {
    let mut l = RebuildLoop::new(false);
    assert_eq!(l.phase(), Phase::Building);
    assert_eq!(l.current_stage(), Some(Stage::Clean));
    let mut seen = vec![Stage::Clean];
    loop {
        let acts = l.step(Input::StageOk);
        if l.phase() != Phase::Building {
            assert_eq!(acts.len(), 2);
            assert!(matches!(acts[0], Action::NotifyReload));
            assert!(matches!(acts[1], Action::Launch));
            break;
        }
        seen.extend(stages_of(&acts));
    }
    assert_eq!(
        seen,
        vec![Stage::Clean, Stage::StyleCompile, Stage::ClientCompile, Stage::ArtifactGen, Stage::ServerCompile]
    );
    assert_eq!(l.phase(), Phase::Serving);
    assert!(l.running());
}

#[test]
fn style_change_reruns_style_stages_only() {
    let mut l = RebuildLoop::new(false);
    build_to_success(&mut l);
    let mut bus = Bus::new();
    let client_a = bus.subscribe();
    let client_b = bus.subscribe();

    let acts = l.step(Input::Bus(Msg::StyleChanged));
    assert_eq!(stages_of(&acts), vec![Stage::StyleCompile]);
    assert_eq!(acts.len(), 1);
    assert!(l.running());
    let acts = l.step(Input::StageOk);
    assert_eq!(stages_of(&acts), vec![Stage::ArtifactGen]);
    let acts = l.step(Input::StageOk);
    assert_eq!(acts.len(), 1);
    assert!(matches!(acts[0], Action::NotifyReload));
    assert_eq!(l.phase(), Phase::Serving);
    assert!(l.running());

    let flag = ShutdownFlag::new();
    assert_eq!(send_reload(&flag, &mut bus), Ok(true));
    for c in [client_a, client_b] {
        let (out, shut) = forward_pending(&mut bus, c);
        assert_eq!(out, vec!["reload".to_string()]);
        assert!(!shut);
    }
}

#[test]
fn asset_change_syncs_assets_only() {
    let mut l = RebuildLoop::new(true);
    build_to_success(&mut l);
    let acts = l.step(Input::Bus(Msg::AssetsChanged(Watched::Write("assets/a.png".to_string()))));
    assert_eq!(stages_of(&acts), vec![Stage::AssetSync]);
    let acts = l.step(Input::StageOk);
    assert_eq!(acts.len(), 1);
    assert!(matches!(acts[0], Action::NotifyReload));
}

#[test]
fn late_client_gets_only_the_new_reload() {
    let mut bus = Bus::new();
    let early = bus.subscribe();
    let flag = ShutdownFlag::new();
    let mut l = RebuildLoop::new(false);
    build_to_success(&mut l);
    assert_eq!(send_reload(&flag, &mut bus), Ok(true));

    let late = bus.subscribe();
    let acts = l.step(Input::Bus(Msg::SrcChanged));
    assert!(matches!(acts[0], Action::Terminate));
    assert!(matches!(acts[1], Action::RunStage(Stage::Clean)));
    let acts = build_to_success(&mut l);
    assert!(matches!(acts[0], Action::NotifyReload));
    assert_eq!(send_reload(&flag, &mut bus), Ok(true));

    let (out, _) = forward_pending(&mut bus, late);
    assert_eq!(out, vec!["reload".to_string()]);
    let (out, _) = forward_pending(&mut bus, early);
    assert_eq!(out.len(), 2);
}

#[test]
fn compile_failure_suspends_and_reports_once() {
    let mut l = RebuildLoop::new(false);
    let mut all: Vec<Action> = Vec::new();
    while l.current_stage() != Some(Stage::ClientCompile) {
        all.extend(l.step(Input::StageOk));
    }
    let acts = l.step(Input::StageFailed("syntax error".to_string()));
    assert_eq!(l.phase(), Phase::Suspended);
    assert_eq!(acts.len(), 1);
    match &acts[0] {
        Action::ReportFailure(c) => assert_eq!(c, "syntax error"),
        other => panic!("unexpected {:?}", other),
    }
    all.extend(acts);
    for _ in 0..3 {
        all.extend(l.step(Input::StageOk));
        all.extend(l.step(Input::Bus(Msg::StyleChanged)));
        all.extend(l.step(Input::Bus(Msg::Reload("reload".to_string()))));
    }
    assert_eq!(l.phase(), Phase::Suspended);
    assert!(!all.iter().any(|a| matches!(a, Action::Launch | Action::NotifyReload)));
    assert_eq!(all.iter().filter(|a| matches!(a, Action::ReportFailure(_))).count(), 1);
    assert!(!l.running());
}

#[test]
fn source_change_after_failure_retries_from_first_stage() {
    let mut l = RebuildLoop::new(true);
    l.step(Input::StageOk);
    l.step(Input::StageFailed("bad css".to_string()));
    let acts = l.step(Input::Bus(Msg::SrcChanged));
    assert_eq!(acts.len(), 1);
    assert!(matches!(acts[0], Action::RunStage(Stage::Clean)));
    assert_eq!(l.phase(), Phase::Building);
}

#[test]
fn shutdown_mid_pipeline_abandons_build_and_exits() {
    let mut l = RebuildLoop::new(false);
    build_to_success(&mut l);
    l.step(Input::Bus(Msg::StyleChanged));
    assert_eq!(l.phase(), Phase::Building);
    let acts = l.step(Input::Bus(Msg::ShutDown));
    assert_eq!(acts.len(), 2);
    assert!(matches!(acts[0], Action::Terminate));
    assert!(matches!(acts[1], Action::Exit));
    assert_eq!(l.phase(), Phase::ShuttingDown);
    assert!(!l.running());
    assert_eq!(l.current_stage(), None);
    assert!(l.step(Input::StageOk).is_empty());
    assert!(l.step(Input::Bus(Msg::SrcChanged)).is_empty());
}

#[test]
fn shutdown_during_first_build_exits_without_terminate() {
    let mut l = RebuildLoop::new(true);
    let acts = l.step(Input::Bus(Msg::ShutDown));
    assert_eq!(acts.len(), 1);
    assert!(matches!(acts[0], Action::Exit));
}

#[test]
fn artifact_is_stopped_before_the_next_run() {
    let mut l = RebuildLoop::new(false);
    build_to_success(&mut l);
    assert!(l.running());
    let acts = l.step(Input::Bus(Msg::SrcChanged));
    assert_eq!(acts.len(), 2);
    assert!(matches!(acts[0], Action::Terminate));
    assert!(matches!(acts[1], Action::RunStage(Stage::Clean)));
    assert!(!l.running());
}

#[test]
fn artifact_exit_triggers_rebuild_without_terminate() {
    let mut l = RebuildLoop::new(false);
    build_to_success(&mut l);
    let acts = l.step(Input::ArtifactExited);
    assert_eq!(acts.len(), 1);
    assert!(matches!(acts[0], Action::RunStage(Stage::Clean)));
    assert_eq!(l.phase(), Phase::Building);
}

#[test]
fn change_during_build_is_ignored() {
    let mut l = RebuildLoop::new(false);
    assert!(l.step(Input::Bus(Msg::SrcChanged)).is_empty());
    assert!(l.step(Input::Bus(Msg::StyleChanged)).is_empty());
    assert_eq!(l.current_stage(), Some(Stage::Clean));
}
