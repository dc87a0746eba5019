use heisenberg::blue_sky::patcher::{
    advance, stage_command, PatchError, PatchNext, PatchStage, SelfPatcher,
};
use heisenberg::hank::vision::ScreenObserver;
use heisenberg::heisenberg::actions::AgentAction;
use heisenberg::heisenberg::turn::{
    feedback, planning_prompt, Outcome, Turn, TurnStep, MAX_ITERATIONS,
};
use heisenberg::jesse::runner::JesseRunner;
use heisenberg::saul::config::Config;
use heisenberg::saul::policy::{PolicyEngine, PolicyError};
use heisenberg::the_rv::driver::{drive_failure, BrowserDriver, DriveVerb};

fn config() -> Config {
    Config::with_detected("models", "llama-server", "/tmp/heisenberg", Some(2))
}

#[test]
fn a_turn_asks_for_at_most_ten_replies() {
    let mut t = Turn::new();
    let mut granted = 0;
    for _ in 0..25 {
        if t.request() == TurnStep::Generate {
            granted += 1;
        }
    }
    assert_eq!(granted, MAX_ITERATIONS);
    assert_eq!(t.replies, 10);
    assert_eq!(t.request(), TurnStep::Exhausted);
    assert_eq!(t.replies, 10);
}

#[test]
fn feedback_for_each_action() {
    let exec = AgentAction::Execute("ls".to_string());
    assert_eq!(
        feedback(&exec, &Outcome::Done("[OK] exit=0 elapsed=3ms stdout_len=0".to_string())),
        "[OK] exit=0 elapsed=3ms stdout_len=0"
    );
    assert_eq!(feedback(&exec, &Outcome::Error("timed out".to_string())), "Error: timed out");

    let browse = AgentAction::Browse("https://a.b".to_string());
    assert_eq!(
        feedback(&browse, &Outcome::Done(String::new())),
        "Successfully navigated to https://a.b"
    );
    assert_eq!(
        feedback(&browse, &Outcome::Error("off".to_string())),
        "Error navigating to https://a.b: off"
    );

    assert_eq!(
        feedback(&AgentAction::CaptureScreen, &Outcome::Done("/w/capture_1.png".to_string())),
        "Screen captured at /w/capture_1.png"
    );
    assert_eq!(
        feedback(&AgentAction::CaptureScreen, &Outcome::Error("no tool".to_string())),
        "Error capturing screen: no tool"
    );

    let write = AgentAction::WriteFile { path: "/w/a".to_string(), content: "x".to_string() };
    assert_eq!(feedback(&write, &Outcome::Done(String::new())), "Successfully wrote to /w/a");
    assert_eq!(
        feedback(&write, &Outcome::Error("denied".to_string())),
        "Failed to write to /w/a: denied"
    );

    let delete = AgentAction::DeleteFile("/w/a".to_string());
    assert_eq!(feedback(&delete, &Outcome::Done(String::new())), "Successfully deleted /w/a");
    assert_eq!(
        feedback(&delete, &Outcome::Error("missing".to_string())),
        "Failed to delete /w/a: missing"
    );

    let edit = AgentAction::EditFile {
        path: "/w/a".to_string(),
        mode: "append".to_string(),
        content: "x".to_string(),
    };
    assert_eq!(feedback(&edit, &Outcome::Done(String::new())), "Successfully edited /w/a");
    assert_eq!(
        feedback(&edit, &Outcome::Unsuccessful("bad".to_string())),
        "Failed to edit /w/a: bad"
    );
    assert_eq!(feedback(&edit, &Outcome::Error("blocked".to_string())), "Edit error: blocked");

    let patch = AgentAction::Patch("diff".to_string());
    assert_eq!(
        feedback(&patch, &Outcome::Done(String::new())),
        "Successfully applied self-modification patch and passed validation."
    );
    assert_eq!(
        feedback(&patch, &Outcome::Error("nope".to_string())),
        "Failed to apply patch or tests failed: nope"
    );
    assert_eq!(feedback(&AgentAction::Done, &Outcome::Done("x".to_string())), "");
}

#[test]
fn planning_prompt_names_the_task() {
    assert_eq!(
        planning_prompt("say hi"),
        "Break down the task below into concrete executable steps. For each step, provide a bash \
         command in <execute></execute> tags. Be precise and sequential.\n\nTask: say hi"
    );
}

#[test]
fn patch_commands() {
    assert_eq!(stage_command(PatchStage::Validating, "/t/u.patch"), "patch --dry-run -p1 < /t/u.patch");
    assert_eq!(stage_command(PatchStage::Applying, "/t/u.patch"), "patch -p1 < /t/u.patch");
    assert_eq!(stage_command(PatchStage::Testing, "/t/u.patch"), "cargo test");
    assert_eq!(stage_command(PatchStage::Reverting, "/t/u.patch"), "patch -R -p1 < /t/u.patch");
}

#[test]
fn patch_stages_in_order() {
    assert!(matches!(
        advance(PatchStage::Validating, true, String::new()),
        PatchNext::Continue(PatchStage::Applying)
    ));
    assert!(matches!(
        advance(PatchStage::Applying, true, String::new()),
        PatchNext::Continue(PatchStage::Testing)
    ));
    assert!(matches!(advance(PatchStage::Testing, true, String::new()), PatchNext::Finished(Ok(()))));
    assert!(matches!(
        advance(PatchStage::Testing, false, String::new()),
        PatchNext::Continue(PatchStage::Reverting)
    ));
    assert!(matches!(
        advance(PatchStage::Reverting, true, String::new()),
        PatchNext::Finished(Err(PatchError::Reverted))
    ));
    match advance(PatchStage::Validating, false, "hunk failed".to_string()) {
        PatchNext::Finished(Err(e)) => {
            assert_eq!(e.message(), "Patch validation failed: hunk failed")
        }
        other => panic!("unexpected: {:?}", other),
    }
    match advance(PatchStage::Applying, false, "rejected".to_string()) {
        PatchNext::Finished(Err(e)) => assert_eq!(e.message(), "Patch application failed: rejected"),
        other => panic!("unexpected: {:?}", other),
    }
    assert_eq!(
        PatchError::Reverted.message(),
        "Self-modification reverted due to test failure."
    );
}

#[test]
fn patcher_follows_the_policy() {
    let c = config();
    let p = SelfPatcher::new(PolicyEngine::from_config(&c), JesseRunner::new(&c));
    assert!(matches!(p.authorize(), Err(PolicyError::SelfModificationDisabled)));
    let mut c2 = config();
    c2.agent.self_improvement = true;
    let q = SelfPatcher::new(PolicyEngine::from_config(&c2), JesseRunner::new(&c2));
    assert!(q.authorize().is_ok());
}

#[test]
fn browser_commands_follow_the_policy() {
    let c = config();
    let off = BrowserDriver::new(PolicyEngine::from_config(&c), JesseRunner::new(&c));
    assert!(matches!(
        off.command(DriveVerb::Open, "https://a.b"),
        Err(PolicyError::BrowserDisabled)
    ));
    let mut c2 = config();
    c2.execution.browser_enabled = true;
    let on = BrowserDriver::new(PolicyEngine::from_config(&c2), JesseRunner::new(&c2));
    assert_eq!(
        on.command(DriveVerb::Open, "https://a.b").unwrap(),
        "bash scripts/drive.sh open 'https://a.b'"
    );
    assert_eq!(
        on.command(DriveVerb::Click, "#go").unwrap(),
        "bash scripts/drive.sh click '#go'"
    );
    assert_eq!(drive_failure(DriveVerb::Open, "x"), "Browser driver failed: x");
    assert_eq!(drive_failure(DriveVerb::Click, "y"), "Browser click failed: y");
}

#[test]
fn capture_file_names() {
    assert_eq!(ScreenObserver::capture_file_name(1_700_000_000), "capture_1700000000.png");
    assert_eq!(ScreenObserver::capture_file_name(-5), "capture_-5.png");
    assert_eq!(ScreenObserver::new("/w").work_dir, "/w");
}
