use arpx::action::action_chain;
use arpx::action::get_optional_action;
use arpx::action::get_process_actions;
use arpx::action::Action;
use arpx::action::BuiltinAction;
use arpx::Ctx;
use arpx::Process;

fn ctx_with(processes: Vec<Process>) -> Ctx {
    let mut ctx = Ctx::new();
    ctx.process_map = processes;
    ctx
}

#[test]
fn builtin_names_resolve_to_builtin_actions() {
    let ctx = Ctx::new();
    match get_optional_action("arpx_exit", &ctx) {
        Some(Action::Builtin(BuiltinAction::Exit)) => {}
        other => panic!("unexpected resolution: {:?}", other),
    }
    match get_optional_action("arpx_exit_error", &ctx) {
        Some(Action::Builtin(BuiltinAction::ExitError)) => {}
        other => panic!("unexpected resolution: {:?}", other),
    }
}

#[test]
fn registered_names_resolve_to_their_process() {
    let ctx = ctx_with(vec![Process::new("p".to_string()).command("echo".to_string())]);
    match get_optional_action("p", &ctx) {
        Some(Action::Run(process)) => assert_eq!(process.name, "p"),
        other => panic!("unexpected resolution: {:?}", other),
    }
}

#[test]
fn unknown_names_resolve_to_nothing() {
    let ctx = Ctx::new();
    assert!(get_optional_action("ghost", &ctx).is_none());
}

#[test]
fn process_actions_follow_the_definition() {
    let ctx = ctx_with(vec![Process::new("next".to_string())]);
    let process = Process::new("main".to_string())
        .onsucceed(Some("next".to_string()))
        .onfail(Some("arpx_exit_error".to_string()));
    let actions = get_process_actions(&process, &ctx);
    match actions.onsucceed {
        Some(Action::Run(p)) => assert_eq!(p.name, "next"),
        other => panic!("unexpected onsucceed: {:?}", other),
    }
    match actions.onfail {
        Some(Action::Builtin(BuiltinAction::ExitError)) => {}
        other => panic!("unexpected onfail: {:?}", other),
    }
}

#[test]
fn chain_of_three_runs_in_strict_succession() {
    let p1 = Process::new("p1".to_string()).onsucceed(Some("p2".to_string()));
    let p2 = Process::new("p2".to_string()).onsucceed(Some("p3".to_string()));
    let p3 = Process::new("p3".to_string());
    let ctx = ctx_with(vec![p1.clone(), p2, p3]);
    let visited = action_chain(&ctx, &p1, &vec![true, true]);
    assert_eq!(visited, vec!["p1".to_string(), "p2".to_string(), "p3".to_string()]);
}

#[test]
fn onfail_runs_only_after_the_failure_is_observed() {
    let p1 = Process::new("p1".to_string()).onfail(Some("p2".to_string()));
    let p2 = Process::new("p2".to_string());
    let ctx = ctx_with(vec![p1.clone(), p2]);
    let after_failure = action_chain(&ctx, &p1, &vec![false]);
    assert_eq!(after_failure, vec!["p1".to_string(), "p2".to_string()]);
    let after_success = action_chain(&ctx, &p1, &vec![true]);
    assert_eq!(after_success, vec!["p1".to_string()]);
}

#[test]
fn chain_stops_at_builtin_actions() {
    let p1 = Process::new("p1".to_string()).onsucceed(Some("arpx_exit".to_string()));
    let ctx = ctx_with(vec![p1.clone()]);
    let visited = action_chain(&ctx, &p1, &vec![true, true]);
    assert_eq!(visited, vec!["p1".to_string()]);
}

#[test]
fn shell_args_append_the_command() {
    let process = Process::new("p".to_string()).command("echo hi".to_string());
    let bin = arpx::BinCommand::from_preset("bash");
    let args = process.shell_args(&bin);
    assert_eq!(args, vec!["-c".to_string(), "echo hi".to_string()]);
}
