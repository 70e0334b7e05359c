use arpx::error::ArpxErrorEnum;
use arpx::limits::Limits;
use arpx::profile::parse_job_script;
use arpx::profile::JobEntry;
use arpx::profile::Profile;
use arpx::profile::ProfileLogMonitor;
use arpx::profile::ProfileProcess;
use arpx::runtime_builder::RuntimeBuilder;

fn process(name: &str, command: &str) -> ProfileProcess {
    ProfileProcess {
        command: command.to_string(),
        cwd: ".".to_string(),
        log_monitors: Vec::new(),
        name: name.to_string(),
        onfail: String::new(),
        onsucceed: String::new(),
    }
}

fn monitor(name: &str, test: &str) -> ProfileLogMonitor {
    ProfileLogMonitor {
        buffer_size: 20,
        name: name.to_string(),
        ontrigger: String::new(),
        test: test.to_string(),
    }
}

fn job(name: &str, script: &str) -> JobEntry {
    let terminated = format!("{}\n", script);
    JobEntry {
        name: name.to_string(),
        outline: parse_job_script(&terminated).expect("script parses"),
    }
}

fn profile(jobs: Vec<JobEntry>, processes: Vec<ProfileProcess>) -> Profile {
    Profile { jobs, processes, log_monitors: Vec::new() }
}

fn message(result: Result<arpx::Runtime, arpx::error::ArpxError>) -> String {
    match result {
        Err(e) => match e.kind() {
            ArpxErrorEnum::InvalidConfiguration(details) => details.clone(),
            other => panic!("unexpected error kind: {:?}", other),
        },
        Ok(_) => panic!("expected a configuration error"),
    }
}

#[test]
fn simple_profile_compiles_into_one_job() {
    let profile = profile(
        vec![job("test", "p1;")],
        vec![process("p1", "echo foo\necho bar\necho baz")],
    );
    let runtime = RuntimeBuilder::from_profile_and_job_names(
        &profile,
        &vec!["test".to_string()],
        &Limits::new(),
    )
    .expect("profile compiles");
    assert_eq!(runtime.jobs.len(), 1);
    assert_eq!(runtime.jobs[0].name, "test");
    assert_eq!(runtime.jobs[0].tasks.len(), 1);
    let task = &runtime.jobs[0].tasks[0];
    assert_eq!(task.processes.len(), 1);
    assert_eq!(task.processes[0].name, "p1");
    assert_eq!(task.processes[0].command, "echo foo\necho bar\necho baz");
    assert_eq!(task.processes[0].cwd, ".");
    assert_eq!(runtime.ctx.process_map.len(), 1);
}

#[test]
fn concurrent_script_groups_processes_into_one_task() {
    let profile = profile(
        vec![job("dev", "[\n a;\n b;\n]")],
        vec![process("a", "echo a"), process("b", "echo b")],
    );
    let runtime = RuntimeBuilder::from_profile_and_job_names(
        &profile,
        &vec!["dev".to_string()],
        &Limits::new(),
    )
    .expect("profile compiles");
    assert_eq!(runtime.jobs[0].tasks.len(), 1);
    assert_eq!(runtime.jobs[0].tasks[0].processes.len(), 2);
}

#[test]
fn occurrence_overrides_replace_definition_actions() {
    let mut healer = process("healer", "echo heal");
    healer.onsucceed = "arpx_exit".to_string();
    let profile = profile(
        vec![job("run", "main ? healer : arpx_exit_error;")],
        vec![process("main", "echo hi"), healer],
    );
    let runtime = RuntimeBuilder::from_profile_and_job_names(
        &profile,
        &vec!["run".to_string()],
        &Limits::new(),
    )
    .expect("profile compiles");
    let compiled = &runtime.jobs[0].tasks[0].processes[0];
    assert_eq!(compiled.onsucceed, Some("healer".to_string()));
    assert_eq!(compiled.onfail, Some("arpx_exit_error".to_string()));
    let healer_def = runtime.ctx.find_process("healer").expect("registered");
    assert_eq!(healer_def.onsucceed, Some("arpx_exit".to_string()));
}

#[test]
fn empty_job_list_is_rejected() {
    let profile = profile(vec![job("a", "p;")], vec![process("p", "echo")]);
    let msg = message(RuntimeBuilder::from_profile_and_job_names(
        &profile,
        &Vec::new(),
        &Limits::new(),
    ));
    assert_eq!(msg, "No jobs requested for runtime");
}

#[test]
fn processes_ceiling_of_zero_rejects_any_process() {
    let profile = profile(vec![job("a", "p;")], vec![process("p", "echo")]);
    let mut limits = Limits::new();
    limits.processes_max = 0;
    let msg = message(RuntimeBuilder::from_profile_and_job_names(
        &profile,
        &vec!["a".to_string()],
        &limits,
    ));
    assert!(msg.contains("Too many processes defined"));
    assert_eq!(msg, "Too many processes defined in profile");
}

#[test]
fn monitors_ceiling_is_enforced() {
    let mut p = profile(vec![job("a", "p;")], vec![process("p", "echo")]);
    p.log_monitors = vec![monitor("m1", "true"), monitor("m2", "true")];
    let mut limits = Limits::new();
    limits.log_monitors_max = 1;
    let msg = message(RuntimeBuilder::from_profile_and_job_names(
        &p,
        &vec!["a".to_string()],
        &limits,
    ));
    assert_eq!(msg, "Too many log_monitors defined in profile");
}

#[test]
fn empty_process_set_is_rejected() {
    let profile = profile(vec![job("a", "p;")], Vec::new());
    let msg = message(RuntimeBuilder::from_profile_and_job_names(
        &profile,
        &vec!["a".to_string()],
        &Limits::new(),
    ));
    assert_eq!(msg, "No valid processes exist in profile");
}

#[test]
fn missing_working_directory_is_rejected() {
    let mut p = process("p", "echo");
    p.cwd = "/surely/not/a/real/directory".to_string();
    let profile = profile(vec![job("a", "p;")], vec![p]);
    let msg = message(RuntimeBuilder::from_profile_and_job_names(
        &profile,
        &vec!["a".to_string()],
        &Limits::new(),
    ));
    assert_eq!(
        msg,
        "Configured current working directory \"/surely/not/a/real/directory\" on process \"p\" is not a valid directory"
    );
}

#[test]
fn unknown_job_name_is_rejected() {
    let profile = profile(vec![job("a", "p;")], vec![process("p", "echo")]);
    let msg = message(RuntimeBuilder::from_profile_and_job_names(
        &profile,
        &vec!["nope".to_string()],
        &Limits::new(),
    ));
    assert_eq!(msg, "Requested job \"nope\" not defined in jobs");
}

#[test]
fn unknown_process_reference_is_rejected_with_task_index() {
    let profile = profile(vec![job("a", "p;\nghost;")], vec![process("p", "echo")]);
    let msg = message(RuntimeBuilder::from_profile_and_job_names(
        &profile,
        &vec!["a".to_string()],
        &Limits::new(),
    ));
    assert_eq!(msg, "Job \"a\", task 2: process \"ghost\" not defined in processes");
}

#[test]
fn unknown_log_monitor_reference_is_rejected() {
    let profile = profile(vec![job("a", "p; @watcher")], vec![process("p", "echo")]);
    let msg = message(RuntimeBuilder::from_profile_and_job_names(
        &profile,
        &vec!["a".to_string()],
        &Limits::new(),
    ));
    assert_eq!(msg, "Job \"a\", task 1: log monitor \"watcher\" not defined in log_monitors");
}

#[test]
fn invalid_onfail_override_is_rejected() {
    let profile = profile(vec![job("a", "p : nothing;")], vec![process("p", "echo")]);
    let msg = message(RuntimeBuilder::from_profile_and_job_names(
        &profile,
        &vec!["a".to_string()],
        &Limits::new(),
    ));
    assert_eq!(msg, "Job \"a\", task 1: invalid onfail \"nothing\" provided");
}

#[test]
fn invalid_onsucceed_override_is_rejected() {
    let profile = profile(vec![job("a", "p ? nothing;")], vec![process("p", "echo")]);
    let msg = message(RuntimeBuilder::from_profile_and_job_names(
        &profile,
        &vec!["a".to_string()],
        &Limits::new(),
    ));
    assert_eq!(msg, "Job \"a\", task 1: invalid onsucceed \"nothing\" provided");
}

#[test]
fn builtin_action_tags_are_valid_overrides() {
    let profile = profile(
        vec![job("a", "p ? arpx_exit : arpx_exit_error;")],
        vec![process("p", "echo")],
    );
    assert!(RuntimeBuilder::from_profile_and_job_names(
        &profile,
        &vec!["a".to_string()],
        &Limits::new(),
    )
    .is_ok());
}

#[test]
fn concurrent_processes_ceiling_is_enforced() {
    let profile = profile(
        vec![job("a", "[\n x;\n y;\n]")],
        vec![process("x", "echo"), process("y", "echo")],
    );
    let mut limits = Limits::new();
    limits.concurrent_processes_max = 1;
    let msg = message(RuntimeBuilder::from_profile_and_job_names(
        &profile,
        &vec!["a".to_string()],
        &limits,
    ));
    assert_eq!(msg, "Job \"a\", task 1: too many processes");
}

#[test]
fn thread_ceiling_counts_processes_and_monitors() {
    let mut p = profile(
        vec![job("a", "[\n x; @m\n y;\n]")],
        vec![process("x", "echo"), process("y", "echo")],
    );
    p.log_monitors = vec![monitor("m", "true")];
    let mut limits = Limits::new();
    limits.thread_max = 2;
    let msg = message(RuntimeBuilder::from_profile_and_job_names(
        &p,
        &vec!["a".to_string()],
        &limits,
    ));
    assert_eq!(
        msg,
        "Job \"a\", task 1: too many threads (reduce processes or log_monitors on task)"
    );
}

#[test]
fn parse_fault_reports_coordinates() {
    let fault = parse_job_script("p1; ???\n").expect_err("script does not parse fully");
    assert_eq!(fault.line, 1);
    assert!(fault.context.contains("!ERROR->"));
}

#[test]
fn empty_script_parses_to_no_tasks() {
    let outline = parse_job_script("").expect("empty script parses");
    assert!(outline.tasks.is_empty());
}

#[test]
fn one_stranded_character_is_a_fault_not_a_crash() {
    let fault = parse_job_script("p1;x\n").expect_err("trailing junk does not parse");
    assert_eq!(fault.line, 1);
    assert!(fault.context.contains("!ERROR->"));
}

#[test]
fn trailing_line_feed_does_not_change_the_outline() {
    let bare = parse_job_script("p1 ? p2;\n").expect("script parses");
    let padded = parse_job_script("p1 ? p2;\n\n\n").expect("script parses");
    assert_eq!(bare, padded);
}
