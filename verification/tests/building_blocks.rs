use arpx::defaults;
use arpx::error::profile_not_found;
use arpx::error::ArpxErrorEnum;
use arpx::log_util::AnnotatedMessage;
use arpx::log_util::Patterns;
use arpx::message::LogMonitorCmd;
use arpx::message::LogMonitorMessage;
use arpx::text::usize_to_string;
use arpx::uplink::Cmd;
use arpx::uplink::UplinkMessage;
use arpx::BinCommand;
use arpx::LogMonitor;
use arpx::Process;
use arpx::Runtime;

#[test]
fn bin_command_presets_pick_the_right_shell() {
    let bash = BinCommand::from_preset("bash");
    assert_eq!(bash.bin, "sh");
    assert_eq!(bash.args, vec!["-c".to_string()]);
    let ps = BinCommand::from_preset("powershell");
    assert_eq!(ps.bin, "powershell");
    assert_eq!(ps.args, vec!["-Command".to_string()]);
    let unknown = BinCommand::from_preset("zsh");
    assert_eq!(unknown.bin, "sh");
}

#[test]
fn bin_command_follows_the_platform_name() {
    assert_eq!(BinCommand::from_os("windows").bin, "powershell");
    assert_eq!(BinCommand::from_os("linux").bin, "sh");
    assert_eq!(BinCommand::from_os("macos").bin, "sh");
}

#[test]
fn process_builders_set_each_field() {
    let process = Process::new("db".to_string())
        .command("run.sh".to_string())
        .cwd("/srv/db".to_string())
        .log_monitors(vec!["m".to_string()])
        .onfail(Some("heal".to_string()))
        .onsucceed(Some("arpx_exit".to_string()));
    assert_eq!(process.name, "db");
    assert_eq!(process.command, "run.sh");
    assert_eq!(process.cwd, "/srv/db");
    assert_eq!(process.log_monitors, vec!["m".to_string()]);
    assert_eq!(process.onfail, Some("heal".to_string()));
    assert_eq!(process.onsucceed, Some("arpx_exit".to_string()));
}

#[test]
fn log_monitor_builders_set_each_field() {
    let monitor = LogMonitor::new("watch".to_string())
        .buffer_size(2)
        .ontrigger("heal".to_string())
        .test("grep hi".to_string());
    assert_eq!(monitor.name, "watch");
    assert_eq!(monitor.buffer_size, 2);
    assert_eq!(monitor.buffer.size, 2);
    assert_eq!(monitor.ontrigger, "heal");
    assert_eq!(monitor.test, "grep hi");
}

#[test]
fn runtime_builders_fill_the_context() {
    let runtime = Runtime::new()
        .process_map(vec![Process::new("p".to_string())])
        .log_monitor_map(vec![LogMonitor::new("m".to_string())])
        .bin_command(BinCommand::new("sh".to_string(), vec!["-c".to_string()]));
    assert_eq!(runtime.ctx.process_map.len(), 1);
    assert_eq!(runtime.ctx.log_monitor_map.len(), 1);
    assert_eq!(runtime.ctx.bin_command.bin, "sh");
    assert!(runtime.jobs.is_empty());
}

#[test]
fn messages_default_to_empty_commands() {
    let msg = LogMonitorMessage::new();
    assert!(matches!(msg.cmd, LogMonitorCmd::Empty));
    assert_eq!(msg.message, "Empty message.");
    let msg = msg.cmd(LogMonitorCmd::Log).message("line".to_string());
    assert!(matches!(msg.cmd, LogMonitorCmd::Log));
    assert_eq!(msg.message, "line");
    let up = UplinkMessage::new().cmd(Cmd::Action).message("go".to_string());
    assert!(matches!(up.cmd, Cmd::Action));
    assert_eq!(up.message, "go");
}

#[test]
fn annotated_messages_carry_their_annotation() {
    assert_eq!(AnnotatedMessage::new("p1", "hello"), "[p1] hello");
}

#[test]
fn logging_patterns_are_stable() {
    assert_eq!(Patterns::Console.as_str(), "[{h({T})}] {m}{n}");
    assert_eq!(Patterns::Debug.as_str(), "{d} {l} {f}, line {L}: [{T} \\({I}\\)] {m}{n}");
    assert_eq!(Patterns::File.as_str(), "{d} | {l} | {T} \\({I}\\) > {m}{n}");
}

#[test]
fn errors_keep_their_detail() {
    let error = profile_not_found("arpx.yaml".to_string());
    assert_eq!(error.description(), "arpx.yaml");
    assert!(matches!(error.kind(), ArpxErrorEnum::ProfileNotFound(_)));

    let error = arpx::error::profile_parse_error("bad yaml".to_string());
    assert_eq!(error.description(), "bad yaml");
    assert!(matches!(error.kind(), ArpxErrorEnum::ProfileParseError(_)));

    let error = arpx::error::internal_error("oops".to_string());
    assert_eq!(error.description(), "oops");
    assert!(matches!(error.kind(), ArpxErrorEnum::InternalError(_)));

    let error = arpx::error::invalid_configuration("bad ref".to_string());
    assert_eq!(error.description(), "bad ref");
    assert!(matches!(error.kind(), ArpxErrorEnum::InvalidConfiguration(_)));
}

#[test]
fn decimal_rendering_matches_std() {
    for n in [0usize, 1, 9, 10, 42, 199, 1000, usize::MAX] {
        assert_eq!(usize_to_string(n), n.to_string());
    }
}

#[test]
fn defaults_match_the_deserializer_contract() {
    assert_eq!(defaults::cwd(), ".");
    assert_eq!(defaults::string(), "");
    assert!(defaults::string_vec().is_empty());
    assert_eq!(defaults::buffer_size(), 20);
    assert!(defaults::jobs().is_empty());
    assert!(defaults::processes().is_empty());
    assert!(defaults::log_monitors().is_empty());
}
