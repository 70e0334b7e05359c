use arpx::log_monitor::MonitorDirective;
use arpx::message::LogMonitorCmd;
use arpx::message::LogMonitorMessage;
use arpx::task::monitor_instances;
use arpx::Ctx;
use arpx::LogMonitor;
use arpx::Process;

#[test]
fn each_pushed_line_asks_for_one_test_run() {
    let mut monitor = LogMonitor::new("m".to_string()).buffer_size(2).test("true".to_string());
    let log = LogMonitorMessage::new().cmd(LogMonitorCmd::Log).message("hello".to_string());
    match monitor.handle_message(&log) {
        MonitorDirective::RunTest(dump) => assert_eq!(dump, "hello"),
        other => panic!("unexpected directive: {:?}", other),
    }
    let log2 = LogMonitorMessage::new().cmd(LogMonitorCmd::Log).message("world".to_string());
    match monitor.handle_message(&log2) {
        MonitorDirective::RunTest(dump) => assert_eq!(dump, "hello\nworld"),
        other => panic!("unexpected directive: {:?}", other),
    }
}

#[test]
fn the_window_rolls_when_full() {
    let mut monitor = LogMonitor::new("m".to_string()).buffer_size(2);
    for line in ["a", "b", "c"] {
        let msg = LogMonitorMessage::new().cmd(LogMonitorCmd::Log).message(line.to_string());
        monitor.handle_message(&msg);
    }
    assert_eq!(monitor.buffer.lines, vec!["b".to_string(), "c".to_string()]);
}

#[test]
fn close_stops_the_loop_without_touching_the_buffer() {
    let mut monitor = LogMonitor::new("m".to_string());
    let log = LogMonitorMessage::new().cmd(LogMonitorCmd::Log).message("kept".to_string());
    monitor.handle_message(&log);
    let close = LogMonitorMessage::new().cmd(LogMonitorCmd::Close);
    assert!(matches!(monitor.handle_message(&close), MonitorDirective::Stop));
    assert_eq!(monitor.buffer.lines, vec!["kept".to_string()]);
}

#[test]
fn empty_messages_do_nothing() {
    let mut monitor = LogMonitor::new("m".to_string());
    assert!(matches!(
        monitor.handle_message(&LogMonitorMessage::new()),
        MonitorDirective::Idle
    ));
    assert!(monitor.buffer.lines.is_empty());
}

#[test]
fn instances_are_fresh_per_occurrence() {
    let mut registered = LogMonitor::new("m".to_string()).buffer_size(3).test("true".to_string());
    let seed = LogMonitorMessage::new().cmd(LogMonitorCmd::Log).message("old".to_string());
    registered.handle_message(&seed);
    let mut ctx = Ctx::new();
    ctx.log_monitor_map = vec![registered];
    ctx.process_map = vec![Process::new("p".to_string())];
    let process = Process::new("p".to_string())
        .log_monitors(vec!["m".to_string(), "m".to_string()]);
    let instances = monitor_instances(&process, &ctx).expect("all names registered");
    assert_eq!(instances.len(), 2);
    for instance in &instances {
        assert_eq!(instance.name, "m");
        assert_eq!(instance.buffer_size, 3);
        assert!(instance.buffer.lines.is_empty());
    }
}

#[test]
fn unregistered_monitor_name_yields_nothing() {
    let ctx = Ctx::new();
    let process = Process::new("p".to_string()).log_monitors(vec!["ghost".to_string()]);
    assert!(monitor_instances(&process, &ctx).is_none());
}
