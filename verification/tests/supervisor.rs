use server_supervisor::supervisor::{Phase, Supervisor};

#[test]
fn fresh_supervisor_has_no_port_and_no_pid() {
    let sup = Supervisor::new();
    let info = sup.get_server_info();
    assert_eq!(info.port, None);
    assert_eq!(info.pid, None);
}

#[test]
fn api_url_before_discovery_is_the_fallback() {
    let sup = Supervisor::new();
    assert_eq!(sup.get_api_url(), "http://localhost:5000");
    assert_eq!(sup.get_api_url(), "http://localhost:5000");
}

#[test]
fn info_after_spawn_has_pid_but_no_port() {
    let mut sup = Supervisor::new();
    sup.begin_start();
    sup.on_spawned(4321);
    let info = sup.get_server_info();
    assert_eq!(info.port, None);
    assert_eq!(info.pid, Some(4321));
}

#[test]
fn discovery_publishes_port_and_emits_ready_once() {
    let mut sup = Supervisor::new();
    sup.begin_start();
    sup.on_spawned(4321);
    assert_eq!(sup.handle_stdout_line("starting up"), None);
    assert_eq!(sup.handle_stdout_line("SERVER_PORT:8080"), Some(8080));
    let info = sup.get_server_info();
    assert_eq!(info.port, Some(8080));
    assert_eq!(info.pid, Some(4321));
    // A later announcement neither re-fires the event nor moves the port.
    assert_eq!(sup.handle_stdout_line("SERVER_PORT:9090"), None);
    assert_eq!(sup.get_port(), Some(8080));
}

#[test]
fn api_url_after_discovery_embeds_the_port() {
    let mut sup = Supervisor::new();
    sup.begin_start();
    sup.on_spawned(7);
    sup.handle_stdout_line("SERVER_PORT:49152");
    assert_eq!(sup.get_api_url(), "http://localhost:49152");
    assert_eq!(sup.get_api_url(), "http://localhost:49152");
}

#[test]
fn malformed_announcements_change_nothing() {
    let mut sup = Supervisor::new();
    sup.begin_start();
    sup.on_spawned(7);
    assert_eq!(sup.handle_stdout_line("SERVER_PORT:"), None);
    assert_eq!(sup.handle_stdout_line("SERVER_PORT:no"), None);
    assert_eq!(sup.handle_stdout_line("SERVER_PORT:65536"), None);
    assert_eq!(sup.get_port(), None);
    assert_eq!(sup.get_api_url(), "http://localhost:5000");
    // Scanning went on: a later good line still wins.
    assert_eq!(sup.handle_stdout_line("SERVER_PORT:80"), Some(80));
    assert_eq!(sup.get_port(), Some(80));
}

#[test]
fn stop_clears_pid_and_keeps_port() {
    let mut sup = Supervisor::new();
    sup.begin_start();
    sup.on_spawned(99);
    sup.handle_stdout_line("SERVER_PORT:1234");
    sup.stop();
    let info = sup.get_server_info();
    assert_eq!(info.pid, None);
    assert_eq!(info.port, Some(1234));
    assert_eq!(sup.phase, Phase::Stopped);
}

#[test]
fn stop_twice_is_idempotent() {
    let mut sup = Supervisor::new();
    sup.begin_start();
    sup.on_spawned(99);
    sup.stop();
    let first = sup.get_server_info();
    sup.stop();
    let second = sup.get_server_info();
    assert_eq!(first, second);
    assert_eq!(sup.phase, Phase::Stopped);
}

#[test]
fn stop_when_never_started_is_a_no_op() {
    let mut sup = Supervisor::new();
    sup.stop();
    let info = sup.get_server_info();
    assert_eq!(info.pid, None);
    assert_eq!(info.port, None);
    sup.stop();
    assert_eq!(sup.get_server_info(), info);
}

#[test]
fn single_digit_port_renders_exactly() {
    let mut sup = Supervisor::new();
    sup.begin_start();
    sup.on_spawned(1);
    assert_eq!(sup.handle_stdout_line("SERVER_PORT:1"), Some(1));
    assert_eq!(sup.get_api_url(), "http://localhost:1");
}

#[test]
fn largest_port_renders_exactly() {
    let mut sup = Supervisor::new();
    sup.begin_start();
    sup.on_spawned(1);
    assert_eq!(sup.handle_stdout_line("SERVER_PORT:65535"), Some(65535));
    assert_eq!(sup.get_api_url(), "http://localhost:65535");
}
