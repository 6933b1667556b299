use watchmymcserver::clock::LocalStamp;
use watchmymcserver::Config;
use watchmymcserver::MinecraftServer;
use watchmymcserver::MinecraftServerManager;
use watchmymcserver::Server;
use watchmymcserver::ServerError;
use watchmymcserver::ServerManagerEvent;
use watchmymcserver::SupervisorAction;
use watchmymcserver::SupervisorState;

fn sample_config() -> Config {
    Config {
        java: String::from("/usr/local/bin/java"),
        quiet: false,
        server: Server {
            base: String::from("/var/minecraft/server"),
            jar: String::from("/var/minecraft/softwares/paper.jar"),
            log: String::from("/var/log/wmms.log"),
            stdin: String::from("/tmp/wmms_stdin"),
            on: String::from("8:00"),
            off: String::from("21:06"),
            max_heap_size: 4000,
            soft_max_heap_size: 3000,
            extra_args: vec![
                String::from("-XX:+UnlockExperimentalVMOptions"),
                String::from("-XX:+UseZGC"),
            ],
        },
    }
}

fn build() -> (MinecraftServerManager, MinecraftServer) {
    MinecraftServerManager::new(sample_config(), true, true).ok().unwrap()
}

fn stamp_at(hour: u8, minute: u8, second: u8) -> LocalStamp {
    LocalStamp { year: 2024, month: 1, day: 2, hour, minute, second }
}

#[test]
fn one_start_when_clock_matches_on_mark() {
    let (mut manager, mut server) = build();
    let event = manager.window().tick(8, 0);
    assert_eq!(event, ServerManagerEvent::ServerOn);
    let action = manager.handle_event(&event);
    assert_eq!(action, SupervisorAction::SpawnStart);
    manager.worker_spawned();
    let line = server.on_start(&stamp_at(8, 0, 0));
    assert_eq!(line, "[WATCHMYMCSERVER LOG 2024-01-02 08:00:00] starting server\n");
    assert!(server.started());
}

#[test]
fn five_polls_in_one_minute_spawn_once() {
    let (mut manager, _server) = build();
    let mut spawns = 0;
    for _ in 0..5 {
        let event = manager.window().tick(8, 0);
        assert_eq!(event, ServerManagerEvent::ServerOn);
        let action = manager.handle_event(&event);
        if action == SupervisorAction::SpawnStart {
            spawns += 1;
            manager.worker_spawned();
        } else {
            assert_eq!(action, SupervisorAction::DoNothing);
        }
    }
    assert_eq!(spawns, 1);
}

#[test]
fn server_on_while_running_changes_nothing() {
    let (mut manager, mut server) = build();
    let first = manager.handle_event(&ServerManagerEvent::ServerOn);
    assert_eq!(first, SupervisorAction::SpawnStart);
    manager.worker_spawned();
    let start_line = server.on_start(&stamp_at(8, 0, 0));
    let again = manager.handle_event(&ServerManagerEvent::ServerOn);
    assert_eq!(again, SupervisorAction::DoNothing);
    assert_eq!(manager.state(), SupervisorState::Running);
    // No second start is handed out, so the one start line stays alone.
    assert_eq!(start_line.matches("starting server").count(), 1);
}

#[test]
fn server_off_while_idle_is_a_no_op() {
    let (mut manager, _server) = build();
    assert_eq!(manager.state(), SupervisorState::Idle);
    let action = manager.handle_event(&ServerManagerEvent::ServerOff);
    assert_eq!(action, SupervisorAction::DoNothing);
    assert_eq!(manager.state(), SupervisorState::Idle);
}

#[test]
fn stop_writes_exactly_stop_whatever_the_state() {
    let (_manager, mut server) = build();
    // Never started.
    let payload = server.stop();
    assert_eq!(payload, b"stop".to_vec());
    // Started, then stopped.
    let _ = server.on_start(&stamp_at(8, 0, 0));
    assert!(server.started());
    let payload = server.stop();
    assert_eq!(payload, b"stop".to_vec());
    assert!(!server.started());
}

#[test]
fn run_logs_start_output_exit_in_order() {
    let (mut manager, mut server) = build();
    let action = manager.handle_event(&ServerManagerEvent::ServerOn);
    assert_eq!(action, SupervisorAction::SpawnStart);
    manager.worker_spawned();
    let mut log = String::new();
    log.push_str(&server.on_start(&stamp_at(8, 0, 0)));
    log.push_str(&server.on_output(&stamp_at(8, 0, 1), "Loading libraries"));
    log.push_str(&server.on_exit(&stamp_at(8, 0, 2)));
    manager.worker_finished();
    assert_eq!(manager.state(), SupervisorState::Idle);
    assert!(!server.started());
    let starting = log.find("starting server").unwrap();
    let output = log.find("Loading libraries").unwrap();
    let exited = log.find("server exited").unwrap();
    assert!(starting < output && output < exited);
}

#[test]
fn immediate_exit_logs_start_then_exit() {
    let (_manager, mut server) = build();
    let mut log = String::new();
    log.push_str(&server.on_start(&stamp_at(8, 0, 0)));
    log.push_str(&server.on_exit(&stamp_at(8, 0, 0)));
    assert_eq!(
        log,
        "[WATCHMYMCSERVER LOG 2024-01-02 08:00:00] starting server\n\
         [WATCHMYMCSERVER LOG 2024-01-02 08:00:00] server exited\n"
    );
}

#[test]
fn interrupt_while_running_stops_once_and_ends_watching() {
    let (mut manager, mut server) = build();
    let action = manager.handle_event(&ServerManagerEvent::ServerOn);
    assert_eq!(action, SupervisorAction::SpawnStart);
    manager.worker_spawned();
    let _ = server.on_start(&stamp_at(8, 0, 0));
    assert!(manager.watching());
    let action = manager.handle_event(&ServerManagerEvent::StopWatching);
    assert_eq!(action, SupervisorAction::StopServer);
    assert!(!manager.watching());
    let payload = server.stop();
    assert_eq!(payload, b"stop".to_vec());
    manager.worker_finished();
    assert_eq!(manager.state(), SupervisorState::Idle);
    // A later interrupt has nothing left to stop.
    let action = manager.handle_event(&ServerManagerEvent::StopWatching);
    assert_eq!(action, SupervisorAction::DoNothing);
}

#[test]
fn missing_executable_fails_with_not_found_naming_it() {
    let result = MinecraftServerManager::new(sample_config(), false, true);
    match result {
        Err(ServerError::NotFound { path }) => assert_eq!(path, "/usr/local/bin/java"),
        _ => panic!("expected a NotFound error for the executable"),
    }
}

#[test]
fn missing_artifact_fails_with_not_found_naming_it() {
    let result = MinecraftServerManager::new(sample_config(), true, false);
    match result {
        Err(ServerError::NotFound { path }) => {
            assert_eq!(path, "/var/minecraft/softwares/paper.jar")
        }
        _ => panic!("expected a NotFound error for the artifact"),
    }
}

#[test]
fn malformed_on_mark_fails_with_schedule_parse() {
    let mut config = sample_config();
    config.server.on = String::from("25:00");
    match MinecraftServerManager::new(config, true, true) {
        Err(ServerError::ScheduleParse { input }) => assert_eq!(input, "25:00"),
        _ => panic!("expected a ScheduleParse error for the on mark"),
    }
}

#[test]
fn malformed_off_mark_fails_with_schedule_parse() {
    let mut config = sample_config();
    config.server.off = String::from("nine");
    match MinecraftServerManager::new(config, true, true) {
        Err(ServerError::ScheduleParse { input }) => assert_eq!(input, "nine"),
        _ => panic!("expected a ScheduleParse error for the off mark"),
    }
}

#[test]
fn equal_marks_fail_with_schedule_conflict() {
    let mut config = sample_config();
    config.server.off = String::from("08:00");
    match MinecraftServerManager::new(config, true, true) {
        Err(ServerError::ScheduleConflict) => {}
        _ => panic!("expected a ScheduleConflict error for equal marks"),
    }
}

#[test]
fn launch_arguments_exact_order() {
    let (_manager, server) = build();
    let args = server.launch_args();
    assert_eq!(
        args,
        vec![
            String::from("-jar"),
            String::from("-Xmx4000M"),
            String::from("-XX:SoftMaxHeapSize=3000M"),
            String::from("-Xms1000M"),
            String::from("-XX:+UnlockExperimentalVMOptions"),
            String::from("-XX:+UseZGC"),
            String::from("/var/minecraft/softwares/paper.jar"),
            String::from("nogui"),
        ]
    );
}
