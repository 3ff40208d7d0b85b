use fccore::{
    parse_command, render_path, Axes, Command, Config, ConfigError, FCConfig, FCCore, Log,
    MotorID, MotorTargets, Reply, SensorSnapshot, Switch, LOG_CAPACITY, MOTOR_TEST_STEPS,
};

const ALL_MOTORS: [MotorID; 4] =
    [MotorID::FrontLeft, MotorID::FrontRight, MotorID::BackLeft, MotorID::BackRight];

fn config(use_switch: bool, disabled_return_value: bool) -> Config {
    Config {
        fc_webserve_enabled: true,
        fc_webserve_port: 8080,
        status_pin: 3,
        arm_switch: Switch { use_switch, disabled_return_value, pin: 4 },
    }
}

fn path(items: &[&str]) -> Vec<String> {
    items.iter().map(|s| s.to_string()).collect()
}

fn reading(a: i32, g: i32) -> SensorSnapshot {
    SensorSnapshot { acc: Axes { x: a, y: a + 1, z: a + 2 }, gyro: Axes { x: g, y: g + 1, z: g + 2 } }
}

fn targets(v: u64) -> MotorTargets {
    MotorTargets { front_left: v, front_right: v, back_left: v, back_right: v }
}

fn powers(core: &FCCore) -> Vec<u8> {
    ALL_MOTORS.iter().map(|id| core.motors().motor(*id).current_power()).collect()
}

#[test]
fn armed_follows_switch_and_command() {
    for use_switch in [false, true] {
        for disabled in [false, true] {
            for live in [false, true] {
                for cmd in [false, true] {
                    let mut core = FCCore::new(config(use_switch, disabled));
                    core.set_switch_input(live);
                    core.set_armed_command(cmd);
                    let reading = if use_switch { live } else { disabled };
                    assert_eq!(core.armed_switch(), reading);
                    assert_eq!(core.armed_cmd(), cmd);
                    assert_eq!(core.armed(), reading && cmd);
                }
            }
        }
    }
}

#[test]
fn set_power_clamps() {
    let mut core = FCCore::new(config(false, true));
    for (input, expected) in [(0u64, 0u8), (1, 1), (50, 50), (100, 100), (101, 100), (1000, 100), (u64::MAX, 100)] {
        core.set_motor_power(MotorID::BackLeft, input);
        assert_eq!(core.motors().motor(MotorID::BackLeft).current_power(), expected);
    }
}

#[test]
fn set_power_leaves_other_motors() {
    let mut core = FCCore::new(config(false, true));
    core.set_motor_power(MotorID::FrontLeft, 10);
    core.set_motor_power(MotorID::FrontRight, 20);
    core.set_motor_power(MotorID::BackLeft, 30);
    core.set_motor_power(MotorID::BackRight, 40);
    core.set_motor_power(MotorID::FrontRight, 70);
    assert_eq!(powers(&core), vec![10, 70, 30, 40]);
    assert_eq!(core.motors().motor(MotorID::BackRight).id, MotorID::BackRight);
}

#[test]
fn arm_command_twice_is_once() {
    let mut once = FCCore::new(config(false, true));
    once.set_armed_command(true);
    let mut twice = FCCore::new(config(false, true));
    twice.set_armed_command(true);
    twice.set_armed_command(true);
    assert_eq!(once.armed_cmd(), twice.armed_cmd());
    assert_eq!(once.armed(), twice.armed());
    assert_eq!(once.status_report(), twice.status_report());
    assert_eq!(once.log().dump(), twice.log().dump());
}

#[test]
fn log_lists_entries_in_order() {
    let mut log = Log::new();
    assert_eq!(log.dump(), "");
    log.add("a", "first");
    log.add("b", "second");
    log.add("a", "third");
    assert_eq!(log.dump(), "[0] a: first\n[1] b: second\n[2] a: third\n");
    let seqs: Vec<u64> = log.entries().iter().map(|e| e.sequence).collect();
    assert_eq!(seqs, vec![0, 1, 2]);
}

#[test]
fn log_drops_messages_when_full() {
    let mut log = Log::new();
    for _ in 0..LOG_CAPACITY {
        log.add("t", "m");
    }
    assert_eq!(log.entries().len(), LOG_CAPACITY);
    log.add("t", "late");
    assert_eq!(log.entries().len(), LOG_CAPACITY);
    assert_eq!(log.entries()[LOG_CAPACITY - 1].message, "m");
    assert_eq!(log.entries()[LOG_CAPACITY - 1].sequence, (LOG_CAPACITY - 1) as u64);
}

#[test]
fn disarmed_cycle_stops_motors() {
    let mut core = FCCore::new(config(false, true));
    core.set_motor_power(MotorID::FrontLeft, 60);
    core.set_motor_power(MotorID::BackRight, 60);
    assert!(FCCore::fccore_thread_loop(&mut core, Some(reading(1, 2)), false, targets(80)));
    assert!(!core.armed());
    assert_eq!(powers(&core), vec![0, 0, 0, 0]);
    assert_eq!(core.sensors().read(), (reading(1, 2).acc, reading(1, 2).gyro));
}

#[test]
fn armed_cycle_applies_clamped_targets() {
    let mut core = FCCore::new(config(true, false));
    core.set_armed_command(true);
    let t = MotorTargets { front_left: 10, front_right: 200, back_left: 0, back_right: 100 };
    assert!(FCCore::fccore_thread_loop(&mut core, Some(reading(5, 6)), true, t));
    assert!(core.armed());
    assert_eq!(powers(&core), vec![10, 100, 0, 100]);
    assert_eq!(core.log().entries().len(), 0);
}

#[test]
fn switch_released_mid_flight_stops_motors() {
    let mut core = FCCore::new(config(true, false));
    core.set_armed_command(true);
    FCCore::fccore_thread_loop(&mut core, Some(reading(0, 0)), true, targets(50));
    assert_eq!(powers(&core), vec![50, 50, 50, 50]);
    FCCore::fccore_thread_loop(&mut core, Some(reading(0, 0)), false, targets(50));
    assert!(!core.armed());
    assert_eq!(powers(&core), vec![0, 0, 0, 0]);
}

#[test]
fn sensor_failure_holds_snapshot_and_stops_motors() {
    let mut core = FCCore::new(config(false, true));
    core.set_armed_command(true);
    FCCore::fccore_thread_loop(&mut core, Some(reading(7, 8)), false, targets(40));
    assert_eq!(powers(&core), vec![40, 40, 40, 40]);
    assert!(FCCore::fccore_thread_loop(&mut core, None, false, targets(40)));
    assert_eq!(powers(&core), vec![0, 0, 0, 0]);
    assert_eq!(*core.sensors(), reading(7, 8));
    assert_eq!(core.log().dump(), "[0] fccore: sensor read failed\n");
}

#[test]
fn cycle_after_kill_stops_the_loop() {
    let mut core = FCCore::new(config(false, true));
    let r = core.page_handler(&path(&["kill"]));
    assert!(matches!(r, Reply::Done));
    assert!(!core.alive);
    core.set_motor_power(MotorID::FrontLeft, 30);
    assert!(!FCCore::fccore_thread_loop(&mut core, Some(reading(1, 1)), false, targets(0)));
    assert_eq!(powers(&core), vec![30, 0, 0, 0]);
    assert_eq!(core.log().dump(), "[0] webserve: Request: /kill\n[1] webserve: kill core network request\n");
}

#[test]
fn arm_then_disarm_without_switch() {
    let mut core = FCCore::new(config(false, true));
    assert!(matches!(core.page_handler(&path(&["arm"])), Reply::Done));
    assert!(core.armed());
    FCCore::fccore_thread_loop(&mut core, Some(reading(0, 0)), false, targets(70));
    assert_eq!(powers(&core), vec![70, 70, 70, 70]);
    assert!(matches!(core.page_handler(&path(&["disarm"])), Reply::Done));
    assert!(!core.armed());
    FCCore::fccore_thread_loop(&mut core, Some(reading(0, 0)), false, targets(70));
    assert_eq!(powers(&core), vec![0, 0, 0, 0]);
}

#[test]
fn arm_refused_while_switch_off() {
    let mut core = FCCore::new(config(true, true));
    core.set_switch_input(false);
    assert!(matches!(core.page_handler(&path(&["arm"])), Reply::Done));
    assert!(core.armed_cmd());
    assert!(!core.armed());
    FCCore::fccore_thread_loop(&mut core, Some(reading(0, 0)), false, targets(90));
    assert!(!core.armed());
    assert_eq!(powers(&core), vec![0, 0, 0, 0]);
}

#[test]
fn motor_test_ramps_front_left_only() {
    let mut core = FCCore::new(config(false, true));
    core.set_motor_power(MotorID::FrontRight, 11);
    core.set_motor_power(MotorID::BackLeft, 12);
    core.set_motor_power(MotorID::BackRight, 13);
    assert!(matches!(core.page_handler(&path(&["motor_test"])), Reply::MotorTest));
    let mut seen = Vec::new();
    for step in 0..MOTOR_TEST_STEPS {
        core.motor_test_step(step);
        seen.push(core.motors().motor(MotorID::FrontLeft).current_power());
        assert_eq!(powers(&core)[1..].to_vec(), vec![11, 12, 13]);
    }
    assert_eq!(seen, vec![25, 50, 75, 100, 0]);
}

#[test]
fn commands_by_name() {
    assert_eq!(parse_command(&path(&["arm"])), Command::Arm);
    assert_eq!(parse_command(&path(&["disarm"])), Command::Disarm);
    assert_eq!(parse_command(&path(&["kill"])), Command::Kill);
    assert_eq!(parse_command(&path(&["log"])), Command::Log);
    assert_eq!(parse_command(&path(&["config"])), Command::Config);
    assert_eq!(parse_command(&path(&["motor_test", "x"])), Command::MotorTest);
    assert_eq!(parse_command(&path(&["status"])), Command::Status);
    assert_eq!(parse_command(&path(&["armed"])), Command::Status);
    assert_eq!(parse_command(&path(&["ar"])), Command::Status);
    assert_eq!(parse_command(&path(&[])), Command::Unknown);
}

#[test]
fn empty_path_is_not_found() {
    let mut core = FCCore::new(config(false, true));
    assert!(matches!(core.page_handler(&path(&[])), Reply::NotFound));
    assert_eq!(core.log().dump(), "[0] webserve: Request: \n");
}

#[test]
fn request_path_rendering() {
    assert_eq!(render_path(&path(&[])), "");
    assert_eq!(render_path(&path(&["a"])), "/a");
    assert_eq!(render_path(&path(&["status", "x", "y"])), "/status/x/y");
}

#[test]
fn status_page_renders_one_state() {
    let mut core = FCCore::new(config(true, false));
    core.set_armed_command(true);
    let snap = SensorSnapshot { acc: Axes { x: -12, y: 0, z: 981 }, gyro: Axes { x: 3, y: -2147483648, z: 2147483647 } };
    FCCore::fccore_thread_loop(&mut core, Some(snap), true, targets(42));
    let expected = "<html><head><title>Status</title><body><b>STATUS PAGE</b><br/>ALIVE: true<br/>\
ACC: (-12, 0, 981)<br/>GYR: (3, -2147483648, 2147483647)<br/>\
MOTOR FL: 42<br/>MOTOR FR: 42<br/>MOTOR BL: 42<br/>MOTOR BR: 42<br/>\
ARM_SAFETY: true<br/>ARM_COMMAND: true<br/>FULLY ARMED: true<br/></body></html>";
    assert_eq!(core.status_report(), expected);
    match core.page_handler(&path(&["unknown_name"])) {
        Reply::Page(text) => assert_eq!(text, expected),
        _ => panic!("status page expected"),
    }
    assert_eq!(
        core.log().dump(),
        "[0] webserve: Request: /unknown_name\n[1] webserve: serving status request\n"
    );
}

#[test]
fn status_page_of_new_core() {
    let core = FCCore::new(config(false, false));
    assert_eq!(
        core.status_report(),
        "<html><head><title>Status</title><body><b>STATUS PAGE</b><br/>ALIVE: true<br/>\
ACC: (0, 0, 0)<br/>GYR: (0, 0, 0)<br/>\
MOTOR FL: 0<br/>MOTOR FR: 0<br/>MOTOR BL: 0<br/>MOTOR BR: 0<br/>\
ARM_SAFETY: false<br/>ARM_COMMAND: false<br/>FULLY ARMED: false<br/></body></html>"
    );
}

#[test]
fn log_and_config_commands() {
    let mut core = FCCore::new(config(false, true));
    assert!(matches!(core.handle_command(Command::Config), Reply::ConfigText));
    match core.handle_command(Command::Log) {
        Reply::Page(text) => assert_eq!(text, "[0] webserve: serving get config request\n"),
        _ => panic!("log page expected"),
    }
    assert_eq!(core.log().entries().len(), 1);
    assert!(matches!(core.handle_command(Command::Unknown), Reply::NotFound));
    assert_eq!(core.log().entries().len(), 1);
}

#[test]
fn config_port_rule() {
    assert_eq!(config(false, true).checked(), Ok(config(false, true)));
    let mut c = config(false, true);
    c.fc_webserve_port = 0;
    assert_eq!(c.checked(), Err(ConfigError::ConfigDecodeError));
    c.fc_webserve_port = 70000;
    assert_eq!(c.checked(), Err(ConfigError::ConfigDecodeError));
    c.fc_webserve_enabled = false;
    assert!(c.is_valid());
    assert_eq!(c.checked(), Ok(c));
}

#[test]
fn flat_config_from_loaded_config() {
    let c = FCConfig::new(&config(true, false));
    assert_eq!((c.fc_serve_port, c.status_pin, c.arm_switch_pin), (8080, 3, 4));
}

#[test]
fn empty_segment_asks_for_status() {
    let mut core = FCCore::new(config(false, true));
    assert!(matches!(core.page_handler(&path(&[""])), Reply::Page(_)));
    assert_eq!(core.log().dump(), "[0] webserve: Request: /\n[1] webserve: serving status request\n");
}

#[test]
fn sensor_snapshot_replaced_whole() {
    let mut s = SensorSnapshot::new();
    assert_eq!(s.read(), (Axes { x: 0, y: 0, z: 0 }, Axes { x: 0, y: 0, z: 0 }));
    s.replace(Axes { x: 1, y: 2, z: 3 }, Axes { x: -4, y: -5, z: -6 });
    assert_eq!(s.read(), (Axes { x: 1, y: 2, z: 3 }, Axes { x: -4, y: -5, z: -6 }));
}
