use minicl::startup::{build_options, Progress};
use minicl::{Command, Error, Reply, Stage, Startup, Step};

fn status(status: i32) -> Reply {
    Reply { status, value: 0, handles: vec![], text: String::new() }
}

fn value(value: usize) -> Reply {
    Reply { status: 0, value, handles: vec![], text: String::new() }
}

fn handles(handles: Vec<usize>) -> Reply {
    Reply { status: 0, value: 0, handles, text: String::new() }
}

fn text(text: &str) -> Reply {
    Reply { status: 0, value: 0, handles: vec![], text: text.to_string() }
}

fn issued(step: Step) -> Command {
    match step {
        Step::Issue(c) => c,
        other => panic!("expected a call, got {:?}", other),
    }
}

fn failed(step: Step) -> (Error, Vec<Command>) {
    match step {
        Step::Failed { error, cleanup } => (error, cleanup),
        other => panic!("expected a failure, got {:?}", other),
    }
}

/// Runs a startup on platform 1 of 2 up to the call of the given stage.
fn up_to(stage: Stage) -> Startup {
    let (mut s, _) = Startup::begin(1);
    let replies = vec![
        value(2),
        handles(vec![0x70, 0x71]),
        value(7),
        text("Vendor"),
        value(0x20),
        value(0x10),
        value(0x40),
        value(0x30),
        status(0),
        value(12),
    ];
    for r in replies {
        if s.progress().stage == stage {
            break;
        }
        issued(s.advance(r));
    }
    assert_eq!(s.progress().stage, stage);
    s
}

#[test]
fn begins_by_counting_platforms() {
    let (s, first) = Startup::begin(3);
    assert_eq!(first, Command::CountPlatforms);
    assert_eq!(
        s.progress(),
        Progress {
            stage: Stage::CountPlatforms,
            selector: 3,
            platform: 0,
            device: 0,
            context: 0,
            queue: 0,
            program: 0,
            build_status: 0
        }
    );
}

#[test]
fn full_run_issues_every_call_in_order() {
    let (mut s, _) = Startup::begin(1);
    assert_eq!(issued(s.advance(value(2))), Command::ListPlatforms { count: 2 });
    assert_eq!(
        issued(s.advance(handles(vec![0x70, 0x71]))),
        Command::VendorSize { platform: 0x71 }
    );
    assert_eq!(
        issued(s.advance(value(7))),
        Command::VendorName { platform: 0x71, size: 7 }
    );
    assert_eq!(
        issued(s.advance(text("Vendor"))),
        Command::FindDevice { platform: 0x71, device_types: 6 }
    );
    assert_eq!(issued(s.advance(value(0x20))), Command::CreateContext { device: 0x20 });
    assert_eq!(
        issued(s.advance(value(0x10))),
        Command::CreateQueue { context: 0x10, device: 0x20, properties: 2 }
    );
    assert_eq!(issued(s.advance(value(0x40))), Command::CreateProgram { context: 0x10 });
    assert_eq!(
        issued(s.advance(value(0x30))),
        Command::BuildProgram { program: 0x30, device: 0x20 }
    );
    assert_eq!(
        issued(s.advance(status(0))),
        Command::BuildLogSize { program: 0x30, device: 0x20 }
    );
    assert_eq!(
        issued(s.advance(value(12))),
        Command::BuildLog { program: 0x30, device: 0x20, size: 12 }
    );
    match s.advance(text("build fine\n")) {
        Step::Ready { dev, log } => {
            assert_eq!(log, "build fine\n");
            assert!(dev.is_live());
            assert_eq!(dev.context(), 0x10);
            assert_eq!(dev.device(), 0x20);
            assert_eq!(dev.program(), 0x30);
            assert_eq!(dev.queue(), 0x40);
            assert_eq!(dev.kernel_count(), 0);
            assert_eq!(dev.buffer_count(), 0);
        }
        other => panic!("expected the context, got {:?}", other),
    }
    assert_eq!(s.progress().stage, Stage::Done);
}

#[test]
fn compiled_with_warnings_off() {
    assert_eq!(build_options(), "-w");
}

#[test]
fn selector_out_of_range_means_no_device() {
    let (mut s, _) = Startup::begin(2);
    assert_eq!(failed(s.advance(value(2))), (Error::DeviceUnavailable, vec![]));
    assert_eq!(s.progress().stage, Stage::Done);
    let (mut s, _) = Startup::begin(0);
    assert_eq!(failed(s.advance(value(0))), (Error::DeviceUnavailable, vec![]));
}

#[test]
fn more_than_ten_platforms_are_fine() {
    let (mut s, _) = Startup::begin(11);
    assert_eq!(issued(s.advance(value(12))), Command::ListPlatforms { count: 12 });
}

#[test]
fn failed_enumeration_means_no_device() {
    let (mut s, _) = Startup::begin(0);
    assert_eq!(failed(s.advance(status(-1001))), (Error::DeviceUnavailable, vec![]));
    let mut s = up_to(Stage::ListPlatforms);
    assert_eq!(failed(s.advance(status(-30))), (Error::DeviceUnavailable, vec![]));
    let mut s = up_to(Stage::ListPlatforms);
    assert_eq!(failed(s.advance(handles(vec![0x70]))), (Error::DeviceUnavailable, vec![]));
    let mut s = up_to(Stage::VendorSize);
    assert_eq!(failed(s.advance(value(0))), (Error::DeviceUnavailable, vec![]));
    let mut s = up_to(Stage::VendorSize);
    assert_eq!(failed(s.advance(status(-32))), (Error::DeviceUnavailable, vec![]));
    let mut s = up_to(Stage::VendorName);
    assert_eq!(failed(s.advance(status(-32))), (Error::DeviceUnavailable, vec![]));
    let mut s = up_to(Stage::FindDevice);
    assert_eq!(failed(s.advance(status(-1))), (Error::DeviceUnavailable, vec![]));
}

#[test]
fn count_beyond_32_bits_means_no_device() {
    let (mut s, _) = Startup::begin(0);
    assert_eq!(
        failed(s.advance(value(0x1_0000_0000))),
        (Error::DeviceUnavailable, vec![])
    );
}

#[test]
fn failure_after_the_device_releases_what_was_acquired() {
    let mut s = up_to(Stage::CreateContext);
    assert_eq!(
        failed(s.advance(status(-6))),
        (Error::Device { code: -6 }, vec![Command::ReleaseDevice { device: 0x20 }])
    );
    let mut s = up_to(Stage::CreateQueue);
    assert_eq!(
        failed(s.advance(status(-35))),
        (
            Error::Device { code: -35 },
            vec![
                Command::ReleaseDevice { device: 0x20 },
                Command::ReleaseContext { context: 0x10 }
            ]
        )
    );
    let mut s = up_to(Stage::CreateProgram);
    assert_eq!(
        failed(s.advance(status(-5))),
        (
            Error::Device { code: -5 },
            vec![
                Command::ReleaseQueue { queue: 0x40 },
                Command::ReleaseDevice { device: 0x20 },
                Command::ReleaseContext { context: 0x10 }
            ]
        )
    );
    let all = vec![
        Command::ReleaseQueue { queue: 0x40 },
        Command::ReleaseProgram { program: 0x30 },
        Command::ReleaseDevice { device: 0x20 },
        Command::ReleaseContext { context: 0x10 },
    ];
    let mut s = up_to(Stage::BuildLogSize);
    assert_eq!(failed(s.advance(status(-44))), (Error::Device { code: -44 }, all.clone()));
    let mut s = up_to(Stage::BuildLog);
    assert_eq!(failed(s.advance(status(-30))), (Error::Device { code: -30 }, all));
}

#[test]
fn failed_build_is_reported_with_its_log() {
    let mut s = up_to(Stage::BuildProgram);
    assert_eq!(
        issued(s.advance(status(-11))),
        Command::BuildLogSize { program: 0x30, device: 0x20 }
    );
    assert_eq!(s.progress().build_status, -11);
    assert_eq!(
        issued(s.advance(value(40))),
        Command::BuildLog { program: 0x30, device: 0x20, size: 40 }
    );
    let log = "<kernel>:2:9: error: expected ';'\n";
    assert_eq!(
        failed(s.advance(text(log))),
        (
            Error::BuildFailure { log: log.to_string() },
            vec![
                Command::ReleaseQueue { queue: 0x40 },
                Command::ReleaseProgram { program: 0x30 },
                Command::ReleaseDevice { device: 0x20 },
                Command::ReleaseContext { context: 0x10 },
            ]
        )
    );
    assert_eq!(s.progress().stage, Stage::Done);
}

#[test]
fn nothing_follows_the_end() {
    let mut s = up_to(Stage::BuildLog);
    match s.advance(text("")) {
        Step::Ready { .. } => {}
        other => panic!("expected the context, got {:?}", other),
    }
    assert_eq!(failed(s.advance(value(1))), (Error::DeviceUnavailable, vec![]));
    let (mut s, _) = Startup::begin(5);
    failed(s.advance(value(1)));
    assert_eq!(failed(s.advance(value(9))), (Error::DeviceUnavailable, vec![]));
}
