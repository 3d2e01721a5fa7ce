use minicl::{teardown_report, Accel, BufferId, Command, Error, ReleaseFailure};

fn context() -> Accel {
    Accel::new(0x10, 0x20, 0x30, 0x40)
}

#[test]
fn empty_context_releases_its_four_resources_in_order() {
    let mut dev = context();
    assert_eq!(
        dev.teardown(),
        vec![
            Command::ReleaseQueue { queue: 0x40 },
            Command::ReleaseProgram { program: 0x30 },
            Command::ReleaseDevice { device: 0x20 },
            Command::ReleaseContext { context: 0x10 },
        ]
    );
}

#[test]
fn buffers_then_kernels_then_the_context() {
    let mut dev = context();
    dev.register_kernel("first", 0xa1, 0).unwrap();
    let a = dev.register_buffer(0x1000, 16, 4, 0xb1, 0).unwrap();
    dev.register_kernel("second", 0xa2, 0).unwrap();
    dev.register_buffer(0x2000, 3, 8, 0xb2, 0).unwrap();
    dev.map_buffer(a, 0x1000, 0).unwrap();
    assert_eq!(
        dev.teardown(),
        vec![
            Command::ReleaseMem { mem: 0xb1 },
            Command::ReclaimHost { addr: 0x2000, len: 24 },
            Command::ReleaseMem { mem: 0xb2 },
            Command::ReleaseKernel { kernel: 0xa1 },
            Command::ReleaseKernel { kernel: 0xa2 },
            Command::ReleaseQueue { queue: 0x40 },
            Command::ReleaseProgram { program: 0x30 },
            Command::ReleaseDevice { device: 0x20 },
            Command::ReleaseContext { context: 0x10 },
        ]
    );
}

#[test]
fn second_teardown_releases_nothing() {
    let mut dev = context();
    dev.register_kernel("k", 0xa1, 0).unwrap();
    dev.register_buffer(0x1000, 16, 4, 0xb1, 0).unwrap();
    assert_eq!(dev.teardown().len(), 7);
    assert_eq!(dev.teardown(), vec![]);
    assert_eq!(dev.teardown(), vec![]);
}

#[test]
fn torn_down_context_owns_nothing_and_takes_nothing() {
    let mut dev = context();
    dev.register_kernel("k", 0xa1, 0).unwrap();
    let id = dev.register_buffer(0x1000, 16, 4, 0xb1, 0).unwrap();
    dev.teardown();
    assert!(!dev.is_live());
    assert_eq!(dev.kernel_count(), 0);
    assert_eq!(dev.buffer_count(), 0);
    assert_eq!(dev.buffer_state(id), None);
    assert!(!dev.has_kernel("k"));
    assert_eq!(dev.kernel_command("k"), Err(Error::DeviceUnavailable));
    assert_eq!(dev.register_kernel("k", 0xa1, 0), Err(Error::DeviceUnavailable));
    assert_eq!(dev.buffer_command(0x1000, 16, 4), Err(Error::DeviceUnavailable));
    assert_eq!(dev.register_buffer(0x1000, 16, 4, 0xb1, 0), Err(Error::DeviceUnavailable));
    assert_eq!(dev.map_buffer(id, 0x1000, 0), Err(Error::UnknownBuffer));
    assert_eq!(dev.unmap_buffer(0x1000, 0), Err(Error::UnknownBuffer));
    assert_eq!(dev.release_buffer(BufferId { addr: 0x1000 }, 0), Err(Error::UnknownBuffer));
    assert_eq!(dev.run_kernel("k", 16, 4, 0, 0), Err(Error::UnknownKernelName));
    assert_eq!(dev.set_kernel_arg("k", 0, &1i32, 0), Err(Error::UnknownKernelName));
}

#[test]
fn every_buffer_and_kernel_is_released_once() {
    let mut dev = context();
    for i in 0..10usize {
        dev.register_buffer(0x1000 * (i + 1), 4, 4, 0xb0 + i, 0).unwrap();
        dev.register_kernel(&format!("k{}", i), 0xa0 + i, 0).unwrap();
    }
    for i in 0..5usize {
        dev.map_buffer(BufferId { addr: 0x2000 * (i + 1) }, 0x2000 * (i + 1), 0).unwrap();
    }
    let plan = dev.teardown();
    for i in 0..10usize {
        let mem = Command::ReleaseMem { mem: 0xb0 + i };
        let kernel = Command::ReleaseKernel { kernel: 0xa0 + i };
        assert_eq!(plan.iter().filter(|c| **c == mem).count(), 1);
        assert_eq!(plan.iter().filter(|c| **c == kernel).count(), 1);
        let addr = 0x1000 * (i + 1);
        let reclaim = Command::ReclaimHost { addr, len: 16 };
        let host_owned = addr % 0x2000 == 0;
        let found = plan.iter().position(|c| *c == reclaim);
        if host_owned {
            assert_eq!(found, None);
        } else {
            let at = found.unwrap();
            assert_eq!(plan[at + 1], mem);
        }
    }
    assert_eq!(plan.len(), 10 + 5 + 10 + 4);
}

#[test]
fn report_lists_the_failed_calls_in_order() {
    let plan = vec![
        Command::ReleaseMem { mem: 0xb1 },
        Command::ReleaseKernel { kernel: 0xa1 },
        Command::ReleaseQueue { queue: 0x40 },
        Command::ReleaseProgram { program: 0x30 },
        Command::ReleaseDevice { device: 0x20 },
        Command::ReleaseContext { context: 0x10 },
    ];
    assert_eq!(teardown_report(&plan, &vec![0, 0, 0, 0, 0, 0]), vec![]);
    assert_eq!(
        teardown_report(&plan, &vec![-38, 0, 0, -44, 0, -34]),
        vec![
            ReleaseFailure { command: Command::ReleaseMem { mem: 0xb1 }, code: -38 },
            ReleaseFailure { command: Command::ReleaseProgram { program: 0x30 }, code: -44 },
            ReleaseFailure { command: Command::ReleaseContext { context: 0x10 }, code: -34 },
        ]
    );
}

#[test]
fn report_ignores_what_has_no_counterpart() {
    let plan = vec![Command::ReleaseMem { mem: 0xb1 }, Command::ReleaseKernel { kernel: 0xa1 }];
    assert_eq!(
        teardown_report(&plan, &vec![-38]),
        vec![ReleaseFailure { command: Command::ReleaseMem { mem: 0xb1 }, code: -38 }]
    );
    assert_eq!(
        teardown_report(&plan, &vec![0, -48, -5, -5]),
        vec![ReleaseFailure { command: Command::ReleaseKernel { kernel: 0xa1 }, code: -48 }]
    );
    assert_eq!(teardown_report(&vec![], &vec![-5]), vec![]);
}
