use minicl::dispatch::is_valid_partition;
use minicl::{Accel, ArgValue, BufferId, Command, Error, KernelArg, TrueArg};

fn context() -> Accel {
    Accel::new(0x10, 0x20, 0x30, 0x40)
}

fn with_kernel() -> Accel {
    let mut dev = context();
    dev.register_kernel("simple_add", 0xa1, 0).unwrap();
    dev
}

#[test]
fn kernel_command_names_the_program() {
    let dev = context();
    assert_eq!(dev.kernel_command("simple_add"), Ok(Command::CreateKernel { program: 0x30 }));
}

#[test]
fn registered_kernel_is_found_by_name() {
    let dev = with_kernel();
    assert_eq!(dev.kernel_count(), 1);
    assert!(dev.has_kernel("simple_add"));
    assert!(!dev.has_kernel("simple_ad"));
    assert!(!dev.has_kernel(""));
}

#[test]
fn registering_a_name_twice_is_refused() {
    let mut dev = with_kernel();
    assert_eq!(dev.kernel_command("simple_add"), Err(Error::DuplicateKernelError));
    assert_eq!(dev.register_kernel("simple_add", 0xa2, 0), Err(Error::DuplicateKernelError));
    assert_eq!(dev.kernel_count(), 1);
    assert_eq!(dev.register_kernel("other", 0xa2, 0), Ok(()));
    assert_eq!(dev.kernel_count(), 2);
}

#[test]
fn name_missing_from_the_program_is_unknown() {
    let mut dev = context();
    assert_eq!(dev.register_kernel("no_such_kernel", 0, -46), Err(Error::UnknownKernelName));
    assert_eq!(dev.kernel_count(), 0);
    assert!(!dev.has_kernel("no_such_kernel"));
}

#[test]
fn other_failures_of_creation_are_passed_on() {
    let mut dev = context();
    assert_eq!(dev.register_kernel("k", 0, -45), Err(Error::Device { code: -45 }));
    assert_eq!(dev.kernel_count(), 0);
}

#[test]
fn scalars_are_bound_as_they_are() {
    let dev = with_kernel();
    assert_eq!(
        dev.arg_command("simple_add", 1, &1000i32),
        Ok(Command::SetKernelArg { kernel: 0xa1, index: 1, value: ArgValue::I32(1000) })
    );
    assert_eq!(
        dev.arg_command("simple_add", 2, &7u32),
        Ok(Command::SetKernelArg { kernel: 0xa1, index: 2, value: ArgValue::U32(7) })
    );
    assert_eq!(
        dev.arg_command("simple_add", 3, &KernelArg::F32(1.5f32.to_bits())),
        Ok(Command::SetKernelArg {
            kernel: 0xa1,
            index: 3,
            value: ArgValue::F32(0x3fc0_0000)
        })
    );
    assert_eq!(
        dev.arg_command("simple_add", 4, &KernelArg::F64(2.0f64.to_bits())),
        Ok(Command::SetKernelArg {
            kernel: 0xa1,
            index: 4,
            value: ArgValue::F64(0x4000_0000_0000_0000)
        })
    );
}

#[test]
fn sizes_of_scalars() {
    assert_eq!(ArgValue::I32(-1).size(), Some(4));
    assert_eq!(ArgValue::U32(1).size(), Some(4));
    assert_eq!(ArgValue::F32(0).size(), Some(4));
    assert_eq!(ArgValue::F64(0).size(), Some(8));
    assert_eq!(ArgValue::Mem { id: 1, handle: 2 }.size(), None);
}

#[test]
fn true_arg_of_each_kind() {
    let mut dev = with_kernel();
    let id = dev.register_buffer(0x1000, 16, 4, 0xb1, 0).unwrap();
    assert_eq!((-3i32).true_arg(&dev), Ok(ArgValue::I32(-3)));
    assert_eq!(3u32.true_arg(&dev), Ok(ArgValue::U32(3)));
    assert_eq!(id.true_arg(&dev), Ok(ArgValue::Mem { id: 0x1000, handle: 0xb1 }));
    assert_eq!(
        KernelArg::Buffer(id).true_arg(&dev),
        Ok(ArgValue::Mem { id: 0x1000, handle: 0xb1 })
    );
    assert_eq!(KernelArg::I32(5).true_arg(&dev), Ok(ArgValue::I32(5)));
    assert_eq!(BufferId { addr: 0x2000 }.true_arg(&dev), Err(Error::UnknownBuffer));
    dev.map_buffer(id, 0x1000, 0).unwrap();
    assert_eq!(id.true_arg(&dev), Err(Error::BufferStateViolation));
    assert_eq!(dev.encode(&KernelArg::Buffer(id)), Err(Error::BufferStateViolation));
}

#[test]
fn buffer_is_bound_by_its_device_allocation() {
    let mut dev = with_kernel();
    let id = dev.register_buffer(0x1000, 16, 4, 0xb1, 0).unwrap();
    assert_eq!(
        dev.arg_command("simple_add", 0, &id),
        Ok(Command::SetKernelArg {
            kernel: 0xa1,
            index: 0,
            value: ArgValue::Mem { id: 0x1000, handle: 0xb1 }
        })
    );
    assert_eq!(dev.set_kernel_arg("simple_add", 0, &id, 0), Ok(()));
}

#[test]
fn host_owned_buffer_cannot_be_bound() {
    let mut dev = with_kernel();
    let id = dev.register_buffer(0x1000, 16, 4, 0xb1, 0).unwrap();
    dev.map_buffer(id, 0x1000, 0).unwrap();
    assert_eq!(dev.arg_command("simple_add", 0, &id), Err(Error::BufferStateViolation));
    assert_eq!(dev.set_kernel_arg("simple_add", 0, &id, 0), Err(Error::BufferStateViolation));
    dev.unmap_buffer(0x1000, 0).unwrap();
    assert_eq!(dev.set_kernel_arg("simple_add", 0, &id, 0), Ok(()));
}

#[test]
fn binding_to_an_unregistered_kernel_or_buffer_fails() {
    let mut dev = with_kernel();
    assert_eq!(dev.arg_command("nope", 0, &1i32), Err(Error::UnknownKernelName));
    assert_eq!(dev.set_kernel_arg("nope", 0, &1i32, 0), Err(Error::UnknownKernelName));
    let ghost = BufferId { addr: 0x9000 };
    assert_eq!(dev.set_kernel_arg("simple_add", 0, &ghost, 0), Err(Error::UnknownBuffer));
}

#[test]
fn slot_index_beyond_32_bits_is_refused() {
    let mut dev = with_kernel();
    let big = 0x1_0000_0000usize;
    assert_eq!(dev.arg_command("simple_add", big, &1i32), Err(Error::Device { code: -49 }));
    assert_eq!(
        dev.set_kernel_arg("simple_add", big, &1i32, 0),
        Err(Error::Device { code: -49 })
    );
    assert_eq!(
        dev.arg_command("simple_add", 0xffff_ffff, &1i32),
        Ok(Command::SetKernelArg {
            kernel: 0xa1,
            index: 0xffff_ffff,
            value: ArgValue::I32(1)
        })
    );
}

#[test]
fn failed_binding_is_passed_on_and_not_recorded() {
    let mut dev = with_kernel();
    assert_eq!(
        dev.set_kernel_arg("simple_add", 5, &1i32, -49),
        Err(Error::Device { code: -49 })
    );
    assert_eq!(
        dev.dispatch_command("simple_add", 16, 4),
        Ok(Command::EnqueueKernel { queue: 0x40, kernel: 0xa1, global: 16, local: 4 })
    );
}

#[test]
fn partitions() {
    assert!(is_valid_partition(96, 16));
    assert!(is_valid_partition(16, 16));
    assert!(is_valid_partition(64, 1));
    assert!(!is_valid_partition(100, 16));
    assert!(!is_valid_partition(15, 16));
    assert!(!is_valid_partition(16, 0));
    assert!(!is_valid_partition(0, 16));
    assert!(!is_valid_partition(0, 0));
}

#[test]
fn hundred_by_sixteen_is_refused_and_ninety_six_goes() {
    let mut dev = with_kernel();
    let id = dev.register_buffer(0x1000, 96, 4, 0xb1, 0).unwrap();
    dev.set_kernel_arg("simple_add", 0, &id, 0).unwrap();
    dev.set_kernel_arg("simple_add", 1, &1i32, 0).unwrap();
    assert_eq!(dev.dispatch_command("simple_add", 100, 16), Err(Error::InvalidPartitioning));
    assert_eq!(dev.run_kernel("simple_add", 100, 16, 0, 0), Err(Error::InvalidPartitioning));
    assert_eq!(
        dev.dispatch_command("simple_add", 96, 16),
        Ok(Command::EnqueueKernel { queue: 0x40, kernel: 0xa1, global: 96, local: 16 })
    );
    assert_eq!(dev.after_enqueue(0), Ok(Command::Finish { queue: 0x40 }));
    assert_eq!(dev.run_kernel("simple_add", 96, 16, 0, 0), Ok(()));
}

#[test]
fn zero_sizes_are_invalid_partitions() {
    let dev = with_kernel();
    assert_eq!(dev.dispatch_command("simple_add", 16, 0), Err(Error::InvalidPartitioning));
    assert_eq!(dev.dispatch_command("simple_add", 0, 4), Err(Error::InvalidPartitioning));
}

#[test]
fn dispatch_of_an_unregistered_kernel_fails() {
    let dev = with_kernel();
    assert_eq!(dev.dispatch_command("nope", 16, 4), Err(Error::UnknownKernelName));
    assert_eq!(dev.run_kernel("nope", 16, 4, 0, 0), Err(Error::UnknownKernelName));
    assert_eq!(dev.run_kernel("nope", 100, 16, 0, 0), Err(Error::UnknownKernelName));
}

#[test]
fn slot_left_out_below_a_bound_one_is_unbound() {
    let mut dev = with_kernel();
    dev.set_kernel_arg("simple_add", 0, &1i32, 0).unwrap();
    dev.set_kernel_arg("simple_add", 2, &3i32, 0).unwrap();
    assert_eq!(dev.dispatch_command("simple_add", 16, 4), Err(Error::UnboundArgument));
    assert_eq!(dev.run_kernel("simple_add", 16, 4, 0, 0), Err(Error::UnboundArgument));
    dev.set_kernel_arg("simple_add", 1, &2i32, 0).unwrap();
    assert_eq!(dev.run_kernel("simple_add", 16, 4, 0, 0), Ok(()));
}

#[test]
fn only_a_high_slot_bound_is_unbound() {
    let mut dev = with_kernel();
    dev.set_kernel_arg("simple_add", 0xffff_ffff, &1i32, 0).unwrap();
    assert_eq!(dev.dispatch_command("simple_add", 16, 4), Err(Error::UnboundArgument));
}

#[test]
fn device_reports_unset_arguments() {
    let dev = with_kernel();
    assert_eq!(dev.after_enqueue(-52), Err(Error::UnboundArgument));
    assert_eq!(dev.run_kernel("simple_add", 16, 4, -52, 0), Err(Error::UnboundArgument));
}

#[test]
fn binding_a_slot_again_replaces_it() {
    let mut dev = with_kernel();
    let a = dev.register_buffer(0x1000, 16, 4, 0xb1, 0).unwrap();
    dev.set_kernel_arg("simple_add", 0, &a, 0).unwrap();
    dev.map_buffer(a, 0x1000, 0).unwrap();
    assert_eq!(dev.dispatch_command("simple_add", 16, 4), Err(Error::BufferStateViolation));
    dev.set_kernel_arg("simple_add", 0, &5i32, 0).unwrap();
    assert_eq!(dev.run_kernel("simple_add", 16, 4, 0, 0), Ok(()));
}

#[test]
fn stale_binding_of_a_mapped_buffer_stops_the_dispatch() {
    let mut dev = with_kernel();
    let id = dev.register_buffer(0x1000, 16, 4, 0xb1, 0).unwrap();
    dev.set_kernel_arg("simple_add", 0, &id, 0).unwrap();
    dev.set_kernel_arg("simple_add", 1, &1i32, 0).unwrap();
    assert_eq!(dev.run_kernel("simple_add", 16, 4, 0, 0), Ok(()));
    dev.map_buffer(id, 0x1000, 0).unwrap();
    assert_eq!(dev.dispatch_command("simple_add", 16, 4), Err(Error::BufferStateViolation));
    assert_eq!(dev.run_kernel("simple_add", 16, 4, 0, 0), Err(Error::BufferStateViolation));
    dev.unmap_buffer(0x1000, 0).unwrap();
    assert_eq!(dev.run_kernel("simple_add", 16, 4, 0, 0), Ok(()));
}

#[test]
fn binding_of_a_released_buffer_stops_the_dispatch() {
    let mut dev = with_kernel();
    let id = dev.register_buffer(0x1000, 16, 4, 0xb1, 0).unwrap();
    dev.set_kernel_arg("simple_add", 0, &id, 0).unwrap();
    dev.release_buffer(id, 0).unwrap();
    assert_eq!(dev.dispatch_command("simple_add", 16, 4), Err(Error::UnknownBuffer));
    dev.register_buffer(0x1000, 16, 4, 0xb2, 0).unwrap();
    assert_eq!(dev.dispatch_command("simple_add", 16, 4), Err(Error::UnknownBuffer));
    dev.set_kernel_arg("simple_add", 0, &id, 0).unwrap();
    assert_eq!(dev.run_kernel("simple_add", 16, 4, 0, 0), Ok(()));
}

#[test]
fn lowest_faulty_slot_decides_the_error() {
    let mut dev = with_kernel();
    let id = dev.register_buffer(0x1000, 16, 4, 0xb1, 0).unwrap();
    dev.set_kernel_arg("simple_add", 0, &id, 0).unwrap();
    dev.set_kernel_arg("simple_add", 2, &1i32, 0).unwrap();
    dev.map_buffer(id, 0x1000, 0).unwrap();
    assert_eq!(dev.dispatch_command("simple_add", 16, 4), Err(Error::BufferStateViolation));
    dev.unmap_buffer(0x1000, 0).unwrap();
    assert_eq!(dev.dispatch_command("simple_add", 16, 4), Err(Error::UnboundArgument));
}

#[test]
fn failed_submission_and_failed_wait_are_passed_on() {
    let dev = with_kernel();
    assert_eq!(dev.run_kernel("simple_add", 16, 4, -54, 0), Err(Error::Device { code: -54 }));
    assert_eq!(dev.run_kernel("simple_add", 16, 4, -54, -5), Err(Error::Device { code: -54 }));
    assert_eq!(dev.run_kernel("simple_add", 16, 4, 0, -5), Err(Error::Device { code: -5 }));
    assert_eq!(dev.after_enqueue(-54), Err(Error::Device { code: -54 }));
}

#[test]
fn kernels_keep_their_slots_apart() {
    let mut dev = with_kernel();
    dev.register_kernel("other", 0xa2, 0).unwrap();
    dev.set_kernel_arg("other", 1, &1i32, 0).unwrap();
    assert_eq!(dev.dispatch_command("other", 16, 4), Err(Error::UnboundArgument));
    assert_eq!(
        dev.dispatch_command("simple_add", 16, 4),
        Ok(Command::EnqueueKernel { queue: 0x40, kernel: 0xa1, global: 16, local: 4 })
    );
}

#[test]
fn buffer_is_looked_at_before_the_slot_index() {
    let mut dev = with_kernel();
    let id = dev.register_buffer(0x1000, 16, 4, 0xb1, 0).unwrap();
    let big = 0x1_0000_0000usize;
    dev.map_buffer(id, 0x1000, 0).unwrap();
    assert_eq!(dev.arg_command("simple_add", big, &id), Err(Error::BufferStateViolation));
    assert_eq!(dev.set_kernel_arg("simple_add", big, &id, 0), Err(Error::BufferStateViolation));
    assert_eq!(
        dev.set_kernel_arg("simple_add", usize::MAX, &id, -49),
        Err(Error::BufferStateViolation)
    );
    let ghost = BufferId { addr: 0x9000 };
    assert_eq!(dev.arg_command("simple_add", big, &ghost), Err(Error::UnknownBuffer));
    assert_eq!(dev.set_kernel_arg("simple_add", big, &ghost, 0), Err(Error::UnknownBuffer));
    dev.unmap_buffer(0x1000, 0).unwrap();
    assert_eq!(dev.arg_command("simple_add", big, &id), Err(Error::Device { code: -49 }));
    assert_eq!(dev.set_kernel_arg("simple_add", big, &id, 0), Err(Error::Device { code: -49 }));
    assert_eq!(dev.arg_command("nope", big, &id), Err(Error::UnknownKernelName));
}
