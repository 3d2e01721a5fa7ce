//! Whole runs of the protocol against a device that lives in the test: it
//! performs every call on plain vectors and answers the way a real device
//! would.
use minicl::{
    next_call, split_replies, teardown_report, Accel, ArgValue, BufferId, Command, Error,
    KernelArg, Ownership, ReleaseFailure, Reply, Startup, Step,
};
use std::collections::HashMap;

const SIMPLE_ADD: &str = "__kernel  void simple_add(__global int *v, int x){
        int i = get_global_id(0);
        v[i] += x;
    }";

struct FakeDevice {
    source: String,
    /// Host blocks that the device can reach, by address.
    memory: HashMap<usize, Vec<i32>>,
    /// Device allocations: the address they lie over.
    mems: HashMap<usize, usize>,
    kernels: HashMap<usize, String>,
    slots: HashMap<(usize, u32), ArgValue>,
    released: Vec<Command>,
    next: usize,
}

impl FakeDevice {
    fn new(source: &str) -> FakeDevice {
        FakeDevice {
            source: source.to_string(),
            memory: HashMap::new(),
            mems: HashMap::new(),
            kernels: HashMap::new(),
            slots: HashMap::new(),
            released: Vec::new(),
            next: 0x100,
        }
    }

    fn handle(&mut self) -> usize {
        self.next += 1;
        self.next
    }

    fn reply(status: i32, value: usize) -> Reply {
        Reply { status, value, handles: vec![], text: String::new() }
    }

    fn log(&self) -> String {
        if self.source.contains("get_global_id") {
            String::new()
        } else {
            "error: nothing to compile\n".to_string()
        }
    }

    fn run(&mut self, kernel: usize, global: usize) -> i32 {
        if self.kernels[&kernel] != "simple_add" {
            return 0;
        }
        let block = match self.slots.get(&(kernel, 0)) {
            Some(ArgValue::Mem { handle, .. }) => self.mems[handle],
            _ => return -52,
        };
        let x = match self.slots.get(&(kernel, 1)) {
            Some(ArgValue::I32(x)) => *x,
            _ => return -52,
        };
        let v = self.memory.get_mut(&block).unwrap();
        for i in 0..global {
            v[i] += x;
        }
        0
    }

    fn perform(&mut self, call: Command, name: &str) -> Reply {
        match call {
            Command::CountPlatforms => Self::reply(0, 1),
            Command::ListPlatforms { count } => Reply {
                status: 0,
                value: 0,
                handles: vec![0x70; count as usize],
                text: String::new(),
            },
            Command::VendorSize { .. } => Self::reply(0, 5),
            Command::VendorName { .. } => {
                Reply { status: 0, value: 0, handles: vec![], text: "Fake".to_string() }
            }
            Command::FindDevice { .. } => Self::reply(0, 0x20),
            Command::CreateContext { .. } => Self::reply(0, 0x10),
            Command::CreateQueue { .. } => Self::reply(0, 0x40),
            Command::CreateProgram { .. } => Self::reply(0, 0x30),
            Command::BuildProgram { .. } => {
                Self::reply(if self.log().is_empty() { 0 } else { -11 }, 0)
            }
            Command::BuildLogSize { .. } => Self::reply(0, self.log().len() + 1),
            Command::BuildLog { .. } => {
                Reply { status: 0, value: 0, handles: vec![], text: self.log() }
            }
            Command::CreateKernel { .. } => {
                if self.source.contains(&format!(" {}(", name)) {
                    let h = self.handle();
                    self.kernels.insert(h, name.to_string());
                    Self::reply(0, h)
                } else {
                    Self::reply(-46, 0)
                }
            }
            Command::CreateBuffer { host_ptr, .. } => {
                let h = self.handle();
                self.mems.insert(h, host_ptr);
                Self::reply(0, h)
            }
            Command::MapBuffer { mem, .. } => Self::reply(0, self.mems[&mem]),
            Command::UnmapBuffer { .. } => Self::reply(0, 0),
            Command::SetKernelArg { kernel, index, value } => {
                self.slots.insert((kernel, index), value);
                Self::reply(0, 0)
            }
            Command::EnqueueKernel { kernel, global, local, .. } => {
                if local == 0 || global % local != 0 {
                    Self::reply(-54, 0)
                } else {
                    let status = self.run(kernel, global);
                    Self::reply(status, 0)
                }
            }
            Command::Finish { .. } => Self::reply(0, 0),
            Command::ReclaimHost { addr, .. } => {
                self.memory.remove(&addr);
                self.released.push(call);
                Self::reply(0, 0)
            }
            other => {
                self.released.push(other);
                Self::reply(0, 0)
            }
        }
    }
}

/// Drives a context the way a program around the library does.
struct Host {
    core: Accel,
    device: FakeDevice,
    next_addr: usize,
}

impl Host {
    fn new(source: &str, numplat: usize) -> Result<Host, Error> {
        let mut device = FakeDevice::new(source);
        let (mut startup, mut call) = Startup::begin(numplat);
        loop {
            let reply = device.perform(call, "");
            match startup.advance(reply) {
                Step::Issue(next) => call = next,
                Step::Ready { dev, .. } => {
                    return Ok(Host { core: dev, device, next_addr: 0x1000 });
                }
                Step::Failed { error, cleanup } => {
                    for c in cleanup {
                        device.perform(c, "");
                    }
                    return Err(error);
                }
            }
        }
    }

    fn register_kernel(&mut self, name: &str) -> Result<(), Error> {
        let call = self.core.kernel_command(name)?;
        let reply = self.device.perform(call, name);
        self.core.register_kernel(name, reply.value, reply.status)
    }

    fn register_buffer(&mut self, v: Vec<i32>) -> Result<BufferId, Error> {
        let addr = self.next_addr;
        let call = self.core.buffer_command(addr, v.len(), 4)?;
        self.next_addr += 0x1000;
        let count = v.len();
        self.device.memory.insert(addr, v);
        let reply = self.device.perform(call, "");
        self.core.register_buffer(addr, count, 4, reply.value, reply.status)
    }

    fn map_buffer(&mut self, id: BufferId) -> Result<Vec<i32>, Error> {
        let call = self.core.map_command(id)?;
        let reply = self.device.perform(call, "");
        let block = self.core.map_buffer(id, reply.value, reply.status)?;
        let v = self.device.memory.remove(&block.addr).unwrap();
        assert_eq!(v.len(), block.count);
        assert_eq!(block.stride, 4);
        Ok(v)
    }

    fn unmap_buffer(&mut self, id: BufferId, v: Vec<i32>) -> Result<BufferId, Error> {
        let call = self.core.unmap_command(id.addr)?;
        self.device.memory.insert(id.addr, v);
        let reply = self.device.perform(call, "");
        self.core.unmap_buffer(id.addr, reply.status)
    }

    fn set_args_and_run(
        &mut self,
        name: &str,
        globsize: usize,
        locsize: usize,
        args: &Vec<KernelArg>,
    ) -> Result<(), Error> {
        let plan = self.core.bind_all_commands(name, globsize, locsize, args)?;
        let mut replies: Vec<i32> = Vec::new();
        while let Some(call) = next_call(&plan, &replies) {
            replies.push(self.device.perform(call, name).status);
        }
        let (bound, enqueued, finished) = split_replies(&replies, args.len());
        self.core.bind_all_and_dispatch(name, globsize, locsize, args, &bound, enqueued, finished)
    }

    fn run_kernel(&mut self, name: &str, globsize: usize, locsize: usize) -> Result<(), Error> {
        let call = self.core.dispatch_command(name, globsize, locsize)?;
        let enqueued = self.device.perform(call, name).status;
        let wait = self.core.after_enqueue(enqueued)?;
        let finished = self.device.perform(wait, name).status;
        self.core.run_kernel(name, globsize, locsize, enqueued, finished)
    }

    fn destroy(&mut self) -> Vec<ReleaseFailure> {
        let plan = self.core.teardown();
        let statuses: Vec<i32> =
            plan.iter().map(|c| self.device.perform(*c, "").status).collect();
        teardown_report(&plan, &statuses)
    }
}

#[test]
fn test_init() {
    let source = "__kernel  void simple_kernel(){
        int i = get_global_id(0);
    }"
    .to_string();

    let dev = Host::new(&source, 0).unwrap();
    println!("{:?}", dev.core);
    assert!(dev.core.is_live());
}

#[test]
fn test_buffer() {
    let source = "__kernel  void simple_kernel(void){
        int i = get_global_id(0);
    }"
    .to_string();

    let mut dev = Host::new(&source, 0).unwrap();
    let v: Vec<i32> = vec![3; 16];
    let v0 = v.clone();
    let v = dev.register_buffer(v).unwrap();
    let v = dev.map_buffer(v).unwrap();
    assert_eq!(v0, v);
}

#[test]
fn test_kernel() {
    let source = "__kernel  void simple_add(__global int *v, int x){
        int i = get_global_id(0);
        v[i] += x;
    }"
    .to_string();

    let kernel_name = "simple_add".to_string();
    let mut dev = Host::new(&source, 0).unwrap();
    dev.register_kernel(&kernel_name).unwrap();
    let v: Vec<i32> = vec![3; 16];
    let vp: Vec<i32> = vec![6; 16];
    let v = dev.register_buffer(v).unwrap();
    let x = 3;
    dev.set_args_and_run(&kernel_name, 16, 4, &vec![KernelArg::Buffer(v), KernelArg::I32(x)])
        .unwrap();
    let v = dev.map_buffer(v).unwrap();
    assert_eq!(vp, v);
}

#[test]
fn add_a_thousand_twice() {
    let mut dev = Host::new(SIMPLE_ADD, 0).unwrap();
    dev.register_kernel("simple_add").unwrap();
    let n = 64;
    let id = dev.register_buffer(vec![12; n]).unwrap();
    let args = vec![KernelArg::Buffer(id), KernelArg::I32(1000)];

    dev.set_args_and_run("simple_add", n, 16, &args).unwrap();
    let v = dev.map_buffer(id).unwrap();
    assert_eq!(v, vec![1012; n]);

    let id = dev.unmap_buffer(id, v).unwrap();
    dev.set_args_and_run("simple_add", n, 16, &args).unwrap();
    let v = dev.map_buffer(id).unwrap();
    assert_eq!(v, vec![2012; n]);
}

#[test]
fn second_run_without_binding_again() {
    let mut dev = Host::new(SIMPLE_ADD, 0).unwrap();
    dev.register_kernel("simple_add").unwrap();
    let id = dev.register_buffer(vec![12; 64]).unwrap();
    let args = vec![KernelArg::Buffer(id), KernelArg::I32(1000)];
    dev.set_args_and_run("simple_add", 64, 16, &args).unwrap();
    let v = dev.map_buffer(id).unwrap();
    assert_eq!(dev.run_kernel("simple_add", 64, 16), Err(Error::BufferStateViolation));
    let id = dev.unmap_buffer(id, v).unwrap();
    dev.run_kernel("simple_add", 64, 16).unwrap();
    assert_eq!(dev.map_buffer(id).unwrap(), vec![2012; 64]);
}

#[test]
fn mapped_buffer_is_never_run_on() {
    let mut dev = Host::new(SIMPLE_ADD, 0).unwrap();
    dev.register_kernel("simple_add").unwrap();
    let id = dev.register_buffer(vec![12; 64]).unwrap();
    let v = dev.map_buffer(id).unwrap();
    let args = vec![KernelArg::Buffer(id), KernelArg::I32(1000)];
    assert_eq!(
        dev.set_args_and_run("simple_add", 64, 16, &args),
        Err(Error::BufferStateViolation)
    );
    assert_eq!(v, vec![12; 64]);
    assert!(dev.device.slots.is_empty());
}

#[test]
fn bad_partition_never_reaches_the_device() {
    let mut dev = Host::new(SIMPLE_ADD, 0).unwrap();
    dev.register_kernel("simple_add").unwrap();
    let id = dev.register_buffer(vec![12; 100]).unwrap();
    let args = vec![KernelArg::Buffer(id), KernelArg::I32(1000)];
    assert_eq!(
        dev.set_args_and_run("simple_add", 100, 16, &args),
        Err(Error::InvalidPartitioning)
    );
    assert!(dev.device.slots.is_empty());
    dev.set_args_and_run("simple_add", 96, 16, &args).unwrap();
    let v = dev.map_buffer(id).unwrap();
    assert_eq!(&v[..96], &vec![1012; 96][..]);
    assert_eq!(&v[96..], &vec![12; 4][..]);
}

#[test]
fn dispatch_with_an_argument_missing_is_unbound() {
    let mut dev = Host::new(SIMPLE_ADD, 0).unwrap();
    dev.register_kernel("simple_add").unwrap();
    let id = dev.register_buffer(vec![12; 64]).unwrap();
    let args = vec![KernelArg::Buffer(id)];
    assert_eq!(dev.set_args_and_run("simple_add", 64, 16, &args), Err(Error::UnboundArgument));
}

#[test]
fn unknown_kernel_and_duplicate_kernel() {
    let mut dev = Host::new(SIMPLE_ADD, 0).unwrap();
    assert_eq!(dev.register_kernel("simple_sub"), Err(Error::UnknownKernelName));
    dev.register_kernel("simple_add").unwrap();
    assert_eq!(dev.register_kernel("simple_add"), Err(Error::DuplicateKernelError));
    assert_eq!(dev.device.kernels.len(), 1);
}

#[test]
fn source_that_does_not_compile_gives_the_log() {
    match Host::new("int main() { return 0; }", 0) {
        Err(Error::BuildFailure { log }) => assert_eq!(log, "error: nothing to compile\n"),
        _ => panic!("expected a build failure"),
    }
}

#[test]
fn platform_that_is_not_there() {
    match Host::new(SIMPLE_ADD, 1) {
        Err(e) => assert_eq!(e, Error::DeviceUnavailable),
        Ok(_) => panic!("expected no device"),
    }
}

#[test]
fn destroying_once_releases_everything_and_twice_nothing_more() {
    let mut dev = Host::new(SIMPLE_ADD, 0).unwrap();
    dev.register_kernel("simple_add").unwrap();
    let a = dev.register_buffer(vec![1; 8]).unwrap();
    let b = dev.register_buffer(vec![2; 8]).unwrap();
    let held = dev.map_buffer(b).unwrap();
    assert_eq!(dev.core.buffer_state(a), Some(Ownership::DeviceOwned));
    assert_eq!(dev.core.buffer_state(b), Some(Ownership::HostOwned));

    assert_eq!(dev.destroy(), vec![]);
    let first = dev.device.released.clone();
    assert_eq!(first.len(), 1 + 2 + 1 + 4);
    assert_eq!(first[0], Command::ReclaimHost { addr: a.addr, len: 32 });
    // the device-owned block went back to the host, the mapped one was
    // with the host all along
    assert!(dev.device.memory.is_empty());
    assert_eq!(held, vec![2; 8]);

    assert_eq!(dev.destroy(), vec![]);
    assert_eq!(dev.device.released, first);
}
