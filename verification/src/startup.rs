//! Bringing a device context up: from the count of platforms to a compiled
//! program, one device call at a time.
//!
//! [`Startup`] is a state machine. It starts by asking for the number of
//! platforms; [`Startup::advance`] takes the device's reply to the call that
//! is out and says what comes next: another call, the finished context, or
//! the failure together with the calls that release what was acquired so far.
use vstd::prelude::*;
use crate::accel::Accel;
use crate::command::{Command, CL_QUEUE_PROFILING_ENABLE, DEVICE_TYPES};
use crate::error::{device_error, error_of_status, Error};
use crate::model::AccelView;
use crate::status::CL_SUCCESS;

verus! {

/// The call whose reply the machine is waiting for.
#[derive(Clone, Copy, Debug, PartialEq, Eq, Structural)]
pub enum Stage {
    CountPlatforms,
    ListPlatforms,
    VendorSize,
    VendorName,
    FindDevice,
    CreateContext,
    CreateQueue,
    CreateProgram,
    BuildProgram,
    BuildLogSize,
    BuildLog,
    /// The context was handed out, or the startup has failed.
    Done,
}

/// How far a startup has come, and what it has acquired.
#[derive(Clone, Copy, Debug, PartialEq, Eq, Structural)]
pub struct Progress {
    pub stage: Stage,
    /// The platform that the caller chose, by its position in the list.
    pub selector: usize,
    pub platform: usize,
    pub device: usize,
    pub context: usize,
    pub queue: usize,
    pub program: usize,
    /// What the device answered to the compilation.
    pub build_status: i32,
}

/// The reply of the device to one call: the status, and whichever of a
/// number or handle, a list of handles and a text the call produces.
#[derive(Clone, Debug, PartialEq, Eq)]
pub struct Reply {
    pub status: i32,
    pub value: usize,
    pub handles: Vec<usize>,
    pub text: String,
}

/// What comes after a reply.
#[derive(Debug)]
pub enum Step {
    /// The next call to make.
    Issue(Command),
    /// The context is up. `log` is what the compiler had to say.
    Ready { dev: Accel, log: String },
    /// The startup has failed. `cleanup` releases what had been acquired.
    Failed { error: Error, cleanup: Vec<Command> },
}

/// What comes after a reply, as a mathematical value.
pub enum Outcome {
    Issue(Command),
    Ready { dev: AccelView, log: String },
    Failed { error: Error, cleanup: Seq<Command> },
}

impl Progress {
    /// The start: nothing acquired, the count of platforms asked for.
    pub open spec fn initial(selector: usize) -> Progress {
        Progress {
            stage: Stage::CountPlatforms,
            selector,
            platform: 0,
            device: 0,
            context: 0,
            queue: 0,
            program: 0,
            build_status: 0,
        }
    }

    /// The calls that release what has been acquired when the call of
    /// `self.stage` is out: the queue, the program, the device and the
    /// context, in that order, as far as they exist.
    pub open spec fn cleanup(self) -> Seq<Command> {
        match self.stage {
            Stage::CreateContext => seq![Command::ReleaseDevice { device: self.device }],
            Stage::CreateQueue => seq![
                Command::ReleaseDevice { device: self.device },
                Command::ReleaseContext { context: self.context },
            ],
            Stage::CreateProgram => seq![
                Command::ReleaseQueue { queue: self.queue },
                Command::ReleaseDevice { device: self.device },
                Command::ReleaseContext { context: self.context },
            ],
            Stage::BuildProgram | Stage::BuildLogSize | Stage::BuildLog => seq![
                Command::ReleaseQueue { queue: self.queue },
                Command::ReleaseProgram { program: self.program },
                Command::ReleaseDevice { device: self.device },
                Command::ReleaseContext { context: self.context },
            ],
            _ => Seq::empty(),
        }
    }

    /// The progress after a failure: nothing more will be asked.
    pub open spec fn stopped(self) -> Progress {
        Progress { stage: Stage::Done, ..self }
    }

    /// The failure with which the startup ends on this reply, if it does.
    ///
    /// Until a device is found every failed call means that no device is to
    /// be had, and so does a selector beyond the platforms there are, or an
    /// empty vendor name. After that a failed call is passed on as the
    /// device's error. A failed compilation is reported when its log is
    /// there, with the log.
    pub open spec fn failure(self, reply: Reply) -> Option<Error> {
        match self.stage {
            Stage::CountPlatforms => if reply.status != CL_SUCCESS || reply.value > u32::MAX
                || self.selector >= reply.value {
                Some(Error::DeviceUnavailable)
            } else {
                None
            },
            Stage::ListPlatforms => if reply.status != CL_SUCCESS || self.selector
                >= reply.handles@.len() {
                Some(Error::DeviceUnavailable)
            } else {
                None
            },
            Stage::VendorSize => if reply.status != CL_SUCCESS || reply.value == 0 {
                Some(Error::DeviceUnavailable)
            } else {
                None
            },
            Stage::VendorName | Stage::FindDevice => if reply.status != CL_SUCCESS {
                Some(Error::DeviceUnavailable)
            } else {
                None
            },
            Stage::CreateContext | Stage::CreateQueue | Stage::CreateProgram
            | Stage::BuildLogSize => if reply.status != CL_SUCCESS {
                Some(device_error(reply.status))
            } else {
                None
            },
            Stage::BuildProgram => None,
            Stage::BuildLog => if reply.status != CL_SUCCESS {
                Some(device_error(reply.status))
            } else if self.build_status != CL_SUCCESS {
                Some(Error::BuildFailure { log: reply.text })
            } else {
                None
            },
            Stage::Done => Some(Error::DeviceUnavailable),
        }
    }

    /// The progress after a reply that is no failure.
    pub open spec fn next(self, reply: Reply) -> Progress {
        match self.stage {
            Stage::CountPlatforms => Progress { stage: Stage::ListPlatforms, ..self },
            Stage::ListPlatforms => Progress {
                stage: Stage::VendorSize,
                platform: reply.handles@[self.selector as int],
                ..self
            },
            Stage::VendorSize => Progress { stage: Stage::VendorName, ..self },
            Stage::VendorName => Progress { stage: Stage::FindDevice, ..self },
            Stage::FindDevice => Progress {
                stage: Stage::CreateContext,
                device: reply.value,
                ..self
            },
            Stage::CreateContext => Progress {
                stage: Stage::CreateQueue,
                context: reply.value,
                ..self
            },
            Stage::CreateQueue => Progress {
                stage: Stage::CreateProgram,
                queue: reply.value,
                ..self
            },
            Stage::CreateProgram => Progress {
                stage: Stage::BuildProgram,
                program: reply.value,
                ..self
            },
            Stage::BuildProgram => Progress {
                stage: Stage::BuildLogSize,
                build_status: reply.status,
                ..self
            },
            Stage::BuildLogSize => Progress { stage: Stage::BuildLog, ..self },
            Stage::BuildLog => Progress { stage: Stage::Done, ..self },
            Stage::Done => self,
        }
    }

    /// The call that is due after a reply that is no failure, where one is.
    pub open spec fn call(self, reply: Reply) -> Command {
        let p = self.next(reply);
        match self.stage {
            Stage::CountPlatforms => Command::ListPlatforms { count: reply.value as u32 },
            Stage::ListPlatforms => Command::VendorSize { platform: p.platform },
            Stage::VendorSize => Command::VendorName { platform: p.platform, size: reply.value },
            Stage::VendorName => Command::FindDevice {
                platform: p.platform,
                device_types: DEVICE_TYPES,
            },
            Stage::FindDevice => Command::CreateContext { device: p.device },
            Stage::CreateContext => Command::CreateQueue {
                context: p.context,
                device: p.device,
                properties: CL_QUEUE_PROFILING_ENABLE,
            },
            Stage::CreateQueue => Command::CreateProgram { context: p.context },
            Stage::CreateProgram => Command::BuildProgram { program: p.program, device: p.device },
            Stage::BuildProgram => Command::BuildLogSize { program: p.program, device: p.device },
            Stage::BuildLogSize => Command::BuildLog {
                program: p.program,
                device: p.device,
                size: reply.value,
            },
            _ => Command::CountPlatforms,
        }
    }

    /// The progress and the outcome that follow `reply`.
    ///
    /// A failure ends the startup. The last reply, the build log, ends it
    /// too: with the context over what was acquired, if the compilation went
    /// through.
    pub open spec fn advance(self, reply: Reply) -> (Progress, Outcome) {
        match self.failure(reply) {
            Some(error) => (self.stopped(), Outcome::Failed { error, cleanup: self.cleanup() }),
            None => if self.stage == Stage::BuildLog {
                (
                    self.next(reply),
                    Outcome::Ready {
                        dev: AccelView::fresh(self.context, self.device, self.program, self.queue),
                        log: reply.text,
                    },
                )
            } else {
                (self.next(reply), Outcome::Issue(self.call(reply)))
            },
        }
    }
}

impl Step {
    /// Whether the step is what `outcome` says.
    pub open spec fn agrees_with(self, outcome: Outcome) -> bool {
        match (self, outcome) {
            (Step::Issue(c), Outcome::Issue(d)) => c == d,
            (Step::Ready { dev, log }, Outcome::Ready { dev: d, log: l }) => dev@ == d && dev.wf()
                && log == l,
            (Step::Failed { error, cleanup }, Outcome::Failed { error: e, cleanup: c }) => error
                == e && cleanup@ == c,
            _ => false,
        }
    }
}

/// The options that every program is compiled with: warnings off.
pub fn build_options() -> (options: &'static str)
    ensures
        options@ == "-w"@,
{
    "-w"
}

/// The startup of one device context.
#[derive(Debug)]
pub struct Startup {
    progress: Progress,
}

impl View for Startup {
    type V = Progress;

    closed spec fn view(&self) -> Progress {
        self.progress
    }
}

impl Startup {
    /// Starts a startup on the platform at position `selector`. The first
    /// call, which is out when this returns, asks for the number of
    /// platforms.
    pub fn begin(selector: usize) -> (r: (Startup, Command))
        ensures
            r.0@ == Progress::initial(selector),
            r.1 == Command::CountPlatforms,
    {
        (
            Startup {
                progress: Progress {
                    stage: Stage::CountPlatforms,
                    selector,
                    platform: 0,
                    device: 0,
                    context: 0,
                    queue: 0,
                    program: 0,
                    build_status: 0,
                },
            },
            Command::CountPlatforms,
        )
    }

    /// How far the startup has come.
    pub fn progress(&self) -> (p: Progress)
        ensures
            p == self@,
    {
        self.progress
    }

    /// The calls that release what has been acquired.
    fn cleanup(&self) -> (plan: Vec<Command>)
        ensures
            plan@ == self@.cleanup(),
    {
        let p = self.progress;
        let mut plan: Vec<Command> = Vec::new();
        match p.stage {
            Stage::CreateContext => {
                plan.push(Command::ReleaseDevice { device: p.device });
            },
            Stage::CreateQueue => {
                plan.push(Command::ReleaseDevice { device: p.device });
                plan.push(Command::ReleaseContext { context: p.context });
            },
            Stage::CreateProgram => {
                plan.push(Command::ReleaseQueue { queue: p.queue });
                plan.push(Command::ReleaseDevice { device: p.device });
                plan.push(Command::ReleaseContext { context: p.context });
            },
            Stage::BuildProgram | Stage::BuildLogSize | Stage::BuildLog => {
                plan.push(Command::ReleaseQueue { queue: p.queue });
                plan.push(Command::ReleaseProgram { program: p.program });
                plan.push(Command::ReleaseDevice { device: p.device });
                plan.push(Command::ReleaseContext { context: p.context });
            },
            _ => {},
        }
        assert(plan@ =~= self@.cleanup());
        plan
    }

    /// Ends the startup with `error`.
    fn fail(&mut self, error: Error) -> (step: Step)
        ensures
            final(self)@ == old(self)@.stopped(),
            step.agrees_with(Outcome::Failed { error, cleanup: old(self)@.cleanup() }),
    {
        let cleanup = self.cleanup();
        self.progress.stage = Stage::Done;
        Step::Failed { error, cleanup }
    }

    /// Takes the reply to the call that is out and says what comes next.
    pub fn advance(&mut self, reply: Reply) -> (step: Step)
        ensures
            final(self)@ == old(self)@.advance(reply).0,
            step.agrees_with(old(self)@.advance(reply).1),
    {
        let p = self.progress;
        let ok = reply.status == CL_SUCCESS;
        match p.stage {
            Stage::CountPlatforms => {
                if !ok || reply.value > 0xffff_ffff || p.selector >= reply.value {
                    return self.fail(Error::DeviceUnavailable);
                }
                self.progress.stage = Stage::ListPlatforms;
                Step::Issue(Command::ListPlatforms { count: reply.value as u32 })
            },
            Stage::ListPlatforms => {
                if !ok || p.selector >= reply.handles.len() {
                    return self.fail(Error::DeviceUnavailable);
                }
                let platform = reply.handles[p.selector];
                self.progress.stage = Stage::VendorSize;
                self.progress.platform = platform;
                Step::Issue(Command::VendorSize { platform })
            },
            Stage::VendorSize => {
                if !ok || reply.value == 0 {
                    return self.fail(Error::DeviceUnavailable);
                }
                self.progress.stage = Stage::VendorName;
                Step::Issue(Command::VendorName { platform: p.platform, size: reply.value })
            },
            Stage::VendorName => {
                if !ok {
                    return self.fail(Error::DeviceUnavailable);
                }
                self.progress.stage = Stage::FindDevice;
                Step::Issue(
                    Command::FindDevice { platform: p.platform, device_types: DEVICE_TYPES },
                )
            },
            Stage::FindDevice => {
                if !ok {
                    return self.fail(Error::DeviceUnavailable);
                }
                self.progress.stage = Stage::CreateContext;
                self.progress.device = reply.value;
                Step::Issue(Command::CreateContext { device: reply.value })
            },
            Stage::CreateContext => {
                if !ok {
                    return self.fail(error_of_status(reply.status));
                }
                self.progress.stage = Stage::CreateQueue;
                self.progress.context = reply.value;
                Step::Issue(
                    Command::CreateQueue {
                        context: reply.value,
                        device: p.device,
                        properties: CL_QUEUE_PROFILING_ENABLE,
                    },
                )
            },
            Stage::CreateQueue => {
                if !ok {
                    return self.fail(error_of_status(reply.status));
                }
                self.progress.stage = Stage::CreateProgram;
                self.progress.queue = reply.value;
                Step::Issue(Command::CreateProgram { context: p.context })
            },
            Stage::CreateProgram => {
                if !ok {
                    return self.fail(error_of_status(reply.status));
                }
                self.progress.stage = Stage::BuildProgram;
                self.progress.program = reply.value;
                Step::Issue(Command::BuildProgram { program: reply.value, device: p.device })
            },
            Stage::BuildProgram => {
                self.progress.stage = Stage::BuildLogSize;
                self.progress.build_status = reply.status;
                Step::Issue(Command::BuildLogSize { program: p.program, device: p.device })
            },
            Stage::BuildLogSize => {
                if !ok {
                    return self.fail(error_of_status(reply.status));
                }
                self.progress.stage = Stage::BuildLog;
                Step::Issue(
                    Command::BuildLog { program: p.program, device: p.device, size: reply.value },
                )
            },
            Stage::BuildLog => {
                if !ok {
                    return self.fail(error_of_status(reply.status));
                }
                if p.build_status != CL_SUCCESS {
                    return self.fail(Error::BuildFailure { log: reply.text });
                }
                self.progress.stage = Stage::Done;
                Step::Ready {
                    dev: Accel::new(p.context, p.device, p.program, p.queue),
                    log: reply.text,
                }
            },
            Stage::Done => self.fail(Error::DeviceUnavailable),
        }
    }
}

} // verus!
