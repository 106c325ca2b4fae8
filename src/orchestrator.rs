use vstd::prelude::*;
use crate::failure::{build_step, process_result, Failure, ProcessOutcome};
use crate::plan::{
    find_container, find_image, plan, resolve, some_container_matches, some_image_matches,
    Action, ContainerDescriptor, ImageDescriptor, Step,
};

verus! {

/// Where an invocation stands between two events.
#[derive(Clone, PartialEq, Eq, Debug)]
pub enum Phase {
    /// The runtime was asked for its containers.
    ListingContainers,
    /// The runtime was asked for its images.
    ListingImages,
    /// The action at `pos` of the plan was handed out.
    Working,
    /// The process of the action at `pos` was started and is being awaited.
    AwaitingExit,
    /// A database failure (kept here) is waiting for the launched container to be killed.
    Compensating(String),
    /// The invocation has reported its outcome.
    Finished,
}

/// What the host reports back after carrying out a command.
#[derive(Clone, Debug)]
pub enum Event {
    /// The containers the runtime lists.
    Containers(Vec<ContainerDescriptor>),
    /// The images the runtime lists.
    Images(Vec<ImageDescriptor>),
    /// Listing containers or images failed.
    ListFailed(String),
    /// The build or launch process was started.
    Started,
    /// How the build or launch process went.
    Process(ProcessOutcome),
    /// The settle delay, connect or batch finished without error.
    Completed,
    /// Connecting or running a batch failed.
    DatabaseFailed(String),
    /// The launched container was terminated.
    Killed,
    /// Terminating the launched container failed.
    KillFailed(String),
}

/// What the host is asked to do next.
#[derive(PartialEq, Eq, Debug)]
pub enum Command {
    ListContainers,
    ListImages,
    /// Carry out an action of the plan. For `BuildImage` and `LaunchContainer`
    /// the host starts the process and reports `Started`.
    Perform(Action),
    /// Wait for the process just started to end.
    AwaitExit,
    /// Terminate the container launched by this invocation.
    Kill,
    /// The invocation is over, with this outcome.
    Finish(Result<(), Failure>),
}

/// The decisions of one bootstrap invocation, driven one event at a time.
pub struct Orchestrator {
    pub step: Step,
    /// The container runtime's program, named in `Exit` failures.
    pub command: String,
    /// The target image name.
    pub image_name: String,
    pub image_present: bool,
    pub container_running: bool,
    /// A container was launched by this invocation.
    pub launched: bool,
    /// Index of the current action in the plan.
    pub pos: usize,
    pub phase: Phase,
}

pub open spec fn plan_of(s: Orchestrator) -> Seq<Action> {
    plan(s.step, s.image_present, s.container_running)
}

pub open spec fn current_action(s: Orchestrator) -> Option<Action> {
    if s.pos < plan_of(s).len() {
        Some(plan_of(s)[s.pos as int])
    } else {
        None
    }
}

pub open spec fn finish(s: Orchestrator, out: Result<(), Failure>) -> (Orchestrator, Command) {
    (Orchestrator { phase: Phase::Finished, ..s }, Command::Finish(out))
}

/// Hands out the action at `pos`, or reports success past the plan's end.
pub open spec fn begin(s: Orchestrator, pos: int) -> (Orchestrator, Command) {
    if pos < plan_of(s).len() {
        (Orchestrator { pos: pos as usize, phase: Phase::Working, ..s }, Command::Perform(plan_of(s)[pos]))
    } else {
        finish(s, Ok(()))
    }
}

pub open spec fn after_process(s: Orchestrator, o: ProcessOutcome) -> (Orchestrator, Command) {
    match process_result(o, s.command) {
        Ok(()) => begin(s, s.pos + 1),
        Err(f) => finish(s, Err(f)),
    }
}

/// Whether a started process is awaited before the plan moves on: a build
/// always is, and a launch when the step is `Run`.
pub open spec fn awaits_exit(step: Step, a: Action) -> bool {
    a == Action::BuildImage || step == Step::Run
}

pub open spec fn initial(step: Step, command: String, image_name: String) -> (Orchestrator, Command) {
    let s = Orchestrator {
        step,
        command,
        image_name,
        image_present: false,
        container_running: false,
        launched: false,
        pos: 0,
        phase: Phase::ListingContainers,
    };
    match step {
        Step::Build => begin(s, 0),
        Step::Run => (Orchestrator { phase: Phase::ListingImages, ..s }, Command::ListImages),
        _ => (s, Command::ListContainers),
    }
}

pub open spec fn transition(s: Orchestrator, e: Event) -> (Orchestrator, Command) {
    match s.phase {
        Phase::ListingContainers => match e {
            Event::Containers(cs) => if some_container_matches(cs@, s.image_name@) {
                begin(Orchestrator { container_running: true, ..s }, 0)
            } else {
                (Orchestrator { phase: Phase::ListingImages, ..s }, Command::ListImages)
            },
            Event::ListFailed(m) => finish(s, Err(Failure::Runtime(m))),
            _ => finish(s, Err(Failure::Unknown)),
        },
        Phase::ListingImages => match e {
            Event::Images(is) => begin(
                Orchestrator { image_present: some_image_matches(is@, s.image_name@), ..s },
                0,
            ),
            Event::ListFailed(m) => finish(s, Err(Failure::Runtime(m))),
            _ => finish(s, Err(Failure::Unknown)),
        },
        Phase::Working => match current_action(s) {
            None => finish(s, Err(Failure::Unknown)),
            Some(a) => if a == Action::BuildImage || a == Action::LaunchContainer {
                match e {
                    Event::Started => {
                        let s2 = Orchestrator { launched: s.launched || a == Action::LaunchContainer, ..s };
                        if awaits_exit(s.step, a) {
                            (Orchestrator { phase: Phase::AwaitingExit, ..s2 }, Command::AwaitExit)
                        } else {
                            begin(s2, s.pos + 1)
                        }
                    },
                    Event::Process(o) => after_process(s, o),
                    _ => finish(s, Err(Failure::Unknown)),
                }
            } else {
                match e {
                    Event::Completed => begin(s, s.pos + 1),
                    Event::DatabaseFailed(m) => if s.launched {
                        (Orchestrator { phase: Phase::Compensating(m), ..s }, Command::Kill)
                    } else {
                        finish(s, Err(Failure::Database(m)))
                    },
                    _ => finish(s, Err(Failure::Unknown)),
                }
            },
        },
        Phase::AwaitingExit => match e {
            Event::Process(o) => if current_action(s) is Some {
                after_process(s, o)
            } else {
                finish(s, Err(Failure::Unknown))
            },
            _ => finish(s, Err(Failure::Unknown)),
        },
        Phase::Compensating(m) => match e {
            Event::Killed => finish(s, Err(Failure::Database(m))),
            Event::KillFailed(k) => finish(s, Err(Failure::Compensation { database: m, cleanup: k })),
            _ => finish(s, Err(Failure::Unknown)),
        },
        Phase::Finished => finish(s, Err(Failure::Unknown)),
    }
}

/// The commands issued while the host reports `events` one after another.
pub open spec fn drive(s: Orchestrator, events: Seq<Event>) -> Seq<Command>
    decreases events.len(),
{
    if events.len() == 0 {
        Seq::empty()
    } else {
        let (s2, c) = transition(s, events[0]);
        seq![c] + drive(s2, events.drop_first())
    }
}

/// All commands of an invocation of `step` whose host reports `events`.
pub open spec fn session(step: Step, command: String, image_name: String, events: Seq<Event>) -> Seq<Command> {
    let (s, c) = initial(step, command, image_name);
    seq![c] + drive(s, events)
}

/// Every plan has at most six actions.
pub proof fn lemma_plan_short(step: Step, image_present: bool, container_running: bool)
    ensures
        plan(step, image_present, container_running).len() <= 6,
{
}

impl Orchestrator {
    /// Starts an invocation of `step` against the image `image_name`, with
    /// `command` the runtime's program; returns the first command.
    pub fn start(step: Step, command: String, image_name: String) -> (r: (Orchestrator, Command))
        ensures
            r == initial(step, command, image_name),
    {
        let s = Orchestrator {
            step,
            command,
            image_name,
            image_present: false,
            container_running: false,
            launched: false,
            pos: 0,
            phase: Phase::ListingContainers,
        };
        match step {
            Step::Build => s.begin(0),
            Step::Run => (Orchestrator { phase: Phase::ListingImages, ..s }, Command::ListImages),
            _ => (s, Command::ListContainers),
        }
    }

    /// The action at `pos` of the plan, if the plan is that long.
    pub fn current_action(&self) -> (r: Option<Action>)
        ensures
            r == current_action(*self),
    {
        let p = resolve(self.step, self.image_present, self.container_running);
        if self.pos < p.len() {
            Some(p[self.pos])
        } else {
            None
        }
    }

    fn finish(self, out: Result<(), Failure>) -> (r: (Orchestrator, Command))
        ensures
            r == finish(self, out),
    {
        (Orchestrator { phase: Phase::Finished, ..self }, Command::Finish(out))
    }

    fn begin(self, pos: usize) -> (r: (Orchestrator, Command))
        ensures
            r == begin(self, pos as int),
    {
        let p = resolve(self.step, self.image_present, self.container_running);
        if pos < p.len() {
            let a = p[pos];
            (Orchestrator { pos, phase: Phase::Working, ..self }, Command::Perform(a))
        } else {
            self.finish(Ok(()))
        }
    }

    fn after_process(self, o: ProcessOutcome) -> (r: (Orchestrator, Command))
        requires
            current_action(self) is Some,
        ensures
            r == after_process(self, o),
    {
        proof {
            lemma_plan_short(self.step, self.image_present, self.container_running);
        }
        match build_step(o, &self.command) {
            Ok(()) => {
                let next = self.pos + 1;
                self.begin(next)
            },
            Err(f) => self.finish(Err(f)),
        }
    }

    /// Takes the host's report on the last command and decides the next one.
    pub fn handle(self, e: Event) -> (r: (Orchestrator, Command))
        ensures
            r == transition(self, e),
    {
        proof {
            lemma_plan_short(self.step, self.image_present, self.container_running);
        }
        match &self.phase {
            Phase::ListingContainers => match e {
                Event::Containers(cs) => if find_container(&cs, &self.image_name) {
                    Orchestrator { container_running: true, ..self }.begin(0)
                } else {
                    (Orchestrator { phase: Phase::ListingImages, ..self }, Command::ListImages)
                },
                Event::ListFailed(m) => self.finish(Err(Failure::Runtime(m))),
                _ => self.finish(Err(Failure::Unknown)),
            },
            Phase::ListingImages => match e {
                Event::Images(is) => {
                    let present = find_image(&is, &self.image_name);
                    Orchestrator { image_present: present, ..self }.begin(0)
                },
                Event::ListFailed(m) => self.finish(Err(Failure::Runtime(m))),
                _ => self.finish(Err(Failure::Unknown)),
            },
            Phase::Working => match self.current_action() {
                None => self.finish(Err(Failure::Unknown)),
                Some(a) => if a == Action::BuildImage || a == Action::LaunchContainer {
                    match e {
                        Event::Started => {
                            let launched = self.launched || a == Action::LaunchContainer;
                            let next = self.pos + 1;
                            if a == Action::BuildImage || self.step == Step::Run {
                                (Orchestrator { launched, phase: Phase::AwaitingExit, ..self }, Command::AwaitExit)
                            } else {
                                Orchestrator { launched, ..self }.begin(next)
                            }
                        },
                        Event::Process(o) => self.after_process(o),
                        _ => self.finish(Err(Failure::Unknown)),
                    }
                } else {
                    match e {
                        Event::Completed => {
                            let next = self.pos + 1;
                            self.begin(next)
                        },
                        Event::DatabaseFailed(m) => if self.launched {
                            (Orchestrator { phase: Phase::Compensating(m), ..self }, Command::Kill)
                        } else {
                            self.finish(Err(Failure::Database(m)))
                        },
                        _ => self.finish(Err(Failure::Unknown)),
                    }
                },
            },
            Phase::AwaitingExit => match e {
                Event::Process(o) => if self.current_action().is_some() {
                    self.after_process(o)
                } else {
                    self.finish(Err(Failure::Unknown))
                },
                _ => self.finish(Err(Failure::Unknown)),
            },
            Phase::Compensating(m) => {
                let database = m.clone();
                match e {
                    Event::Killed => self.finish(Err(Failure::Database(database))),
                    Event::KillFailed(k) => self.finish(Err(Failure::Compensation { database, cleanup: k })),
                    _ => self.finish(Err(Failure::Unknown)),
                }
            },
            Phase::Finished => self.finish(Err(Failure::Unknown)),
        }
    }
}

} // verus!
