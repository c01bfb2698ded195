//! The server: what it starts with, and the thread that starts and stops its workers.

use crate::packet::NtpServerState;
use vstd::prelude::*;
use vstd::string::StringExecFns;

verus! {

/// How long the supervisor sleeps between two looks for a stop signal.
pub const SUPERVISOR_MILLIS: u64 = 100;

/// A server whose sockets are bound.
#[derive(Debug)]
pub struct NtpServer {
    /// The state that its workers share.
    pub state: NtpServerState,
    /// How many sockets it serves, each by a worker of its own.
    pub sockets: u32,
    pub debug: bool,
}

/// What to tell the user when `addr` could not be bound.
pub open spec fn bind_failure(addr: Seq<char>, error: Seq<char>) -> Seq<char> {
    "UDP 绑定 "@ + addr + " 失败: "@ + error + " (提示: Unix系统小于1024端口需要管理员权限)"@
}

impl NtpServer {
    /// The server on `addr`, where `bound` says whether the socket could be bound, and if not,
    /// why.
    pub fn new(addr: String, bound: Result<(), String>, debug: bool) -> (result: Result<
        NtpServer,
        String,
    >)
        ensures
            match bound {
                Ok(_) => result == Ok::<NtpServer, String>(
                    (NtpServer { state: NtpServerState::initial(), sockets: 1, debug }),
                ),
                Err(error) => result matches Err(message) && message@ == bind_failure(
                    addr@,
                    error@,
                ),
            },
    {
        match bound {
            Ok(_) => Ok(NtpServer { state: NtpServerState::initial(), sockets: 1, debug }),
            Err(error) => {
                let mut message: String = "UDP 绑定 ".to_string();
                message.append(addr.as_str());
                message.append(" 失败: ");
                message.append(error.as_str());
                message.append(" (提示: Unix系统小于1024端口需要管理员权限)");
                Err(message)
            },
        }
    }

    /// The supervisor of the server, at its first task.
    pub fn run(&self) -> (supervisor: Supervisor)
        ensures
            supervisor == (Supervisor { sockets: self.sockets, task: first_task(self.sockets) }),
    {
        if self.sockets > 0 {
            Supervisor {
                sockets: self.sockets,
                task: SupervisorTask::Spawn { socket: 0, thread_id: 1 },
            }
        } else {
            Supervisor { sockets: self.sockets, task: SupervisorTask::PollStop }
        }
    }
}

/// What a supervisor is waiting for.
#[derive(Debug, Copy, Clone, PartialEq, Eq, Structural)]
pub enum SupervisorTask {
    /// Start a worker for a socket.
    Spawn { socket: u32, thread_id: u32 },
    /// See whether a stop signal has arrived.
    PollStop,
    /// Let time pass.
    Sleep { millis: u64 },
    /// Tell a worker to stop.
    SignalStop { worker: u32 },
    /// Wait for a worker to end.
    Join { worker: u32 },
    /// Return: all is over.
    Return,
}

/// The outcome of a supervisor's task.
#[derive(Debug, Copy, Clone, PartialEq, Eq, Structural)]
pub enum SupervisorEvent {
    /// Whether a stop signal had arrived.
    Stop(bool),
    /// The task was carried out.
    Done,
}

/// The thread that starts the workers, waits for the stop signal and hands it on.
#[derive(Debug, Copy, Clone, PartialEq, Eq, Structural)]
pub struct Supervisor {
    pub sockets: u32,
    pub task: SupervisorTask,
}

pub open spec fn first_task(sockets: u32) -> SupervisorTask {
    if sockets > 0 {
        SupervisorTask::Spawn { socket: 0, thread_id: 1 }
    } else {
        SupervisorTask::PollStop
    }
}

impl Supervisor {
    /// What the supervisor turns to after `event`. An event that is no outcome of its task
    /// changes nothing.
    pub open spec fn next_task(self, event: SupervisorEvent) -> SupervisorTask {
        match (self.task, event) {
            (SupervisorTask::Spawn { socket, .. }, SupervisorEvent::Done) => if socket + 1
                < self.sockets {
                SupervisorTask::Spawn {
                    socket: (socket + 1) as u32,
                    thread_id: (socket + 2) as u32,
                }
            } else {
                SupervisorTask::PollStop
            },
            (SupervisorTask::PollStop, SupervisorEvent::Stop(false)) => SupervisorTask::Sleep {
                millis: SUPERVISOR_MILLIS,
            },
            (SupervisorTask::PollStop, SupervisorEvent::Stop(true)) => if self.sockets > 0 {
                SupervisorTask::SignalStop { worker: 0 }
            } else {
                SupervisorTask::Return
            },
            (SupervisorTask::Sleep { .. }, SupervisorEvent::Done) => SupervisorTask::PollStop,
            (SupervisorTask::SignalStop { worker }, SupervisorEvent::Done) => if worker + 1
                < self.sockets {
                SupervisorTask::SignalStop { worker: (worker + 1) as u32 }
            } else {
                SupervisorTask::Join { worker: 0 }
            },
            (SupervisorTask::Join { worker }, SupervisorEvent::Done) => if worker + 1
                < self.sockets {
                SupervisorTask::Join { worker: (worker + 1) as u32 }
            } else {
                SupervisorTask::Return
            },
            _ => self.task,
        }
    }

    pub open spec fn after(self, event: SupervisorEvent) -> Supervisor {
        Supervisor { task: self.next_task(event), ..self }
    }

    /// The supervisor after it has carried out `n` tasks.
    pub open spec fn after_done(self, n: nat) -> Supervisor
        decreases n,
    {
        if n == 0 {
            self
        } else {
            self.after_done((n - 1) as nat).after(SupervisorEvent::Done)
        }
    }

    /// The supervisor after a run of events.
    pub open spec fn after_all(self, events: Seq<SupervisorEvent>) -> Supervisor
        decreases events.len(),
    {
        if events.len() == 0 {
            self
        } else {
            self.after_all(events.drop_last()).after(events.last())
        }
    }

    /// Whether the supervisor is still starting workers or waiting for a stop signal.
    pub open spec fn before_stop(self) -> bool {
        self.task is Spawn || self.task is PollStop || self.task is Sleep
    }

    /// Takes the outcome of the supervisor's task and gives it the next one.
    pub fn step(&mut self, event: SupervisorEvent)
        ensures
            *final(self) == old(self).after(event),
    {
        let sockets: u32 = self.sockets;
        match event {
            SupervisorEvent::Stop(stop) => {
                if let SupervisorTask::PollStop = self.task {
                    self.task = if !stop {
                        SupervisorTask::Sleep { millis: SUPERVISOR_MILLIS }
                    } else if sockets > 0 {
                        SupervisorTask::SignalStop { worker: 0 }
                    } else {
                        SupervisorTask::Return
                    };
                }
            },
            SupervisorEvent::Done => {
                self.task = match self.task {
                    SupervisorTask::Spawn { socket, .. } => if socket < sockets && socket + 1
                        < sockets {
                        SupervisorTask::Spawn { socket: socket + 1, thread_id: socket + 2 }
                    } else {
                        SupervisorTask::PollStop
                    },
                    SupervisorTask::Sleep { .. } => SupervisorTask::PollStop,
                    SupervisorTask::SignalStop { worker } => if worker < sockets && worker + 1
                        < sockets {
                        SupervisorTask::SignalStop { worker: worker + 1 }
                    } else {
                        SupervisorTask::Join { worker: 0 }
                    },
                    SupervisorTask::Join { worker } => if worker < sockets && worker + 1
                        < sockets {
                        SupervisorTask::Join { worker: worker + 1 }
                    } else {
                        SupervisorTask::Return
                    },
                    task => task,
                };
            },
        }
    }
}

/// The supervisor starts one worker for each socket, in order and numbered from 1, before it
/// looks for a stop signal.
pub proof fn law_workers_are_started(server: NtpServer, n: nat)
    requires
        n <= server.sockets,
    ensures
        ({
            let start = Supervisor { sockets: server.sockets, task: first_task(server.sockets) };
            start.after_done(n).task == if n < server.sockets {
                SupervisorTask::Spawn { socket: n as u32, thread_id: (n + 1) as u32 }
            } else {
                SupervisorTask::PollStop
            }
        }),
    decreases n,
{
    if n > 0 {
        lemma_sockets_kept(
            Supervisor { sockets: server.sockets, task: first_task(server.sockets) },
            (n - 1) as nat,
        );
        law_workers_are_started(server, (n - 1) as nat);
    }
}

proof fn lemma_sockets_kept(supervisor: Supervisor, n: nat)
    ensures
        supervisor.after_done(n).sockets == supervisor.sockets,
    decreases n,
{
    if n > 0 {
        lemma_sockets_kept(supervisor, (n - 1) as nat);
    }
}

/// Without a stop signal the supervisor neither stops a worker nor returns, whatever else
/// happens and however long.
pub proof fn law_only_stop_ends_the_server(server: NtpServer, events: Seq<SupervisorEvent>)
    requires
        forall|i: int| 0 <= i < events.len() ==> events[i] != SupervisorEvent::Stop(true),
    ensures
        (Supervisor { sockets: server.sockets, task: first_task(server.sockets) }).after_all(
            events,
        ).before_stop(),
    decreases events.len(),
{
    if events.len() > 0 {
        assert(events.last() != SupervisorEvent::Stop(true));
        law_only_stop_ends_the_server(server, events.drop_last());
    }
}

/// A supervisor that has returned stays so, whatever happens.
pub proof fn law_return_is_final(supervisor: Supervisor, events: Seq<SupervisorEvent>)
    requires
        supervisor.task == SupervisorTask::Return,
    ensures
        supervisor.after_all(events) == supervisor,
    decreases events.len(),
{
    if events.len() > 0 {
        law_return_is_final(supervisor, events.drop_last());
    }
}

/// Without a stop signal the supervisor sleeps a tenth of a second and looks again.
pub proof fn law_supervisor_keeps_looking(supervisor: Supervisor)
    requires
        supervisor.task == SupervisorTask::PollStop,
    ensures
        supervisor.after(SupervisorEvent::Stop(false)).task == (SupervisorTask::Sleep {
            millis: 100,
        }),
        supervisor.after(SupervisorEvent::Stop(false)).after(SupervisorEvent::Done) == supervisor,
{
}

/// After a stop signal every worker is told to stop before the first one is waited for, every
/// worker is waited for, and only then is it over.
pub proof fn law_workers_are_stopped(supervisor: Supervisor, n: nat)
    requires
        supervisor.task == SupervisorTask::PollStop,
    ensures
        ({
            let sockets = supervisor.sockets;
            supervisor.after(SupervisorEvent::Stop(true)).after_done(n).task == if n < sockets {
                SupervisorTask::SignalStop { worker: n as u32 }
            } else if n < 2 * sockets {
                SupervisorTask::Join { worker: (n - sockets) as u32 }
            } else {
                SupervisorTask::Return
            }
        }),
    decreases n,
{
    let stopping = supervisor.after(SupervisorEvent::Stop(true));
    if n > 0 {
        lemma_sockets_kept(stopping, (n - 1) as nat);
        law_workers_are_stopped(supervisor, (n - 1) as nat);
    }
}

/// The sockets stay the same whatever happens, and an event that is no outcome of the
/// supervisor's task changes nothing: a stop signal counts only where it is looked for.
pub proof fn law_stray_events_change_nothing(supervisor: Supervisor, event: SupervisorEvent)
    ensures
        supervisor.after(event).sockets == supervisor.sockets,
        event is Stop && supervisor.task != SupervisorTask::PollStop ==> supervisor.after(event)
            == supervisor,
        event is Done && (supervisor.task == SupervisorTask::PollStop || supervisor.task
            == SupervisorTask::Return) ==> supervisor.after(event) == supervisor,
{
}

/// A failure to bind is told with the address and the reason, word for word and in this order,
/// between three fixed texts.
pub proof fn law_bind_failure_names_address_and_reason(addr: Seq<char>, error: Seq<char>)
    ensures
        ({
            let text = bind_failure(addr, error);
            let a = "UDP 绑定 "@.len() as int;
            let b = a + addr.len();
            let c = b + " 失败: "@.len();
            let d = c + error.len();
            &&& text.subrange(0, a) == "UDP 绑定 "@
            &&& text.subrange(a, b) == addr
            &&& text.subrange(b, c) == " 失败: "@
            &&& text.subrange(c, d) == error
            &&& text.skip(d) == " (提示: Unix系统小于1024端口需要管理员权限)"@
        }),
{
    let text = bind_failure(addr, error);
    let a = "UDP 绑定 "@.len() as int;
    let b = a + addr.len();
    let c = b + " 失败: "@.len();
    let d = c + error.len();
    assert(text.subrange(0, a) =~= "UDP 绑定 "@);
    assert(text.subrange(a, b) =~= addr);
    assert(text.subrange(b, c) =~= " 失败: "@);
    assert(text.subrange(c, d) =~= error);
    assert(text.skip(d) =~= " (提示: Unix系统小于1024端口需要管理员权限)"@);
}

} // verus!
