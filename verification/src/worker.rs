//! The thread that serves one socket, as a state machine.
//!
//! A worker always has one task. Whoever runs it carries the task out and hands the outcome
//! to [`Worker::step`], which gives the worker its next task.

use crate::address::RemoteAddr;
use crate::packet::{
    law_client_reads_reply, law_parse_of_wire, law_received_packets_fit, parsed, received,
    NtpPacket, NtpServerState, ReceiveError, RecvOutcome,
};
use crate::text::{decimal, decimal_text};
use crate::timestamp::{over_tenth_apart, NtpTimestamp};
use vstd::prelude::*;
use vstd::string::StringExecFns;

verus! {

/// How long to sleep when no datagram was waiting.
pub const IDLE_MILLIS: u64 = 10;

/// How long to sleep after a datagram or a socket that was no good.
pub const FAILURE_MILLIS: u64 = 5;

/// What a worker is waiting for.
#[derive(Debug)]
pub enum WorkerTask {
    /// See whether a stop signal has arrived.
    PollStop,
    /// Take a datagram off the socket.
    Receive,
    /// Read the server's shared state, to answer `request`.
    ReadState { request: NtpPacket },
    /// Read the clock, to answer `request`.
    ReadClock { request: NtpPacket },
    /// Send the reply.
    Send { reply: NtpPacket },
    /// Print that a reply could not be sent.
    Report { error: String },
    /// Let time pass.
    Sleep { millis: u64 },
    /// End the thread.
    Exit,
}

/// The outcome of a task.
#[derive(Debug)]
pub enum WorkerEvent {
    /// Whether a stop signal had arrived.
    Stop(bool),
    Received(RecvOutcome),
    State(NtpServerState),
    Clock(NtpTimestamp),
    /// Nothing, or why sending failed.
    Sent(Option<String>),
    /// Printing or sleeping is over.
    Done,
}

/// A worker with its own copy of the server's state.
#[derive(Debug)]
pub struct Worker {
    pub thread_id: u32,
    pub debug: bool,
    /// When the copy was last refreshed.
    pub last_update: NtpTimestamp,
    pub cached_state: NtpServerState,
    pub task: WorkerTask,
}

impl Worker {
    /// A worker about to look for a stop signal, with the state it read at `last_update`.
    pub fn new(
        thread_id: u32,
        debug: bool,
        last_update: NtpTimestamp,
        cached_state: NtpServerState,
    ) -> (worker: Worker)
        ensures
            worker == (Worker {
                thread_id,
                debug,
                last_update,
                cached_state,
                task: WorkerTask::PollStop,
            }),
            worker.consistent(),
    {
        Worker { thread_id, debug, last_update, cached_state, task: WorkerTask::PollStop }
    }

    pub open spec fn with_task(self, task: WorkerTask) -> Worker {
        Worker { task, ..self }
    }

    /// With a state that is fresh enough: a request is answered, any other packet dropped.
    pub open spec fn answering(self, request: NtpPacket) -> Worker {
        if request.is_request() {
            self.with_task(WorkerTask::ReadClock { request })
        } else {
            self.with_task(WorkerTask::PollStop)
        }
    }

    /// After waiting for a datagram. A packet that came more than a tenth of a second away
    /// from the last refresh calls for another one.
    pub open spec fn after_receive(self, outcome: RecvOutcome) -> Worker {
        match received(outcome) {
            Ok(request) => if over_tenth_apart(request.local_ts, self.last_update) {
                self.with_task(WorkerTask::ReadState { request })
            } else {
                self.answering(request)
            },
            Err(ReceiveError::WouldBlock) => self.with_task(
                WorkerTask::Sleep { millis: IDLE_MILLIS },
            ),
            Err(_) => self.with_task(WorkerTask::Sleep { millis: FAILURE_MILLIS }),
        }
    }

    /// After an attempt to send.
    pub open spec fn after_send(self, failure: Option<String>) -> Worker {
        match failure {
            Some(error) if self.debug => self.with_task(WorkerTask::Report { error }),
            _ => self.with_task(WorkerTask::PollStop),
        }
    }

    /// The worker after `event`. An event that is no outcome of its task changes nothing.
    pub open spec fn after(self, event: WorkerEvent) -> Worker {
        match (self.task, event) {
            (WorkerTask::PollStop, WorkerEvent::Stop(true)) => self.with_task(WorkerTask::Exit),
            (WorkerTask::PollStop, WorkerEvent::Stop(false)) => self.with_task(
                WorkerTask::Receive,
            ),
            (WorkerTask::Receive, WorkerEvent::Received(outcome)) => self.after_receive(outcome),
            (WorkerTask::ReadState { request }, WorkerEvent::State(state)) => Worker {
                cached_state: state,
                last_update: request.local_ts,
                ..self
            }.answering(request),
            (WorkerTask::ReadClock { request }, WorkerEvent::Clock(now)) => if request.is_request() {
                self.with_task(
                    WorkerTask::Send { reply: request.response(self.cached_state, now) },
                )
            } else {
                self.with_task(WorkerTask::PollStop)
            },
            (WorkerTask::Send { .. }, WorkerEvent::Sent(failure)) => self.after_send(failure),
            (WorkerTask::Report { .. }, WorkerEvent::Done) => self.with_task(WorkerTask::PollStop),
            (WorkerTask::Sleep { .. }, WorkerEvent::Done) => self.with_task(WorkerTask::PollStop),
            _ => self,
        }
    }

    /// What holds of every worker: the packet it is about to answer came off the wire, is a
    /// request, and arrived within a tenth of a second of the last refresh; and what it sends
    /// is no request.
    pub open spec fn consistent(self) -> bool {
        match self.task {
            WorkerTask::ReadState { request } => {
                &&& request.fits()
                &&& 1 <= request.version <= 4
                &&& over_tenth_apart(request.local_ts, self.last_update)
            },
            WorkerTask::ReadClock { request } => {
                &&& request.fits()
                &&& 1 <= request.version <= 4
                &&& request.is_request()
                &&& !over_tenth_apart(request.local_ts, self.last_update)
            },
            WorkerTask::Send { reply } => {
                &&& reply.leap == self.cached_state.leap
                &&& 1 <= reply.version <= 4
                &&& reply.mode == 2 || reply.mode == 4
                &&& !reply.is_request()
                &&& !over_tenth_apart(reply.rx_ts, self.last_update)
            },
            _ => true,
        }
    }

    /// Takes the outcome of the worker's task and gives it the next one.
    pub fn step(self, event: WorkerEvent) -> (next: Worker)
        ensures
            next == self.after(event),
            self.consistent() ==> next.consistent(),
    {
        proof {
            if self.consistent() {
                law_worker_stays_consistent(self, event);
            }
        }
        let mut next: Worker = self;
        match event {
            WorkerEvent::Stop(stop) => {
                if let WorkerTask::PollStop = next.task {
                    next.task = if stop {
                        WorkerTask::Exit
                    } else {
                        WorkerTask::Receive
                    };
                }
            },
            WorkerEvent::Received(outcome) => {
                if let WorkerTask::Receive = next.task {
                    match NtpPacket::receive(outcome) {
                        Ok(request) => {
                            if request.local_ts.far_from(&next.last_update) {
                                next.task = WorkerTask::ReadState { request };
                            } else {
                                next.answer(request);
                            }
                        },
                        Err(ReceiveError::WouldBlock) => {
                            next.task = WorkerTask::Sleep { millis: IDLE_MILLIS };
                        },
                        Err(_) => {
                            next.task = WorkerTask::Sleep { millis: FAILURE_MILLIS };
                        },
                    }
                }
            },
            WorkerEvent::State(state) => {
                if let WorkerTask::ReadState { request } = next.task {
                    next.cached_state = state;
                    next.last_update = request.local_ts;
                    next.answer(request);
                }
            },
            WorkerEvent::Clock(now) => {
                if let WorkerTask::ReadClock { request } = next.task {
                    match request.make_response(&next.cached_state, now) {
                        Some(reply) => {
                            next.task = WorkerTask::Send { reply };
                        },
                        None => {
                            next.task = WorkerTask::PollStop;
                        },
                    }
                }
            },
            WorkerEvent::Sent(failure) => {
                if let WorkerTask::Send { .. } = next.task {
                    next.task = match failure {
                        Some(error) => if next.debug {
                            WorkerTask::Report { error }
                        } else {
                            WorkerTask::PollStop
                        },
                        None => WorkerTask::PollStop,
                    };
                }
            },
            WorkerEvent::Done => {
                match next.task {
                    WorkerTask::Report { .. } | WorkerTask::Sleep { .. } => {
                        next.task = WorkerTask::PollStop;
                    },
                    _ => {},
                }
            },
        }
        next
    }

    fn answer(&mut self, request: NtpPacket)
        ensures
            *final(self) == old(self).answering(request),
    {
        self.task = if request.is_request() {
            WorkerTask::ReadClock { request }
        } else {
            WorkerTask::PollStop
        };
    }

    /// What a worker prints when it could not send.
    pub fn failure_line(&self, error: &str) -> (line: String)
        ensures
            line@ == "Thread #"@ + decimal(self.thread_id as nat) + " failed to send response: "@
                + error@,
    {
        let mut line: String = "Thread #".to_string();
        line.append(decimal_text(self.thread_id).as_str());
        line.append(" failed to send response: ");
        line.append(error);
        line
    }
}

/// The worker after a run of events.
pub open spec fn run(worker: Worker, events: Seq<WorkerEvent>) -> Worker
    decreases events.len(),
{
    if events.len() == 0 {
        worker
    } else {
        run(worker, events.drop_last()).after(events.last())
    }
}

/// No event makes a consistent worker inconsistent.
pub proof fn law_worker_stays_consistent(worker: Worker, event: WorkerEvent)
    requires
        worker.consistent(),
    ensures
        worker.after(event).consistent(),
        worker.after(event).thread_id == worker.thread_id,
        worker.after(event).debug == worker.debug,
{
    if let WorkerEvent::Received(outcome) = event {
        law_received_packets_fit(outcome);
    }
}

/// A worker is consistent after every run of events.
pub proof fn law_workers_are_consistent(worker: Worker, events: Seq<WorkerEvent>)
    requires
        worker.consistent(),
    ensures
        run(worker, events).consistent(),
    decreases events.len(),
{
    if events.len() > 0 {
        law_workers_are_consistent(worker, events.drop_last());
        law_worker_stays_consistent(run(worker, events.drop_last()), events.last());
    }
}

/// A worker that was told to stop does nothing more, whatever happens.
pub proof fn law_stop_is_final(worker: Worker, events: Seq<WorkerEvent>)
    requires
        worker.task == WorkerTask::PollStop,
    ensures
        run(worker.after(WorkerEvent::Stop(true)), events) == worker.with_task(WorkerTask::Exit),
    decreases events.len(),
{
    if events.len() > 0 {
        law_stop_is_final(worker, events.drop_last());
    }
}

/// Only a stop signal ends a worker: it lives through every run of events without one.
pub proof fn law_only_stop_ends(worker: Worker, events: Seq<WorkerEvent>)
    requires
        worker.task != WorkerTask::Exit,
        forall|i: int| 0 <= i < events.len() ==> events[i] != WorkerEvent::Stop(true),
    ensures
        run(worker, events).task != WorkerTask::Exit,
    decreases events.len(),
{
    if events.len() > 0 {
        assert(events.last() != WorkerEvent::Stop(true));
        law_only_stop_ends(worker, events.drop_last());
    }
}

/// A waiting worker answers every request that comes, with the state that it had or read for
/// the purpose and the time it was given.
pub proof fn law_requests_are_answered(
    worker: Worker,
    outcome: RecvOutcome,
    state: NtpServerState,
    now: NtpTimestamp,
)
    requires
        worker.task == WorkerTask::Receive,
        received(outcome) matches Ok(request) && request.is_request(),
    ensures
        ({
            let request = received(outcome)->Ok_0;
            let asked = worker.after(WorkerEvent::Received(outcome));
            if over_tenth_apart(request.local_ts, worker.last_update) {
                &&& asked == worker.with_task(WorkerTask::ReadState { request })
                &&& asked.after(WorkerEvent::State(state)).cached_state == state
                &&& asked.after(WorkerEvent::State(state)).last_update == request.local_ts
                &&& asked.after(WorkerEvent::State(state)).after(WorkerEvent::Clock(now)).task
                    == WorkerTask::Send { reply: request.response(state, now) }
            } else {
                asked.after(WorkerEvent::Clock(now)) == worker.with_task(
                    WorkerTask::Send { reply: request.response(worker.cached_state, now) },
                )
            }
        }),
{
}

/// A client's request that reaches a worker is answered to the client's address; and where the
/// server's state is the one it starts with, the client finds what it needs to believe the
/// reply: a server's mode, its own transmit time, a stratum and a leap indicator of a
/// synchronized clock, and the time of the reply.
pub proof fn law_local_server_satisfies_clients(
    worker: Worker,
    question: NtpPacket,
    bytes: Vec<u8>,
    client: RemoteAddr,
    came: NtpTimestamp,
    now: NtpTimestamp,
    server: RemoteAddr,
    arrival: NtpTimestamp,
)
    requires
        worker.task == WorkerTask::Receive,
        worker.cached_state == NtpServerState::initial(),
        question.fits(),
        question.mode == 3,
        1 <= question.version <= 4,
        bytes@ == question.wire(),
    ensures
        ({
            let outcome = RecvOutcome::Datagram { bytes, remote_addr: client, local_ts: came };
            let asked = worker.after(WorkerEvent::Received(outcome));
            let fresh = if asked.task is ReadState {
                asked.after(WorkerEvent::State(NtpServerState::initial()))
            } else {
                asked
            };
            let answered = fresh.after(WorkerEvent::Clock(now));
            &&& answered.task matches WorkerTask::Send { reply }
            &&& reply.remote_addr == client
            &&& ({
                let seen = parsed(reply.wire(), server, arrival);
                &&& seen.mode == 4
                &&& seen.version == question.version
                &&& seen.orig_ts == question.tx_ts
                &&& seen.rx_ts == came
                &&& seen.tx_ts == now
                &&& seen.stratum == 1
                &&& seen.leap == 0
            })
        }),
{
    let outcome = RecvOutcome::Datagram { bytes, remote_addr: client, local_ts: came };
    let request = NtpPacket { remote_addr: client, local_ts: came, ..question };
    law_parse_of_wire(request);
    assert(received(outcome) == Ok::<NtpPacket, ReceiveError>(request));
    law_client_reads_reply(outcome, NtpServerState::initial(), now, server, arrival);
}

/// Packets that ask for nothing, bad datagrams, an empty socket and a failing one cost at most
/// a pause: the worker comes back for more with the state it had, or, after a packet, with the
/// state that it read.
pub proof fn law_the_rest_is_passed_over(
    worker: Worker,
    outcome: RecvOutcome,
    state: NtpServerState,
)
    requires
        worker.task == WorkerTask::Receive,
        received(outcome) matches Ok(request) ==> !request.is_request(),
    ensures
        ({
            let next = worker.after(WorkerEvent::Received(outcome));
            let resumed = worker.with_task(WorkerTask::PollStop);
            match received(outcome) {
                Ok(request) => if over_tenth_apart(request.local_ts, worker.last_update) {
                    next.after(WorkerEvent::State(state)) == Worker {
                        cached_state: state,
                        last_update: request.local_ts,
                        ..resumed
                    }
                } else {
                    next == resumed
                },
                Err(error) => {
                    &&& next.task == WorkerTask::Sleep {
                        millis: if error is WouldBlock {
                            10
                        } else {
                            5
                        },
                    }
                    &&& next.after(WorkerEvent::Done) == resumed
                },
            }
        }),
{
}

/// The requests that a worker takes off its socket in a run of events, in order.
pub open spec fn requests_taken(worker: Worker, events: Seq<WorkerEvent>) -> Seq<NtpPacket>
    decreases events.len(),
{
    if events.len() == 0 {
        Seq::empty()
    } else {
        let taken = requests_taken(worker, events.drop_last());
        match (run(worker, events.drop_last()).task, events.last()) {
            (WorkerTask::Receive, WorkerEvent::Received(outcome)) => match received(outcome) {
                Ok(request) if request.is_request() => taken.push(request),
                _ => taken,
            },
            _ => taken,
        }
    }
}

/// A reply, with the state and the time it was made from.
pub struct Answer {
    pub reply: NtpPacket,
    pub state: NtpServerState,
    pub now: NtpTimestamp,
}

/// The replies that a worker sets out to send in a run of events, in order.
pub open spec fn answers_given(worker: Worker, events: Seq<WorkerEvent>) -> Seq<Answer>
    decreases events.len(),
{
    if events.len() == 0 {
        Seq::empty()
    } else {
        let given = answers_given(worker, events.drop_last());
        let before = run(worker, events.drop_last());
        match (before.task, before.after(events.last()).task, events.last()) {
            (WorkerTask::Send { .. }, _, _) => given,
            (_, WorkerTask::Send { reply }, WorkerEvent::Clock(now)) => given.push(
                Answer { reply, state: before.cached_state, now },
            ),
            _ => given,
        }
    }
}

/// The request that a worker has taken and not yet answered, if there is one.
pub open spec fn owed(worker: Worker) -> Seq<NtpPacket> {
    match worker.task {
        WorkerTask::ReadState { request } => if request.is_request() {
            seq![request]
        } else {
            seq![]
        },
        WorkerTask::ReadClock { request } => seq![request],
        _ => seq![],
    }
}

/// A worker begins to send only when it is told the time.
pub proof fn law_sending_begins_with_the_clock(worker: Worker, event: WorkerEvent)
    requires
        !(worker.task is Send),
        worker.after(event).task is Send,
    ensures
        worker.task is ReadClock,
        event is Clock,
{
}

/// A worker sends one reply to every request it takes, in order, and none to anything else: its
/// first reply is the response to the first request it took, and so on, each to the sender of
/// its request; and all that it has taken it has answered, but for the one it is about to.
pub proof fn law_one_reply_per_request(worker: Worker, events: Seq<WorkerEvent>)
    requires
        worker.consistent(),
        owed(worker).len() == 0,
    ensures
        ({
            let requests = requests_taken(worker, events);
            let answers = answers_given(worker, events);
            let n = answers.len() as int;
            &&& n <= requests.len()
            &&& requests.skip(n) == owed(run(worker, events))
            &&& forall|i: int|
                0 <= i < n ==> {
                    let answer = #[trigger] answers[i];
                    &&& answer.reply == requests[i].response(answer.state, answer.now)
                    &&& answer.reply.remote_addr == requests[i].remote_addr
                    &&& answer.reply.orig_ts == requests[i].tx_ts
                }
        }),
    decreases events.len(),
{
    let requests = requests_taken(worker, events);
    let answers = answers_given(worker, events);
    if events.len() > 0 {
        let earlier = events.drop_last();
        law_one_reply_per_request(worker, earlier);
        law_workers_are_consistent(worker, earlier);
        let taken = requests_taken(worker, earlier);
        let given = answers_given(worker, earlier);
        let before = run(worker, earlier);
        let after = run(worker, events);
        let n = given.len() as int;
        assert(taken == taken.take(n) + taken.skip(n));
        if let WorkerTask::ReadClock { request } = before.task {
            assert(taken.skip(n)[0] == request);
        }
        assert(requests.skip(answers.len() as int) =~= owed(after));
    } else {
        assert(requests.skip(0) =~= owed(worker));
    }
}

/// A reply counts as sent once sending was tried: a failure is printed in debug mode, word for
/// word, and passed over otherwise; either way the worker goes on with the state it had.
pub proof fn law_sending_fails_softly(worker: Worker, failure: Option<String>)
    requires
        worker.task is Send,
    ensures
        ({
            let next = worker.after(WorkerEvent::Sent(failure));
            let resumed = worker.with_task(WorkerTask::PollStop);
            match failure {
                Some(error) if worker.debug => {
                    &&& next == worker.with_task(WorkerTask::Report { error })
                    &&& next.after(WorkerEvent::Done) == resumed
                },
                _ => next == resumed,
            }
        }),
{
}

/// A worker looks for a stop signal before each datagram that it waits for: it ends if there is
/// one and listens if not.
pub proof fn law_worker_looks_before_it_listens(worker: Worker)
    requires
        worker.task == WorkerTask::PollStop,
    ensures
        worker.after(WorkerEvent::Stop(true)) == worker.with_task(WorkerTask::Exit),
        worker.after(WorkerEvent::Stop(false)) == worker.with_task(WorkerTask::Receive),
{
}

/// An event that is no outcome of the worker's task changes nothing.
pub proof fn law_worker_ignores_stray_events(worker: Worker, event: WorkerEvent)
    requires
        match event {
            WorkerEvent::Stop(_) => !(worker.task is PollStop),
            WorkerEvent::Received(_) => !(worker.task is Receive),
            WorkerEvent::State(_) => !(worker.task is ReadState),
            WorkerEvent::Clock(_) => !(worker.task is ReadClock),
            WorkerEvent::Sent(_) => !(worker.task is Send),
            WorkerEvent::Done => !(worker.task is Report || worker.task is Sleep),
        },
    ensures
        worker.after(event) == worker,
{
}

/// A worker's copy of the server's state changes only when it reads the state anew, and is then
/// the state that was read, as of the arrival of the packet that it was read for; number and
/// debug mode never change.
pub proof fn law_copy_is_what_was_read(worker: Worker, event: WorkerEvent)
    ensures
        worker.after(event).thread_id == worker.thread_id,
        worker.after(event).debug == worker.debug,
        match (worker.task, event) {
            (WorkerTask::ReadState { request }, WorkerEvent::State(state)) => {
                &&& worker.after(event).cached_state == state
                &&& worker.after(event).last_update == request.local_ts
            },
            _ => {
                &&& worker.after(event).cached_state == worker.cached_state
                &&& worker.after(event).last_update == worker.last_update
            },
        },
{
}

} // verus!
