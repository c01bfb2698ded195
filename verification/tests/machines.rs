use ntp_toolbox::address::RemoteAddr;
use ntp_toolbox::packet::{NtpPacket, NtpServerState, RecvOutcome};
use ntp_toolbox::server::{NtpServer, SupervisorEvent, SupervisorTask};
use ntp_toolbox::timestamp::NtpTimestamp;
use ntp_toolbox::worker::{Worker, WorkerEvent, WorkerTask};

const CLIENT: RemoteAddr = RemoteAddr::V4 { ipv4: 0xc0a8_0102, port: 5000 };

fn worker_at(task: WorkerTask) -> Worker {
    let mut worker = Worker::new(1, true, NtpTimestamp { ts: 1 << 40 }, NtpServerState::initial());
    worker.task = task;
    worker
}

fn datagram(first: u8, local_ts: u64) -> WorkerEvent {
    let mut bytes = vec![0u8; 48];
    bytes[0] = first;
    bytes[47] = 9;
    WorkerEvent::Received(RecvOutcome::Datagram {
        bytes,
        remote_addr: CLIENT,
        local_ts: NtpTimestamp { ts: local_ts },
    })
}

fn sent_reply(worker: &Worker) -> NtpPacket {
    match worker.task {
        WorkerTask::Send { reply } => reply,
        _ => panic!("no reply: {:?}", worker.task),
    }
}

#[test]
fn a_new_worker_looks_for_a_stop_signal() {
    let worker = Worker::new(7, false, NtpTimestamp { ts: 3 }, NtpServerState::initial());
    assert!(matches!(worker.task, WorkerTask::PollStop));
    assert_eq!(worker.thread_id, 7);
    assert!(!worker.debug);
    assert_eq!(worker.last_update, NtpTimestamp { ts: 3 });
}

#[test]
fn a_stop_signal_ends_the_worker_for_good() {
    let worker = worker_at(WorkerTask::PollStop).step(WorkerEvent::Stop(true));
    assert!(matches!(worker.task, WorkerTask::Exit));
    let worker = worker.step(WorkerEvent::Done).step(WorkerEvent::Stop(false));
    let worker = worker.step(datagram(0x23, 1 << 40));
    assert!(matches!(worker.task, WorkerTask::Exit));
}

#[test]
fn without_a_stop_signal_the_worker_listens() {
    let worker = worker_at(WorkerTask::PollStop).step(WorkerEvent::Stop(false));
    assert!(matches!(worker.task, WorkerTask::Receive));
}

#[test]
fn a_request_is_answered_from_the_cached_state() {
    let worker = worker_at(WorkerTask::Receive).step(datagram(0x23, (1 << 40) + 429_496_729));
    assert!(matches!(worker.task, WorkerTask::ReadClock { .. }));
    let worker = worker.step(WorkerEvent::Clock(NtpTimestamp { ts: 55 }));
    let reply = sent_reply(&worker);
    assert_eq!(reply.remote_addr, CLIENT);
    assert_eq!(reply.version, 4);
    assert_eq!(reply.mode, 4);
    assert_eq!(reply.stratum, 1);
    assert_eq!(reply.orig_ts, NtpTimestamp { ts: 9 });
    assert_eq!(reply.rx_ts, NtpTimestamp { ts: (1 << 40) + 429_496_729 });
    assert_eq!(reply.tx_ts, NtpTimestamp { ts: 55 });
    assert_eq!(worker.last_update, NtpTimestamp { ts: 1 << 40 });
    let worker = worker.step(WorkerEvent::Sent(None));
    assert!(matches!(worker.task, WorkerTask::PollStop));
}

#[test]
fn each_reply_goes_to_the_sender_of_its_request() {
    let mut worker = worker_at(WorkerTask::PollStop);
    for port in [5001u16, 5002, 5003] {
        let client = RemoteAddr::V4 { ipv4: 0x7f00_0001, port };
        let mut bytes = vec![0u8; 48];
        bytes[0] = 0x23;
        bytes[46..48].copy_from_slice(&port.to_be_bytes());
        worker = worker.step(WorkerEvent::Stop(false)).step(datagram(0x24, 1 << 40));
        worker = worker.step(WorkerEvent::Stop(false));
        worker = worker.step(WorkerEvent::Received(RecvOutcome::Datagram {
            bytes,
            remote_addr: client,
            local_ts: NtpTimestamp { ts: 1 << 40 },
        }));
        worker = worker.step(WorkerEvent::Clock(NtpTimestamp { ts: 2 << 40 }));
        let reply = sent_reply(&worker);
        assert_eq!(reply.remote_addr, client);
        assert_eq!(reply.orig_ts, NtpTimestamp { ts: port as u64 });
        worker = worker.step(WorkerEvent::Sent(None));
        assert!(matches!(worker.task, WorkerTask::PollStop));
    }
}

#[test]
fn a_late_request_refreshes_the_state_first() {
    let late = (1u64 << 40) + 429_496_730;
    let worker = worker_at(WorkerTask::Receive).step(datagram(0x23, late));
    assert!(matches!(worker.task, WorkerTask::ReadState { .. }));
    let state = NtpServerState { stratum: 3, ..NtpServerState::initial() };
    let worker = worker.step(WorkerEvent::State(state));
    assert!(matches!(worker.task, WorkerTask::ReadClock { .. }));
    assert_eq!(worker.last_update, NtpTimestamp { ts: late });
    assert_eq!(worker.cached_state, state);
    let worker = worker.step(WorkerEvent::Clock(NtpTimestamp { ts: 55 }));
    assert_eq!(sent_reply(&worker).stratum, 3);
}

#[test]
fn a_late_packet_that_asks_nothing_refreshes_too() {
    let late = (1u64 << 40) - 429_496_730;
    let worker = worker_at(WorkerTask::Receive).step(datagram(0x24, late));
    let worker = worker.step(WorkerEvent::State(NtpServerState::initial()));
    assert!(matches!(worker.task, WorkerTask::PollStop));
    assert_eq!(worker.last_update, NtpTimestamp { ts: late });
}

#[test]
fn a_packet_that_asks_nothing_is_dropped() {
    let worker = worker_at(WorkerTask::Receive).step(datagram(0x24, 1 << 40));
    assert!(matches!(worker.task, WorkerTask::PollStop));
}

#[test]
fn an_idle_socket_costs_ten_milliseconds() {
    let worker =
        worker_at(WorkerTask::Receive).step(WorkerEvent::Received(RecvOutcome::WouldBlock));
    assert!(matches!(worker.task, WorkerTask::Sleep { millis: 10 }));
    assert!(matches!(worker.step(WorkerEvent::Done).task, WorkerTask::PollStop));
}

#[test]
fn failures_cost_five_milliseconds_and_nothing_else() {
    let broken = WorkerEvent::Received(RecvOutcome::Failed("reset".to_string()));
    let short = WorkerEvent::Received(RecvOutcome::Datagram {
        bytes: vec![0x23],
        remote_addr: CLIENT,
        local_ts: NtpTimestamp { ts: 0 },
    });
    for event in [broken, short, datagram(0x03, 0), datagram(0x2b, 0)] {
        let worker = worker_at(WorkerTask::Receive).step(event);
        assert!(matches!(worker.task, WorkerTask::Sleep { millis: 5 }));
        let worker = worker.step(WorkerEvent::Done);
        assert!(matches!(worker.task, WorkerTask::PollStop));
        assert_eq!(worker.last_update, NtpTimestamp { ts: 1 << 40 });
        assert_eq!(worker.cached_state, NtpServerState::initial());
    }
}

#[test]
fn a_failure_to_send_is_reported_in_debug_mode_only() {
    let replying = || {
        worker_at(WorkerTask::Receive)
            .step(datagram(0x23, 1 << 40))
            .step(WorkerEvent::Clock(NtpTimestamp { ts: 1 }))
    };
    let worker = replying().step(WorkerEvent::Sent(Some("down".to_string())));
    match &worker.task {
        WorkerTask::Report { error } => assert_eq!(error, "down"),
        _ => panic!("not reported"),
    }
    assert!(matches!(worker.step(WorkerEvent::Done).task, WorkerTask::PollStop));
    let mut quiet = replying();
    quiet.debug = false;
    let quiet = quiet.step(WorkerEvent::Sent(Some("down".to_string())));
    assert!(matches!(quiet.task, WorkerTask::PollStop));
}

#[test]
fn a_failure_line_names_the_thread_and_the_error() {
    let worker = Worker::new(4_294_967_295, true, NtpTimestamp::zero(), NtpServerState::initial());
    assert_eq!(
        worker.failure_line("no route"),
        "Thread #4294967295 failed to send response: no route"
    );
    let worker = Worker::new(1, true, NtpTimestamp::zero(), NtpServerState::initial());
    assert_eq!(worker.failure_line("x"), format!("Thread #{} failed to send response: {}", 1, "x"));
}

#[test]
fn events_out_of_turn_are_ignored() {
    let worker = worker_at(WorkerTask::Receive).step(WorkerEvent::Done);
    assert!(matches!(worker.task, WorkerTask::Receive));
    let worker = worker_at(WorkerTask::PollStop).step(datagram(0x23, 0));
    assert!(matches!(worker.task, WorkerTask::PollStop));
}

#[test]
fn a_bound_server_has_one_socket_and_the_initial_state() {
    let server = NtpServer::new("127.0.0.1:10123".to_string(), Ok(()), true).unwrap();
    assert_eq!(server.state, NtpServerState::initial());
    assert_eq!(server.sockets, 1);
    assert!(server.debug);
}

#[test]
fn a_server_that_cannot_be_bound_says_why() {
    let message =
        NtpServer::new("0.0.0.0:123".to_string(), Err("denied".to_string()), false).unwrap_err();
    assert_eq!(
        message,
        format!(
            "UDP 绑定 {} 失败: {} (提示: Unix系统小于1024端口需要管理员权限)",
            "0.0.0.0:123", "denied"
        )
    );
}

#[test]
fn the_supervisor_starts_waits_and_stops() {
    let server = NtpServer::new("a".to_string(), Ok(()), false).unwrap();
    let mut supervisor = server.run();
    assert_eq!(supervisor.task, SupervisorTask::Spawn { socket: 0, thread_id: 1 });
    supervisor.step(SupervisorEvent::Done);
    assert_eq!(supervisor.task, SupervisorTask::PollStop);
    supervisor.step(SupervisorEvent::Stop(false));
    assert_eq!(supervisor.task, SupervisorTask::Sleep { millis: 100 });
    supervisor.step(SupervisorEvent::Done);
    assert_eq!(supervisor.task, SupervisorTask::PollStop);
    supervisor.step(SupervisorEvent::Stop(true));
    assert_eq!(supervisor.task, SupervisorTask::SignalStop { worker: 0 });
    supervisor.step(SupervisorEvent::Done);
    assert_eq!(supervisor.task, SupervisorTask::Join { worker: 0 });
    supervisor.step(SupervisorEvent::Done);
    assert_eq!(supervisor.task, SupervisorTask::Return);
    supervisor.step(SupervisorEvent::Done);
    assert_eq!(supervisor.task, SupervisorTask::Return);
}

#[test]
fn every_worker_is_signalled_before_any_is_joined() {
    let server = NtpServer { state: NtpServerState::initial(), sockets: 3, debug: false };
    let mut supervisor = server.run();
    for socket in 0..3 {
        assert_eq!(supervisor.task, SupervisorTask::Spawn { socket, thread_id: socket + 1 });
        supervisor.step(SupervisorEvent::Done);
    }
    supervisor.step(SupervisorEvent::Stop(true));
    for worker in 0..3 {
        assert_eq!(supervisor.task, SupervisorTask::SignalStop { worker });
        supervisor.step(SupervisorEvent::Done);
    }
    for worker in 0..3 {
        assert_eq!(supervisor.task, SupervisorTask::Join { worker });
        supervisor.step(SupervisorEvent::Done);
    }
    assert_eq!(supervisor.task, SupervisorTask::Return);
}

#[test]
fn the_supervisor_goes_on_until_it_is_stopped() {
    let server = NtpServer { state: NtpServerState::initial(), sockets: 2, debug: false };
    let mut supervisor = server.run();
    for i in 0..1000 {
        supervisor.step(if i % 3 == 0 {
            SupervisorEvent::Stop(false)
        } else {
            SupervisorEvent::Done
        });
        assert!(matches!(
            supervisor.task,
            SupervisorTask::Spawn { .. } | SupervisorTask::PollStop | SupervisorTask::Sleep { .. }
        ));
    }
}

#[test]
fn a_server_without_sockets_returns_at_once_when_stopped() {
    let server = NtpServer { state: NtpServerState::initial(), sockets: 0, debug: false };
    let mut supervisor = server.run();
    assert_eq!(supervisor.task, SupervisorTask::PollStop);
    supervisor.step(SupervisorEvent::Stop(true));
    assert_eq!(supervisor.task, SupervisorTask::Return);
}
