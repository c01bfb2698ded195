use ntp_toolbox::address::RemoteAddr;
use ntp_toolbox::packet::{NtpPacket, NtpServerState, ReceiveError, RecvOutcome};
use ntp_toolbox::timestamp::{NtpFracValue, NtpTimestamp};

fn client() -> RemoteAddr {
    RemoteAddr::V4 { ipv4: 0x7f00_0001, port: 40_000 }
}

fn sample() -> NtpPacket {
    NtpPacket {
        remote_addr: client(),
        local_ts: NtpTimestamp { ts: 77 },
        leap: 2,
        version: 4,
        mode: 3,
        stratum: 9,
        poll: -6,
        precision: -20,
        delay: NtpFracValue { val: 0x0102_0304 },
        dispersion: NtpFracValue { val: 0x0506_0708 },
        ref_id: 0x4c4f_434c,
        ref_ts: NtpTimestamp { ts: 0x1112_1314_1516_1718 },
        orig_ts: NtpTimestamp { ts: 0x2122_2324_2526_2728 },
        rx_ts: NtpTimestamp { ts: 0x3132_3334_3536_3738 },
        tx_ts: NtpTimestamp { ts: 0x4142_4344_4546_4748 },
    }
}

fn sample_bytes() -> Vec<u8> {
    vec![
        0xa3, 9, 0xfa, 0xec, 1, 2, 3, 4, 5, 6, 7, 8, 0x4c, 0x4f, 0x43, 0x4c, 0x11, 0x12, 0x13,
        0x14, 0x15, 0x16, 0x17, 0x18, 0x21, 0x22, 0x23, 0x24, 0x25, 0x26, 0x27, 0x28, 0x31, 0x32,
        0x33, 0x34, 0x35, 0x36, 0x37, 0x38, 0x41, 0x42, 0x43, 0x44, 0x45, 0x46, 0x47, 0x48,
    ]
}

fn receive(bytes: Vec<u8>) -> Result<NtpPacket, ReceiveError> {
    NtpPacket::receive(RecvOutcome::Datagram {
        bytes,
        remote_addr: client(),
        local_ts: NtpTimestamp { ts: 77 },
    })
}

#[test]
fn a_datagram_is_parsed_field_by_field() {
    assert_eq!(receive(sample_bytes()).unwrap(), sample());
}

#[test]
fn a_packet_is_sent_field_by_field() {
    let datagram = sample().send();
    assert_eq!(datagram.bytes.to_vec(), sample_bytes());
    assert_eq!(datagram.to, client());
}

#[test]
fn bytes_after_the_packet_are_ignored() {
    let mut bytes = sample_bytes();
    bytes.push(1);
    bytes.push(2);
    assert_eq!(receive(bytes).unwrap(), sample());
}

#[test]
fn short_datagrams_are_refused() {
    for len in [0, 1, 47] {
        let mut bytes = sample_bytes();
        bytes.truncate(len);
        let error = receive(bytes).unwrap_err();
        assert!(matches!(error, ReceiveError::TooShort));
        assert_eq!(error.message(), "Packet too short");
    }
}

#[test]
fn only_versions_one_to_four_are_supported() {
    for version in 0..8u8 {
        let mut bytes = sample_bytes();
        bytes[0] = version << 3 | 3;
        match receive(bytes) {
            Ok(packet) => {
                assert!((1..=4).contains(&version));
                assert_eq!(packet.version, version);
            }
            Err(error) => {
                assert!(version == 0 || version > 4);
                assert!(matches!(error, ReceiveError::UnsupportedVersion));
                assert_eq!(error.message(), "Unsupported version");
            }
        }
    }
}

#[test]
fn socket_errors_are_handed_on() {
    let idle = NtpPacket::receive(RecvOutcome::WouldBlock).unwrap_err();
    assert!(matches!(idle, ReceiveError::WouldBlock));
    assert_eq!(idle.message(), "Would Block");
    let broken = NtpPacket::receive(RecvOutcome::Failed("broken".to_string())).unwrap_err();
    assert!(matches!(broken, ReceiveError::Socket(_)));
    assert_eq!(broken.message(), "broken");
}

#[test]
fn every_first_byte_survives_the_round_trip() {
    for first in 0..=255u8 {
        let mut bytes = sample_bytes();
        bytes[0] = first;
        if let Ok(packet) = receive(bytes.clone()) {
            assert_eq!(packet.send().bytes.to_vec(), bytes);
        }
    }
}

#[test]
fn signed_bytes_survive_the_round_trip() {
    for b in 0..=255u8 {
        let mut bytes = sample_bytes();
        bytes[2] = b;
        bytes[3] = b;
        let packet = receive(bytes.clone()).unwrap();
        assert_eq!(packet.poll, b as i8);
        assert_eq!(packet.precision, b as i8);
        assert_eq!(packet.send().bytes.to_vec(), bytes);
    }
}

#[test]
fn fields_that_do_not_fit_spill_into_each_other() {
    let packet = NtpPacket { leap: 5, version: 9, mode: 8, ..sample() };
    assert_eq!(packet.send().bytes[0], 0x40 | 0x48 | 0x08);
}

#[test]
fn requests_are_told_by_mode_and_port() {
    for mode in 0..8u8 {
        for version in 1..=4u8 {
            for port in [123u16, 124] {
                let v4 = RemoteAddr::V4 { ipv4: 1, port };
                let v6 = RemoteAddr::V6 { ipv6: 1, port, flowinfo: 2, scope_id: 3 };
                let expected =
                    mode == 1 || mode == 3 || (mode == 0 && version == 1 && port != 123);
                for remote_addr in [v4, v6] {
                    let packet = NtpPacket { remote_addr, mode, version, ..sample() };
                    assert_eq!(packet.is_request(), expected);
                }
            }
        }
    }
}

#[test]
fn a_client_request_gets_a_server_reply() {
    let state = NtpServerState {
        leap: 1,
        stratum: 2,
        precision: -18,
        ref_id: 3,
        ref_ts: NtpTimestamp { ts: 4 },
        dispersion: NtpFracValue { val: 5 },
        delay: NtpFracValue { val: 6 },
    };
    let now = NtpTimestamp { ts: 99 };
    let reply = sample().make_response(&state, now).unwrap();
    assert_eq!(
        reply,
        NtpPacket {
            remote_addr: client(),
            local_ts: NtpTimestamp::zero(),
            leap: 1,
            version: 4,
            mode: 4,
            stratum: 2,
            poll: -6,
            precision: -18,
            delay: NtpFracValue { val: 6 },
            dispersion: NtpFracValue { val: 5 },
            ref_id: 3,
            ref_ts: NtpTimestamp { ts: 4 },
            orig_ts: sample().tx_ts,
            rx_ts: NtpTimestamp { ts: 77 },
            tx_ts: now,
        }
    );
}

#[test]
fn a_symmetric_request_gets_a_passive_reply() {
    let request = NtpPacket { mode: 1, ..sample() };
    let reply = request.make_response(&NtpServerState::initial(), NtpTimestamp::zero()).unwrap();
    assert_eq!(reply.mode, 2);
}

#[test]
fn replies_are_not_answered() {
    let state = NtpServerState::initial();
    for mode in [1u8, 3] {
        let request = NtpPacket { mode, ..sample() };
        let reply = request.make_response(&state, NtpTimestamp { ts: 1 }).unwrap();
        assert!(reply.make_response(&state, NtpTimestamp { ts: 2 }).is_none());
    }
}

#[test]
fn other_modes_are_not_answered() {
    let state = NtpServerState::initial();
    for mode in [0u8, 2, 4, 5, 6, 7] {
        let packet = NtpPacket { mode, ..sample() };
        assert!(packet.make_response(&state, NtpTimestamp::zero()).is_none());
    }
}

#[test]
fn a_new_server_is_a_silent_primary_server() {
    assert_eq!(
        NtpServerState::initial(),
        NtpServerState {
            leap: 0,
            stratum: 1,
            precision: 0,
            ref_id: 0,
            ref_ts: NtpTimestamp::zero(),
            dispersion: NtpFracValue::zero(),
            delay: NtpFracValue::zero(),
        }
    );
}
