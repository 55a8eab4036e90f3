//! The protocol core, exercised on concrete values: wire codec, handshake,
//! channel transforms, admission, and the close taxonomy.

use proton::admission::AdmissionSlot;
use proton::channels::{
    channel_io_error, commit_response, ActionChannel, EventChannel, IoEvent,
};
use proton::config::{alpn_protocol, transport_params, ConnectorConfig, EventCounter};
use proton::errors::ProtonError;
use proton::handshake::{
    classify_discriminator, client_stream_order, discriminator, HandshakeEvent, HandshakeState,
    HandshakeStep, StreamRole,
};
use proton::session::{
    close_code, close_for_outcome, close_reason, session_outcome, ClientSession, CloseCause,
    RaceWinner,
};
use proton::wire::{decode_u32_le, encode_u32_le};

#[test]
fn encode_little_endian_bytes() {
    assert_eq!(encode_u32_le(0x01020304), vec![0x04, 0x03, 0x02, 0x01]);
    assert_eq!(encode_u32_le(7), vec![7, 0, 0, 0]);
    assert_eq!(encode_u32_le(0), vec![0, 0, 0, 0]);
    assert_eq!(encode_u32_le(u32::MAX), vec![0xff, 0xff, 0xff, 0xff]);
}

#[test]
fn decode_little_endian_bytes() {
    assert_eq!(decode_u32_le(&vec![7, 0, 0, 0]), 7);
    assert_eq!(decode_u32_le(&vec![0x04, 0x03, 0x02, 0x01]), 0x01020304);
    assert_eq!(decode_u32_le(&vec![0xff, 0xff, 0xff, 0xff]), u32::MAX);
}

#[test]
fn codec_round_trip() {
    for v in [0u32, 1, 7, 255, 256, 65_536, 0xdead_beef, u32::MAX] {
        assert_eq!(decode_u32_le(&encode_u32_le(v)), v);
    }
}

#[test]
fn discriminators_name_roles() {
    assert_eq!(discriminator(StreamRole::Event), 1);
    assert_eq!(discriminator(StreamRole::StateCommit), 2);
    assert_eq!(discriminator(StreamRole::Action), 3);
    assert_eq!(classify_discriminator(1), Ok(StreamRole::Event));
    assert_eq!(classify_discriminator(2), Ok(StreamRole::StateCommit));
    assert_eq!(classify_discriminator(3), Ok(StreamRole::Action));
    assert_eq!(classify_discriminator(0), Err(ProtonError::InvalidStream));
    assert_eq!(classify_discriminator(4), Err(ProtonError::InvalidStream));
    assert_eq!(classify_discriminator(0x09), Err(ProtonError::InvalidStream));
}

#[test]
fn unknown_discriminator_binds_nothing() {
    let mut hs = HandshakeState::new();
    assert_eq!(hs.bind_stream(0x09), Err(ProtonError::InvalidStream));
    assert!(!hs.event_bound);
    assert!(!hs.state_commit_bound);
    assert!(!hs.action_bound);
    assert!(!hs.is_complete());
}

#[test]
fn duplicate_role_is_rejected() {
    let mut hs = HandshakeState::new();
    assert_eq!(hs.bind_stream(1), Ok(StreamRole::Event));
    assert_eq!(hs.bind_stream(1), Err(ProtonError::InvalidStream));
    assert!(hs.event_bound);
    assert!(!hs.state_commit_bound);
}

#[test]
fn client_order_completes_handshake() {
    let order = client_stream_order();
    assert_eq!(order, vec![1, 2, 3]);
    let mut hs = HandshakeState::new();
    assert_eq!(
        hs.step(HandshakeEvent::Discriminator(order[0])),
        HandshakeStep::Continue(StreamRole::Event)
    );
    assert_eq!(
        hs.step(HandshakeEvent::Discriminator(order[1])),
        HandshakeStep::Continue(StreamRole::StateCommit)
    );
    assert_eq!(
        hs.step(HandshakeEvent::Discriminator(order[2])),
        HandshakeStep::Complete(StreamRole::Action)
    );
    assert!(hs.is_complete());
}

#[test]
fn handshake_accept_timeout_closes_with_code_3() {
    let mut hs = HandshakeState::new();
    assert_eq!(hs.step(HandshakeEvent::Discriminator(1)), HandshakeStep::Continue(StreamRole::Event));
    let step = hs.step(HandshakeEvent::AcceptTimedOut);
    match step {
        HandshakeStep::Abort(cause, err) => {
            assert_eq!(close_code(cause), 3);
            assert_eq!(close_reason(cause), "Stream setup timeout");
            assert_eq!(err, ProtonError::Timeout);
        }
        other => panic!("expected an abort, got {:?}", other),
    }
}

#[test]
fn handshake_failures_pick_their_codes() {
    let mut hs = HandshakeState::new();
    match hs.step(HandshakeEvent::AcceptFailed) {
        HandshakeStep::Abort(cause, err) => {
            assert_eq!(close_code(cause), 2);
            assert_eq!(err, ProtonError::ConnectionError);
        }
        other => panic!("expected an abort, got {:?}", other),
    }
    let mut hs = HandshakeState::new();
    match hs.step(HandshakeEvent::Discriminator(0x09)) {
        HandshakeStep::Abort(cause, err) => {
            assert_eq!(close_code(cause), 1);
            assert_eq!(close_reason(cause), "Stream setup error");
            assert_eq!(err, ProtonError::InvalidStream);
        }
        other => panic!("expected an abort, got {:?}", other),
    }
    let mut hs = HandshakeState::new();
    match hs.step(HandshakeEvent::ReadTimedOut) {
        HandshakeStep::Abort(cause, err) => {
            assert_eq!(close_code(cause), 1);
            assert_eq!(err, ProtonError::Timeout);
        }
        other => panic!("expected an abort, got {:?}", other),
    }
}

#[test]
fn event_echoes_increasing_ids() {
    let mut ch = EventChannel::new();
    assert_eq!(ch.accept_event(7), Ok(7));
    assert_eq!(ch.last_event_id, 7);
    assert_eq!(ch.accept_event(8), Ok(8));
    assert_eq!(ch.accept_event(100), Ok(100));
    assert_eq!(ch.last_event_id, 100);
}

#[test]
fn event_stale_id_breaks_monotonicity() {
    let mut ch = EventChannel::new();
    assert_eq!(ch.accept_event(7), Ok(7));
    assert_eq!(ch.accept_event(7), Err(ProtonError::InvalidStream));
    assert_eq!(ch.accept_event(3), Err(ProtonError::InvalidStream));
    assert_eq!(ch.last_event_id, 7);
    let mut fresh = EventChannel::new();
    assert_eq!(fresh.accept_event(0), Err(ProtonError::InvalidStream));
}

#[test]
fn commit_adds_two() {
    assert_eq!(commit_response(7), 9);
    assert_eq!(commit_response(0), 2);
    assert_eq!(commit_response(u32::MAX - 2), u32::MAX);
}

#[test]
fn actions_count_from_zero() {
    let mut ch = ActionChannel::new();
    assert_eq!(ch.respond(42), 0);
    assert_eq!(ch.respond(42), 1);
    assert_eq!(ch.respond(7), 2);
    assert_eq!(ch.counter, 3);
}

#[test]
fn round_trip_scenario() {
    let mut events = EventChannel::new();
    assert_eq!(events.accept_event(7), Ok(7));
    assert_eq!(commit_response(7), 9);
    let mut actions = ActionChannel::new();
    assert_eq!(actions.respond(42), 0);
    assert_eq!(actions.respond(42), 1);
    assert_eq!(actions.respond(42), 2);
}

#[test]
fn io_failures_pick_their_errors() {
    assert_eq!(channel_io_error(IoEvent::Value(5)), None);
    assert_eq!(channel_io_error(IoEvent::Failed), Some(ProtonError::ConnectionError));
    assert_eq!(channel_io_error(IoEvent::TimedOut), Some(ProtonError::Timeout));
}

#[test]
fn race_winner_decides_outcome() {
    assert_eq!(session_outcome(RaceWinner::TransportClosed), Ok(()));
    assert_eq!(
        session_outcome(RaceWinner::ChannelDone(Err(ProtonError::InvalidStream))),
        Err(ProtonError::InvalidStream)
    );
    assert_eq!(session_outcome(RaceWinner::ChannelDone(Ok(()))), Ok(()));
}

#[test]
fn outcomes_pick_their_close_codes() {
    assert_eq!(close_for_outcome(&Ok(())), CloseCause::Completed);
    assert_eq!(close_for_outcome(&Err(ProtonError::Timeout)), CloseCause::OpTimeout);
    assert_eq!(close_for_outcome(&Err(ProtonError::InvalidStream)), CloseCause::StreamError);
    assert_eq!(close_for_outcome(&Err(ProtonError::ConnectionError)), CloseCause::StreamError);
    assert_eq!(close_code(CloseCause::Completed), 0);
    assert_eq!(close_code(CloseCause::SetupError), 1);
    assert_eq!(close_code(CloseCause::AcceptError), 2);
    assert_eq!(close_code(CloseCause::SetupTimeout), 3);
    assert_eq!(close_code(CloseCause::OpTimeout), 4);
    assert_eq!(close_code(CloseCause::StreamError), 5);
}

#[test]
fn rejection_reuses_the_completion_code() {
    assert_eq!(close_code(CloseCause::Rejected), close_code(CloseCause::Completed));
    assert_eq!(close_reason(CloseCause::Rejected), "Another client is already connected");
    assert_eq!(close_reason(CloseCause::Completed), "Streams completed");
    assert_eq!(close_reason(CloseCause::OpTimeout), "Stream operation timeout");
    assert_eq!(close_reason(CloseCause::StreamError), "Stream error");
    assert_eq!(close_reason(CloseCause::AcceptError), "Stream accept error");
}

#[test]
fn admission_is_exclusive() {
    let mut slot = AdmissionSlot::new();
    assert!(slot.try_acquire());
    assert!(!slot.try_acquire());
    assert!(!slot.try_acquire());
    slot.release();
    assert!(slot.try_acquire());
    slot.release();
    assert!(!slot.occupied);
}

#[test]
fn close_is_idempotent() {
    let mut session = ClientSession::new();
    assert!(session.open);
    session.close();
    assert!(!session.open);
    session.close();
    assert!(!session.open);
}

#[test]
fn event_counter_survives_reconnects() {
    let mut counter = EventCounter::new();
    assert_eq!(counter.next_event_id(), 1);
    assert_eq!(counter.next_event_id(), 2);
    assert_eq!(counter.next_event_id(), 3);
    assert_eq!(counter.last_event_id, 3);
}

#[test]
fn transport_configuration() {
    let p = transport_params();
    assert_eq!(p.idle_timeout_secs, 5);
    assert_eq!(p.keep_alive_secs, 5);
    assert_eq!(p.max_bidi_streams, 3);
    assert_eq!(p.max_connections, 1);
    assert_eq!(alpn_protocol(), "proton");
}

#[test]
fn connector_configuration() {
    let c = ConnectorConfig::defaults();
    assert_eq!(c.startup_delay_secs, 10);
    assert_eq!(c.max_retries, 5);
    assert_eq!(c.retry_delay_secs, 2);
    assert_eq!(c.effective_startup_delay(Some(0)), 0);
    assert_eq!(c.effective_startup_delay(Some(3)), 3);
    assert_eq!(c.effective_startup_delay(None), 10);
}

#[test]
fn error_messages() {
    assert_eq!(ProtonError::IoError.message(), "IO error");
    assert_eq!(ProtonError::ConnectionError.message(), "Connection error");
    assert_eq!(ProtonError::InvalidStream.message(), "Invalid stream");
    assert_eq!(ProtonError::Timeout.message(), "Operation timed out");
}
