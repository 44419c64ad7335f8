use http3_rs::client::builder;
use http3_rs::config::{Config, Settings};
use http3_rs::datagram::{
    convert_h3_error_to_datagram_error, convert_send_datagram_error, ConnectionErrorIncoming,
    SendDatagramError, SendDatagramErrorIncoming,
};
use http3_rs::frame::{self, SettingId, H3_DATAGRAM, MAX_HEADER_LIST_SIZE};
use http3_rs::qpack::{
    lock_step, DecodeAction, DecodeOutcome, DecoderStreamState, Error, LockAttempt, LockStep,
    StreamTracking,
};

#[test]
fn builder_starts_from_the_default_config() {
    let b = builder();
    let c: &Config = b.config();
    assert!(c.send_grease);
    assert!(c.send_settings);
    assert!(c.settings_order.is_none());
    assert!(c.extra_settings.is_empty());
    assert_eq!(c.settings, Settings::default());
}

#[test]
fn builder_setters_change_only_their_field() {
    let mut b = builder();
    b.max_field_section_size(8192)
        .send_grease(false)
        .enable_datagram(true)
        .enable_extended_connect(true)
        .qpack_max_table_capacity(16384)
        .qpack_blocked_streams(Some(100))
        .send_settings(false);
    let c = b.config();
    assert_eq!(c.settings.max_field_section_size, 8192);
    assert!(!c.send_grease);
    assert!(!c.send_settings);
    assert!(c.settings.enable_datagram());
    assert!(c.settings.enable_extended_connect());
    assert!(!c.settings.enable_webtransport());
    assert_eq!(c.settings.max_webtransport_sessions, 0);
    assert_eq!(c.settings.qpack_max_table_capacity, Some(16384));
    assert_eq!(c.settings.qpack_blocked_streams, Some(100));
    assert!(c.settings_order.is_none());
    assert!(c.extra_settings.is_empty());
}

#[test]
fn builder_qpack_settings_can_be_cleared() {
    let mut b = builder();
    b.qpack_max_table_capacity(0).qpack_blocked_streams(0);
    assert_eq!(b.config().settings.qpack_max_table_capacity, Some(0));
    b.qpack_max_table_capacity(None).qpack_blocked_streams(None);
    assert_eq!(b.config().settings.qpack_max_table_capacity, None);
    assert_eq!(b.config().settings.qpack_blocked_streams, None);
}

#[test]
fn builder_order_and_extra_settings() {
    let mut b = builder();
    b.extra_setting(SettingId(0x4d44), 7)
        .extra_setting(SettingId(0x21), 1)
        .settings_order(vec![SettingId(H3_DATAGRAM), SettingId(0x4d44), SettingId(MAX_HEADER_LIST_SIZE)]);
    let c = b.config();
    assert_eq!(c.extra_settings, vec![(SettingId(0x4d44), 7), (SettingId(0x21), 1)]);
    assert_eq!(
        c.settings_order,
        Some(vec![SettingId(H3_DATAGRAM), SettingId(0x4d44), SettingId(MAX_HEADER_LIST_SIZE)])
    );
    let f = c.settings_with_grease(SettingId::grease_from(2)).unwrap();
    assert_eq!(
        f.entries(),
        &[
            (SettingId(H3_DATAGRAM), 0),
            (SettingId(0x4d44), 7),
            (SettingId(MAX_HEADER_LIST_SIZE), 4611686018427387903),
            (SettingId::grease_from(2), 0),
        ]
    );
    let g = frame::Settings::try_from_config(c.clone()).unwrap();
    assert_eq!(g.len(), 4);
}

#[test]
fn qpack_error_messages() {
    let e: Error<&str, &str> = Error::Encoder("bad");
    assert_eq!(e.message("bad"), "Encoder bad");
    let d: Error<&str, &str> = Error::Decoder("missing");
    assert_eq!(d.message("missing"), "Decoder missing");
}

#[test]
fn lock_steps() {
    assert_eq!(lock_step(false, LockAttempt::Acquired), LockStep::Proceed);
    assert_eq!(lock_step(false, LockAttempt::WouldBlock), LockStep::RegisterAndRetry);
    assert_eq!(lock_step(true, LockAttempt::WouldBlock), LockStep::Pending);
    assert_eq!(lock_step(true, LockAttempt::Acquired), LockStep::Proceed);
    assert_eq!(lock_step(false, LockAttempt::Poisoned), LockStep::Fail);
    assert_eq!(lock_step(true, LockAttempt::Poisoned), LockStep::Fail);
}

#[test]
fn tracked_stream_is_cancelled_until_decoded() {
    let st = DecoderStreamState::new().track_stream(4);
    assert_eq!(st.tracking, Some(StreamTracking { stream_id: 4, cancel_on_drop: true }));
    assert_eq!(st.drop_notice(), Some(4));
    let mut st = st;
    assert_eq!(st.after_decode(DecodeOutcome::Failed), DecodeAction::ReturnError);
    assert_eq!(st.drop_notice(), Some(4));
    assert_eq!(
        st.after_decode(DecodeOutcome::Decoded { dyn_ref: true }),
        DecodeAction::AcknowledgeThenReturn { stream_id: 4 }
    );
    assert_eq!(st.drop_notice(), None);
    assert_eq!(
        st.after_decode(DecodeOutcome::MissingRefs { required_ref: 3 }),
        DecodeAction::ReturnError
    );
    assert_eq!(st.drop_notice(), Some(4));
}

#[test]
fn decoded_without_dynamic_references_is_not_acknowledged() {
    let mut st = DecoderStreamState::new().track_stream(8);
    assert_eq!(st.after_decode(DecodeOutcome::Decoded { dyn_ref: false }), DecodeAction::Return);
    assert_eq!(st.drop_notice(), None);
    assert_eq!(
        st.after_decode(DecodeOutcome::MissingRefs { required_ref: 0 }),
        DecodeAction::ReturnError
    );
    assert_eq!(st.drop_notice(), None);
}

#[test]
fn untracked_handles_never_notify() {
    let handle = DecoderStreamState::new().track_stream(12);
    let mut copy = handle.clone_handle();
    assert_eq!(copy.tracking, None);
    assert_eq!(copy.drop_notice(), None);
    assert_eq!(copy.after_decode(DecodeOutcome::Decoded { dyn_ref: true }), DecodeAction::Return);
    assert_eq!(
        copy.after_decode(DecodeOutcome::MissingRefs { required_ref: 1 }),
        DecodeAction::ReturnError
    );
    assert_eq!(copy.drop_notice(), None);
}

#[test]
fn send_datagram_errors_are_mapped() {
    assert!(matches!(
        convert_send_datagram_error(SendDatagramError::UnsupportedByPeer),
        SendDatagramErrorIncoming::NotAvailable
    ));
    assert!(matches!(
        convert_send_datagram_error(SendDatagramError::Disabled),
        SendDatagramErrorIncoming::NotAvailable
    ));
    assert!(matches!(
        convert_send_datagram_error(SendDatagramError::TooLarge),
        SendDatagramErrorIncoming::TooLarge
    ));
    assert!(matches!(
        convert_send_datagram_error(SendDatagramError::ConnectionLost(
            ConnectionErrorIncoming::ApplicationClose { error_code: 0x100 }
        )),
        SendDatagramErrorIncoming::ConnectionError(ConnectionErrorIncoming::ApplicationClose {
            error_code: 0x100
        })
    ));
    match convert_send_datagram_error(SendDatagramError::ConnectionLost(
        ConnectionErrorIncoming::InternalError("boom".to_string()),
    )) {
        SendDatagramErrorIncoming::ConnectionError(ConnectionErrorIncoming::InternalError(s)) => {
            assert_eq!(s, "boom")
        }
        other => panic!("unexpected {:?}", other),
    }
}

#[test]
fn connection_errors_pass_through_unchanged() {
    assert!(matches!(
        convert_h3_error_to_datagram_error(ConnectionErrorIncoming::Timeout),
        ConnectionErrorIncoming::Timeout
    ));
    match convert_h3_error_to_datagram_error(ConnectionErrorIncoming::Undefined("x".to_string())) {
        ConnectionErrorIncoming::Undefined(s) => assert_eq!(s, "x"),
        other => panic!("unexpected {:?}", other),
    }
}
