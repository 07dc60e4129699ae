use momcap::handshake::HandshakeError;
use momcap::handshake::HandshakeSession;
use momcap::handshake::PropertyReadOutcome;
use momcap::handshake::PropertyWriteOutcome;
use momcap::handshake::mom_property_key;
use momcap::resolver::Scope;

#[test]
fn property_key_is_packed_momm() {
    assert_eq!(mom_property_key(), 1836019053);
}

#[test]
fn property_address_targets_output_scope_main_element() {
    let hs = HandshakeSession::new("capture".to_string());
    let addr = hs.property_address();
    assert_eq!(addr.selector, 0x6D6F_6D6D);
    assert!(matches!(addr.scope, Scope::Output));
    assert_eq!(addr.element, 0);
}

#[test]
fn successful_exchange_announces_the_mode() {
    let mut hs = HandshakeSession::new("play880".to_string());
    hs.on_initial_read(&PropertyReadOutcome::Value("idle".to_string())).unwrap();
    assert_eq!(hs.value_to_write(), "play880");
    hs.on_write(&PropertyWriteOutcome::Accepted).unwrap();
    let warned = hs.on_confirm_read(&PropertyReadOutcome::Value("play880".to_string())).unwrap();
    assert!(!warned);
}

#[test]
fn reread_mismatch_warns_without_failing() {
    let mut hs = HandshakeSession::new("playout".to_string());
    hs.on_initial_read(&PropertyReadOutcome::Value("".to_string())).unwrap();
    hs.on_write(&PropertyWriteOutcome::Accepted).unwrap();
    let warned = hs.on_confirm_read(&PropertyReadOutcome::Value("capture".to_string())).unwrap();
    assert!(warned);
}

#[test]
fn initial_read_failure_is_fatal() {
    let mut hs = HandshakeSession::new("capture".to_string());
    let r = hs.on_initial_read(&PropertyReadOutcome::Failure(-50));
    assert_eq!(r, Err(HandshakeError::QueryFailed(-50)));
}

#[test]
fn refused_write_rejects_the_handshake() {
    let mut hs = HandshakeSession::new("capture".to_string());
    hs.on_initial_read(&PropertyReadOutcome::Value("".to_string())).unwrap();
    let r = hs.on_write(&PropertyWriteOutcome::Refused(-10851));
    assert_eq!(r, Err(HandshakeError::Rejected(-10851)));
}

#[test]
fn confirm_read_failure_is_fatal() {
    let mut hs = HandshakeSession::new("capture".to_string());
    hs.on_initial_read(&PropertyReadOutcome::Value("".to_string())).unwrap();
    hs.on_write(&PropertyWriteOutcome::Accepted).unwrap();
    let r = hs.on_confirm_read(&PropertyReadOutcome::Failure(-1));
    assert_eq!(r, Err(HandshakeError::QueryFailed(-1)));
}
