use secure_link::cipher::{open, seal, KeyPair, PublicKey};
use secure_link::error::ProtocolError;
use secure_link::framing::key_block_len;
use secure_link::session::{
    confirmation_token, has_prefix, heartbeat_token, Action, Outcome, Phase, Session, Stage,
};

fn pair() -> KeyPair {
    KeyPair::generate(512).unwrap()
}

fn done() -> Outcome {
    Outcome::Completed(Vec::new())
}

fn written(action: Action) -> Vec<u8> {
    match action {
        Action::Write(bytes) => bytes,
        other => panic!("expected a write, got {:?}", other),
    }
}

/// Runs the key exchange up to the point where the peer's confirmation is read.
fn exchanged(local: &KeyPair, peer: &KeyPair) -> Session {
    let (session, action) = Session::new().advance(local, done());
    assert_eq!(session.stage, Stage::SendingKey);
    assert_eq!(written(action), local.public_key.to_block().unwrap());
    let (session, action) = session.advance(local, done());
    assert_eq!(session.stage, Stage::AwaitingKey);
    assert_eq!(action, Action::Read(182));
    let block = peer.public_key.to_block().unwrap();
    let (session, action) = session.advance(local, Outcome::Completed(block));
    assert_eq!(session.stage, Stage::SendingToken);
    let sealed = written(action);
    assert_eq!(sealed.len(), 64);
    assert_eq!(open(peer, &sealed), Ok(b"ACK".to_vec()));
    let (session, action) = session.advance(local, done());
    assert_eq!(session.stage, Stage::AwaitingToken);
    assert_eq!(action, Action::Read(64));
    session
}

/// Runs the handshake up to the synchronized stage.
fn synchronized(local: &KeyPair, peer: &KeyPair) -> Session {
    let session = exchanged(local, peer);
    let reply = seal(&local.public_key, &b"ACK".to_vec()).unwrap();
    let (session, action) = session.advance(local, Outcome::Completed(reply));
    assert_eq!(session.stage, Stage::Synchronized);
    assert_eq!(action, Action::Announce);
    session
}

/// Runs one heartbeat round from the synchronized or the resting stage.
fn heartbeat(session: Session, local: &KeyPair, peer: &KeyPair) -> Session {
    let (session, action) = session.advance(local, done());
    assert_eq!(session.stage, Stage::SendingHeartbeat);
    let sealed = written(action);
    assert_eq!(sealed.len(), 64);
    assert_eq!(open(peer, &sealed), Ok(b"HEARTBEAT".to_vec()));
    let (session, action) = session.advance(local, done());
    assert_eq!(session.stage, Stage::AwaitingHeartbeat);
    assert_eq!(action, Action::Read(64));
    let reply = seal(&local.public_key, &b"HEARTBEAT".to_vec()).unwrap();
    let (session, action) = session.advance(local, Outcome::Completed(reply));
    assert_eq!(session.stage, Stage::Resting);
    assert_eq!(action, Action::Sleep(5));
    session
}

#[test]
fn tokens_are_the_literal_words() {
    assert_eq!(confirmation_token(), b"ACK".to_vec());
    assert_eq!(heartbeat_token(), b"HEARTBEAT".to_vec());
}

#[test]
fn has_prefix_compares_the_leading_bytes() {
    let token = b"ACK".to_vec();
    assert!(has_prefix(&b"ACK".to_vec(), &token));
    assert!(has_prefix(&b"ACKNOWLEDGED".to_vec(), &token));
    assert!(has_prefix(&b"ACK\0\0".to_vec(), &token));
    assert!(!has_prefix(&b"AC".to_vec(), &token));
    assert!(!has_prefix(&Vec::new(), &token));
    assert!(!has_prefix(&b"ack".to_vec(), &token));
    assert!(!has_prefix(&b"ACJ".to_vec(), &token));
    assert!(!has_prefix(&b" ACK".to_vec(), &token));
    assert!(has_prefix(&b"anything".to_vec(), &Vec::new()));
    assert!(has_prefix(&Vec::new(), &Vec::new()));
}

#[test]
fn new_session_is_connecting() {
    let session = Session::new();
    assert_eq!(session.stage, Stage::Start);
    assert_eq!(session.phase(), Phase::Connecting);
    assert!(session.peer.is_none());
    assert!(session.failure.is_none());
    assert!(session.is_valid());
}

#[test]
fn handshake_goes_through_every_phase() {
    let local = pair();
    let peer = pair();
    assert_eq!(key_block_len(local.bits), Some(182));
    let session = exchanged(&local, &peer);
    assert_eq!(session.phase(), Phase::KeyExchanged);
    assert!(session.is_valid());
    let kept: &PublicKey = session.peer.as_ref().unwrap();
    assert_eq!(kept.modulus, peer.public_key.modulus);
    assert_eq!(kept.exponent, peer.public_key.exponent);
    let session = synchronized(&local, &peer);
    assert_eq!(session.phase(), Phase::Synchronized);
    let session = heartbeat(session, &local, &peer);
    assert_eq!(session.phase(), Phase::Heartbeating);
    assert!(session.failure.is_none());
    assert!(session.is_valid());
}

#[test]
fn confirmation_may_carry_more_than_the_token() {
    let local = pair();
    let peer = pair();
    let session = exchanged(&local, &peer);
    let reply = seal(&local.public_key, &b"ACK and more".to_vec()).unwrap();
    let (session, action) = session.advance(&local, Outcome::Completed(reply));
    assert_eq!(session.stage, Stage::Synchronized);
    assert_eq!(action, Action::Announce);
}

#[test]
fn truncated_key_block_fails_before_synchronization() {
    let local = pair();
    let peer = pair();
    let (session, _) = Session::new().advance(&local, done());
    let (session, _) = session.advance(&local, done());
    let mut block = peer.public_key.to_block().unwrap();
    block.truncate(100);
    let (session, action) = session.advance(&local, Outcome::Completed(block));
    assert_eq!(session.stage, Stage::Failed);
    assert_eq!(session.failure, Some(ProtocolError::Io));
    assert_eq!(action, Action::Stop(ProtocolError::Io));
    assert!(session.peer.is_none());
}

#[test]
fn corrupted_key_block_fails_before_synchronization() {
    let local = pair();
    let peer = pair();
    let (session, _) = Session::new().advance(&local, done());
    let (session, _) = session.advance(&local, done());
    let mut block = peer.public_key.to_block().unwrap();
    block[50] = b'*';
    assert_eq!(block.len(), 182);
    let (session, action) = session.advance(&local, Outcome::Completed(block));
    assert_eq!(session.stage, Stage::Failed);
    assert_eq!(session.phase(), Phase::Failed);
    assert_eq!(session.failure, Some(ProtocolError::MalformedKey));
    assert_eq!(action, Action::Stop(ProtocolError::MalformedKey));
    assert!(session.peer.is_none());
    assert!(session.is_valid());
}

#[test]
fn key_of_another_size_fails_the_exchange() {
    let local = pair();
    let peer = KeyPair::generate(1024).unwrap();
    let (session, _) = Session::new().advance(&local, done());
    let (session, _) = session.advance(&local, done());
    let block = peer.public_key.to_block().unwrap();
    assert_eq!(block.len(), 272);
    let (session, action) = session.advance(&local, Outcome::Completed(block));
    assert_eq!(session.stage, Stage::Failed);
    assert_eq!(action, Action::Stop(ProtocolError::Io));
}

#[test]
fn wrong_token_is_a_mismatch() {
    let local = pair();
    let peer = pair();
    for reply in [&b"NAK"[..], &b"AC"[..], &b""[..], &b"HEARTBEAT"[..], &b"xACK"[..]] {
        let session = exchanged(&local, &peer);
        let sealed = seal(&local.public_key, &reply.to_vec()).unwrap();
        let (session, action) = session.advance(&local, Outcome::Completed(sealed));
        assert_eq!(session.stage, Stage::Failed);
        assert_eq!(session.failure, Some(ProtocolError::TokenMismatch));
        assert_eq!(action, Action::Stop(ProtocolError::TokenMismatch));
        let (session, action) = session.advance(&local, done());
        assert_eq!(session.stage, Stage::Failed);
        assert_eq!(session.failure, Some(ProtocolError::TokenMismatch));
        assert_eq!(action, Action::Halt);
    }
}

#[test]
fn confirmation_that_cannot_be_decrypted_fails() {
    let local = pair();
    let peer = pair();
    let session = exchanged(&local, &peer);
    let (session, action) = session.advance(&local, Outcome::Completed(vec![0u8; 64]));
    assert_eq!(session.stage, Stage::Failed);
    assert_eq!(action, Action::Stop(ProtocolError::Decryption));
}

#[test]
fn short_confirmation_is_an_io_error() {
    let local = pair();
    let peer = pair();
    let session = exchanged(&local, &peer);
    let (session, action) = session.advance(&local, Outcome::Completed(vec![1u8; 63]));
    assert_eq!(session.stage, Stage::Failed);
    assert_eq!(action, Action::Stop(ProtocolError::Io));
}

#[test]
fn silent_peer_fails_the_next_read() {
    let local = pair();
    let peer = pair();
    let mut session = synchronized(&local, &peer);
    for _ in 0..3 {
        session = heartbeat(session, &local, &peer);
    }
    let (session, action) = session.advance(&local, done());
    assert_eq!(session.stage, Stage::SendingHeartbeat);
    assert_eq!(written(action).len(), 64);
    let (session, action) = session.advance(&local, done());
    assert_eq!(action, Action::Read(64));
    let (session, action) = session.advance(&local, Outcome::Broken);
    assert_eq!(session.stage, Stage::Failed);
    assert_eq!(session.failure, Some(ProtocolError::Io));
    assert_eq!(action, Action::Stop(ProtocolError::Io));
}

#[test]
fn failed_session_leaves_another_untouched() {
    let local = pair();
    let first_peer = pair();
    let second_peer = pair();
    let first = synchronized(&local, &first_peer);
    let second = synchronized(&local, &second_peer);
    let (first, _) = first.advance(&local, Outcome::Broken);
    assert_eq!(first.stage, Stage::Failed);
    assert_eq!(second.stage, Stage::Synchronized);
    let second = heartbeat(second, &local, &second_peer);
    assert_eq!(second.stage, Stage::Resting);
    assert!(second.failure.is_none());
}

#[test]
fn peer_that_goes_quiet_after_synchronization() {
    let local = pair();
    let peer = pair();
    let session = synchronized(&local, &peer);
    let (session, action) = session.advance(&local, done());
    let sealed = written(action);
    assert_eq!(open(&peer, &sealed), Ok(b"HEARTBEAT".to_vec()));
    let (session, action) = session.advance(&local, done());
    assert_eq!(action, Action::Read(local.public_key.modulus_bytes()));
    let (session, action) = session.advance(&local, Outcome::Broken);
    assert_eq!(session.phase(), Phase::Failed);
    assert_eq!(action, Action::Stop(ProtocolError::Io));
}

#[test]
fn heartbeat_answer_is_not_compared() {
    let local = pair();
    let peer = pair();
    let session = synchronized(&local, &peer);
    let (session, _) = session.advance(&local, done());
    let (session, _) = session.advance(&local, done());
    let reply = seal(&local.public_key, &b"whatever".to_vec()).unwrap();
    let (session, action) = session.advance(&local, Outcome::Completed(reply));
    assert_eq!(session.stage, Stage::Resting);
    assert_eq!(action, Action::Sleep(5));
}

#[test]
fn heartbeat_answer_that_cannot_be_decrypted_fails() {
    let local = pair();
    let peer = pair();
    let session = synchronized(&local, &peer);
    let (session, _) = session.advance(&local, done());
    let (session, _) = session.advance(&local, done());
    let (session, action) = session.advance(&local, Outcome::Completed(vec![0xffu8; 64]));
    assert_eq!(session.stage, Stage::Failed);
    assert_eq!(action, Action::Stop(ProtocolError::Decryption));
}

#[test]
fn broken_stream_fails_every_live_stage() {
    let local = pair();
    let peer = pair();
    let (session, action) = Session::new().advance(&local, Outcome::Broken);
    assert_eq!(session.failure, Some(ProtocolError::Io));
    assert_eq!(action, Action::Stop(ProtocolError::Io));
    let (session, action) = exchanged(&local, &peer).advance(&local, Outcome::Broken);
    assert_eq!(session.failure, Some(ProtocolError::Io));
    assert_eq!(action, Action::Stop(ProtocolError::Io));
    assert!(session.peer.is_some());
}

#[test]
fn small_peer_key_cannot_take_the_token() {
    let local = pair();
    let (session, _) = Session::new().advance(&local, done());
    let (session, _) = session.advance(&local, done());
    let small = PublicKey { modulus: vec![0xc1; 13], exponent: vec![1, 0, 1] };
    let sealed = seal(&small, &b"ACK".to_vec());
    let (session, action) = Session::dispatch(small, sealed, Stage::SendingToken);
    assert_eq!(session.stage, Stage::Failed);
    assert_eq!(action, Action::Stop(ProtocolError::PlaintextTooLarge));
}

#[test]
fn dispatch_writes_what_was_sealed() {
    let key = PublicKey { modulus: vec![0xc1; 64], exponent: vec![1, 0, 1] };
    let (session, action) = Session::dispatch(key, Ok(vec![4u8; 64]), Stage::SendingHeartbeat);
    assert_eq!(session.stage, Stage::SendingHeartbeat);
    assert_eq!(action, Action::Write(vec![4u8; 64]));
    assert!(session.failure.is_none());
    let key = PublicKey { modulus: vec![0xc1; 64], exponent: vec![1, 0, 1] };
    let (session, action) =
        Session::dispatch(key, Err(ProtocolError::MalformedKey), Stage::SendingToken);
    assert_eq!(session.stage, Stage::Failed);
    assert_eq!(session.failure, Some(ProtocolError::MalformedKey));
    assert_eq!(action, Action::Stop(ProtocolError::MalformedKey));
}

#[test]
fn fail_keeps_the_peer_and_stops() {
    let (session, action) = Session::new().fail(ProtocolError::Decryption);
    assert_eq!(session.stage, Stage::Failed);
    assert_eq!(session.failure, Some(ProtocolError::Decryption));
    assert_eq!(action, Action::Stop(ProtocolError::Decryption));
    assert!(session.peer.is_none());
}

#[test]
fn close_ends_a_live_session() {
    let local = pair();
    let session = Session::new().close();
    assert_eq!(session.stage, Stage::Closed);
    assert_eq!(session.phase(), Phase::Closed);
    assert!(session.is_valid());
    let (session, action) = session.advance(&local, done());
    assert_eq!(session.stage, Stage::Closed);
    assert_eq!(action, Action::Halt);
    let (session, action) = session.advance(&local, Outcome::Broken);
    assert_eq!(session.stage, Stage::Closed);
    assert_eq!(action, Action::Halt);
}

#[test]
fn close_leaves_a_failed_session_failed() {
    let (session, _) = Session::new().fail(ProtocolError::Io);
    let session = session.close();
    assert_eq!(session.stage, Stage::Failed);
    assert_eq!(session.failure, Some(ProtocolError::Io));
}

#[test]
fn session_validity() {
    let key = PublicKey { modulus: vec![0xc1; 64], exponent: vec![1, 0, 1] };
    assert!(!Session { stage: Stage::Start, peer: Some(key.clone()), failure: None }.is_valid());
    assert!(!Session { stage: Stage::Resting, peer: None, failure: None }.is_valid());
    assert!(Session { stage: Stage::Resting, peer: Some(key.clone()), failure: None }.is_valid());
    assert!(!Session { stage: Stage::Failed, peer: Some(key.clone()), failure: None }.is_valid());
    assert!(!Session { stage: Stage::Closed, peer: None, failure: Some(ProtocolError::Io) }
        .is_valid());
    assert!(Session { stage: Stage::Failed, peer: Some(key), failure: Some(ProtocolError::Io) }
        .is_valid());
}
