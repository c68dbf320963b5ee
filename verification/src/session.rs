//! The state machine of one connection.
//!
//! A session never touches the stream. It tells its driver what to do next (write
//! these bytes, read that many, wait) and is told how that went. The keys are
//! exchanged once, the confirmation round comes before any heartbeat, and the
//! first failure ends the session for good.

use crate::cipher::{decoded_key_block, decrypted_block, encoded_key_block, open, seal};
use crate::cipher::{KeyPair, PublicKey};
use crate::error::ProtocolError;
use crate::framing::{key_block_len, key_block_len_spec, plaintext_fits, HEARTBEAT_PERIOD_SECS};
use vstd::prelude::*;

verus! {

/// How far a connection has come.
#[derive(Clone, Copy, Debug, PartialEq, Eq, Structural)]
pub enum Stage {
    /// Nothing has happened yet.
    Start,
    /// The local key block is being written.
    SendingKey,
    /// The peer's key block is being read.
    AwaitingKey,
    /// The sealed confirmation token is being written.
    SendingToken,
    /// The peer's confirmation is being read.
    AwaitingToken,
    /// The peer's confirmation was accepted.
    Synchronized,
    /// A sealed heartbeat is being written.
    SendingHeartbeat,
    /// The peer's answer to a heartbeat is being read.
    AwaitingHeartbeat,
    /// The pause between two heartbeat rounds.
    Resting,
    /// The connection was closed in good order.
    Closed,
    /// The connection failed.
    Failed,
}

/// The coarse state of a connection.
#[derive(Clone, Copy, Debug, PartialEq, Eq, Structural)]
pub enum Phase {
    /// The keys are not exchanged yet.
    Connecting,
    /// The peer's key is known, its confirmation is not.
    KeyExchanged,
    /// The peer has confirmed.
    Synchronized,
    /// Heartbeat rounds are running.
    Heartbeating,
    /// Closed in good order.
    Closed,
    /// Failed.
    Failed,
}

/// What the driver is to do next.
#[derive(Debug, PartialEq, Eq)]
pub enum Action {
    /// Write all of these bytes to the stream, in one operation.
    Write(Vec<u8>),
    /// Read exactly this many bytes from the stream.
    Read(usize),
    /// Make known that the peer has confirmed.
    Announce,
    /// Wait this many seconds.
    Sleep(u64),
    /// End the connection and report this error.
    Stop(ProtocolError),
    /// The session is over; nothing is left to do.
    Halt,
}

/// How the last action went.
#[derive(Debug, PartialEq, Eq)]
pub enum Outcome {
    /// It was carried out. After a read these are the bytes; otherwise they
    /// are ignored.
    Completed(Vec<u8>),
    /// The read or write failed, or came up short.
    Broken,
}

/// One connection: its stage, the peer's key once it has arrived, and the
/// error that ended it, if one did.
#[derive(Debug)]
pub struct Session {
    /// How far the connection has come.
    pub stage: Stage,
    /// The peer's public key, from the key exchange on.
    pub peer: Option<PublicKey>,
    /// The error that ended the connection.
    pub failure: Option<ProtocolError>,
}

/// The token that both ends seal to confirm the key exchange: `ACK`.
pub open spec fn confirmation_token_spec() -> Seq<u8> {
    seq![0x41u8, 0x43u8, 0x4bu8]
}

/// The payload of a heartbeat: `HEARTBEAT`.
pub open spec fn heartbeat_token_spec() -> Seq<u8> {
    seq![0x48u8, 0x45u8, 0x41u8, 0x52u8, 0x54u8, 0x42u8, 0x45u8, 0x41u8, 0x54u8]
}

/// Whether `bytes` begins with `token`.
pub open spec fn starts_with(bytes: Seq<u8>, token: Seq<u8>) -> bool {
    token.len() <= bytes.len() && bytes.subrange(0, token.len() as int) == token
}

/// The coarse state that a stage belongs to.
pub open spec fn phase_of(stage: Stage) -> Phase {
    match stage {
        Stage::Start | Stage::SendingKey | Stage::AwaitingKey => Phase::Connecting,
        Stage::SendingToken | Stage::AwaitingToken => Phase::KeyExchanged,
        Stage::Synchronized => Phase::Synchronized,
        Stage::SendingHeartbeat | Stage::AwaitingHeartbeat | Stage::Resting => Phase::Heartbeating,
        Stage::Closed => Phase::Closed,
        Stage::Failed => Phase::Failed,
    }
}

/// The stages after which nothing happens any more.
pub open spec fn is_terminal(stage: Stage) -> bool {
    stage == Stage::Closed || stage == Stage::Failed
}

/// The token that confirms the key exchange.
pub fn confirmation_token() -> (r: Vec<u8>)
    ensures
        r@ == confirmation_token_spec(),
{
    let r: Vec<u8> = vec![0x41u8, 0x43u8, 0x4bu8];
    assert(r@ =~= confirmation_token_spec());
    r
}

/// The payload of a heartbeat.
pub fn heartbeat_token() -> (r: Vec<u8>)
    ensures
        r@ == heartbeat_token_spec(),
{
    let r: Vec<u8> = vec![0x48u8, 0x45u8, 0x41u8, 0x52u8, 0x54u8, 0x42u8, 0x45u8, 0x41u8, 0x54u8];
    assert(r@ =~= heartbeat_token_spec());
    r
}

/// Whether `bytes` begins with `token`.
pub fn has_prefix(bytes: &Vec<u8>, token: &Vec<u8>) -> (r: bool)
    ensures
        r == starts_with(bytes@, token@),
{
    if token.len() > bytes.len() {
        return false;
    }
    let mut i: usize = 0;
    while i < token.len()
        invariant
            i <= token.len() <= bytes.len(),
            forall|j: int| 0 <= j < i ==> bytes@[j] == token@[j],
        decreases token.len() - i,
    {
        if bytes[i] != token[i] {
            assert(bytes@.subrange(0, token@.len() as int)[i as int] != token@[i as int]);
            return false;
        }
        i += 1;
    }
    assert(bytes@.subrange(0, token@.len() as int) =~= token@);
    true
}

impl Session {
    /// The peer's key as plain values.
    pub open spec fn peer_view(&self) -> Option<(Seq<u8>, Seq<u8>)> {
        match self.peer {
            Some(key) => Some((key.modulus@, key.exponent@)),
            None => None,
        }
    }

    /// A session holds the peer's key from the end of the key exchange on, and
    /// an error exactly when it has failed.
    pub open spec fn wf(&self) -> bool {
        &&& (phase_of(self.stage) == Phase::KeyExchanged || phase_of(self.stage)
            == Phase::Synchronized || phase_of(self.stage) == Phase::Heartbeating)
            ==> (self.peer matches Some(key) && key.wf())
        &&& phase_of(self.stage) == Phase::Connecting ==> self.peer is None
        &&& self.stage == Stage::Failed <==> self.failure is Some
    }

    /// The coarse state of the session.
    pub open spec fn phase_spec(&self) -> Phase {
        phase_of(self.stage)
    }

    /// `post` is this session after it failed with `error`, and `action` stops
    /// the connection with that error.
    pub open spec fn fails_with(&self, error: ProtocolError, post: Session, action: Action) -> bool {
        &&& post.stage == Stage::Failed
        &&& post.failure == Some(error)
        &&& post.peer_view() == self.peer_view()
        &&& action == Action::Stop(error)
    }

    /// `post` and `action` are what may follow when `token` is sealed for `peer`
    /// and, if that goes well, written in stage `next`. A token that does not fit
    /// fails the session; a peer's key that cannot be used fails it too.
    pub open spec fn sends_token(
        &self,
        peer: Option<(Seq<u8>, Seq<u8>)>,
        token: Seq<u8>,
        next: Stage,
        post: Session,
        action: Action,
    ) -> bool {
        &&& post.peer_view() == peer
        &&& peer matches Some((modulus, _)) && if !plaintext_fits(token.len(), modulus.len()) {
            &&& post.stage == Stage::Failed
            &&& post.failure == Some(ProtocolError::PlaintextTooLarge)
            &&& action == Action::Stop(ProtocolError::PlaintextTooLarge)
        } else {
            ||| {
                &&& post.stage == next
                &&& post.failure is None
                &&& action matches Action::Write(block)
                &&& block@.len() == modulus.len()
            }
            ||| {
                &&& post.stage == Stage::Failed
                &&& post.failure == Some(ProtocolError::MalformedKey)
                &&& action == Action::Stop(ProtocolError::MalformedKey)
            }
        }
    }

    /// `post` is this session in stage `next`, and `action` is what the driver
    /// is asked to do.
    pub open spec fn moves_to(&self, next: Stage, wanted: Action, post: Session, action: Action) -> bool {
        &&& post.stage == next
        &&& post.failure is None
        &&& post.peer_view() == self.peer_view()
        &&& action == wanted
    }

    /// The steps that a session may take: whether `post` and `action` may follow
    /// from this session when the driver reports `outcome`. All but the bytes of
    /// a sealed block, and whether sealing went well, is fixed by the arguments.
    pub open spec fn step_allows(
        &self,
        local: KeyPair,
        outcome: Outcome,
        post: Session,
        action: Action,
    ) -> bool {
        if is_terminal(self.stage) {
            &&& post.stage == self.stage
            &&& post.failure == self.failure
            &&& post.peer_view() == self.peer_view()
            &&& action == Action::Halt
        } else {
            match outcome {
                Outcome::Broken => self.fails_with(ProtocolError::Io, post, action),
                Outcome::Completed(data) => match self.stage {
                    Stage::Start => match encoded_key_block(
                        local.public_key.modulus@,
                        local.public_key.exponent@,
                    ) {
                        Some(block) => {
                            &&& post.stage == Stage::SendingKey
                            &&& post.failure is None
                            &&& post.peer_view() == self.peer_view()
                            &&& action matches Action::Write(bytes)
                            &&& bytes@ == block
                        },
                        None => self.fails_with(ProtocolError::MalformedKey, post, action),
                    },
                    Stage::SendingKey => self.moves_to(
                        Stage::AwaitingKey,
                        Action::Read(key_block_len_spec(local.bits as nat) as usize),
                        post,
                        action,
                    ),
                    Stage::AwaitingKey => if data@.len() != key_block_len_spec(local.bits as nat) {
                        self.fails_with(ProtocolError::Io, post, action)
                    } else {
                        match decoded_key_block(data@) {
                            Some(key) => self.sends_token(
                                Some(key),
                                confirmation_token_spec(),
                                Stage::SendingToken,
                                post,
                                action,
                            ),
                            None => self.fails_with(ProtocolError::MalformedKey, post, action),
                        }
                    },
                    Stage::SendingToken => self.moves_to(
                        Stage::AwaitingToken,
                        Action::Read(local.public_key.block_len() as usize),
                        post,
                        action,
                    ),
                    Stage::AwaitingToken => if data@.len() != local.public_key.block_len() {
                        self.fails_with(ProtocolError::Io, post, action)
                    } else {
                        match decrypted_block(local.private_key@, data@) {
                            Some(reply) => if starts_with(reply, confirmation_token_spec()) {
                                self.moves_to(Stage::Synchronized, Action::Announce, post, action)
                            } else {
                                self.fails_with(ProtocolError::TokenMismatch, post, action)
                            },
                            None => self.fails_with(ProtocolError::Decryption, post, action),
                        }
                    },
                    Stage::Synchronized | Stage::Resting => self.sends_token(
                        self.peer_view(),
                        heartbeat_token_spec(),
                        Stage::SendingHeartbeat,
                        post,
                        action,
                    ),
                    Stage::SendingHeartbeat => self.moves_to(
                        Stage::AwaitingHeartbeat,
                        Action::Read(local.public_key.block_len() as usize),
                        post,
                        action,
                    ),
                    Stage::AwaitingHeartbeat => if data@.len() != local.public_key.block_len() {
                        self.fails_with(ProtocolError::Io, post, action)
                    } else {
                        match decrypted_block(local.private_key@, data@) {
                            Some(_) => self.moves_to(
                                Stage::Resting,
                                Action::Sleep(HEARTBEAT_PERIOD_SECS),
                                post,
                                action,
                            ),
                            None => self.fails_with(ProtocolError::Decryption, post, action),
                        }
                    },
                    Stage::Closed | Stage::Failed => false,
                },
            }
        }
    }

    /// A session on a fresh connection.
    pub fn new() -> (r: Session)
        ensures
            r.wf(),
            r.stage == Stage::Start,
            r.peer is None,
            r.failure is None,
    {
        Session { stage: Stage::Start, peer: None, failure: None }
    }

    /// Whether the session is well formed.
    pub fn is_valid(&self) -> (r: bool)
        ensures
            r == self.wf(),
    {
        let failed: bool = self.failure.is_some();
        match self.stage {
            Stage::Start | Stage::SendingKey | Stage::AwaitingKey => self.peer.is_none() && !failed,
            Stage::Closed => !failed,
            Stage::Failed => failed,
            _ => match &self.peer {
                Some(key) => key.is_valid() && !failed,
                None => false,
            },
        }
    }

    /// The coarse state of the session.
    pub fn phase(&self) -> (r: Phase)
        ensures
            r == self.phase_spec(),
    {
        match self.stage {
            Stage::Start | Stage::SendingKey | Stage::AwaitingKey => Phase::Connecting,
            Stage::SendingToken | Stage::AwaitingToken => Phase::KeyExchanged,
            Stage::Synchronized => Phase::Synchronized,
            Stage::SendingHeartbeat | Stage::AwaitingHeartbeat | Stage::Resting => {
                Phase::Heartbeating
            },
            Stage::Closed => Phase::Closed,
            Stage::Failed => Phase::Failed,
        }
    }

    /// Ends the session with `error`.
    pub fn fail(self, error: ProtocolError) -> (r: (Session, Action))
        requires
            self.wf(),
        ensures
            r.0.wf(),
            self.fails_with(error, r.0, r.1),
    {
        (Session { stage: Stage::Failed, peer: self.peer, failure: Some(error) }, Action::Stop(error))
    }

    /// Closes a session that has not failed. A failed one stays failed.
    pub fn close(self) -> (r: Session)
        requires
            self.wf(),
        ensures
            r.wf(),
            r.stage == if self.stage == Stage::Failed {
                Stage::Failed
            } else {
                Stage::Closed
            },
            r.failure == self.failure,
            r.peer_view() == self.peer_view(),
    {
        match self.stage {
            Stage::Failed => self,
            _ => Session { stage: Stage::Closed, peer: self.peer, failure: self.failure },
        }
    }

    /// Goes on to stage `next` with the outcome of sealing a token for `peer`:
    /// the block is written, or the error ends the session.
    pub fn dispatch(peer: PublicKey, sealed: Result<Vec<u8>, ProtocolError>, next: Stage) -> (r: (
        Session,
        Action,
    ))
        requires
            peer.wf(),
            next == Stage::SendingToken || next == Stage::SendingHeartbeat,
        ensures
            r.0.wf(),
            r.0.peer_view() == Some((peer.modulus@, peer.exponent@)),
            match sealed {
                Ok(block) => r.0.stage == next && r.0.failure is None && (r.1 matches Action::Write(
                    bytes,
                ) && bytes@ == block@),
                Err(error) => r.0.stage == Stage::Failed && r.0.failure == Some(error) && r.1
                    == Action::Stop(error),
            },
    {
        match sealed {
            Ok(block) => (
                Session { stage: next, peer: Some(peer), failure: None },
                Action::Write(block),
            ),
            Err(error) => (
                Session { stage: Stage::Failed, peer: Some(peer), failure: Some(error) },
                Action::Stop(error),
            ),
        }
    }

    /// Takes the outcome of the last action and says what comes next. A fresh
    /// session has no last action: it is given a completed one without bytes,
    /// and asks for the local key block to be written.
    pub fn advance(self, local: &KeyPair, outcome: Outcome) -> (r: (Session, Action))
        requires
            self.wf(),
            local.wf(),
        ensures
            r.0.wf(),
            self.step_allows(*local, outcome, r.0, r.1),
    {
        match self.stage {
            Stage::Closed | Stage::Failed => {
                return (self, Action::Halt);
            },
            _ => {},
        }
        let data: Vec<u8> = match outcome {
            Outcome::Broken => {
                return self.fail(ProtocolError::Io);
            },
            Outcome::Completed(data) => data,
        };
        let block_len: usize = local.public_key.modulus_bytes();
        match self.stage {
            Stage::Start => match local.public_key.to_block() {
                Ok(block) => (
                    Session { stage: Stage::SendingKey, peer: self.peer, failure: None },
                    Action::Write(block),
                ),
                Err(error) => self.fail(error),
            },
            Stage::SendingKey => {
                let wanted: usize = key_block_len(local.bits).unwrap();
                (
                    Session { stage: Stage::AwaitingKey, peer: self.peer, failure: None },
                    Action::Read(wanted),
                )
            },
            Stage::AwaitingKey => {
                let wanted: usize = key_block_len(local.bits).unwrap();
                if data.len() != wanted {
                    return self.fail(ProtocolError::Io);
                }
                match PublicKey::from_block(&data) {
                    Ok(peer) => {
                        let token: Vec<u8> = confirmation_token();
                        let sealed = seal(&peer, &token);
                        Session::dispatch(peer, sealed, Stage::SendingToken)
                    },
                    Err(error) => self.fail(error),
                }
            },
            Stage::SendingToken => (
                Session { stage: Stage::AwaitingToken, peer: self.peer, failure: None },
                Action::Read(block_len),
            ),
            Stage::AwaitingToken => {
                if data.len() != block_len {
                    return self.fail(ProtocolError::Io);
                }
                match open(local, &data) {
                    Ok(reply) => {
                        let token: Vec<u8> = confirmation_token();
                        if has_prefix(&reply, &token) {
                            (
                                Session {
                                    stage: Stage::Synchronized,
                                    peer: self.peer,
                                    failure: None,
                                },
                                Action::Announce,
                            )
                        } else {
                            self.fail(ProtocolError::TokenMismatch)
                        }
                    },
                    Err(error) => self.fail(error),
                }
            },
            Stage::Synchronized | Stage::Resting => {
                let peer: PublicKey = self.peer.unwrap();
                let token: Vec<u8> = heartbeat_token();
                let sealed = seal(&peer, &token);
                Session::dispatch(peer, sealed, Stage::SendingHeartbeat)
            },
            Stage::SendingHeartbeat => (
                Session { stage: Stage::AwaitingHeartbeat, peer: self.peer, failure: None },
                Action::Read(block_len),
            ),
            Stage::AwaitingHeartbeat => {
                if data.len() != block_len {
                    return self.fail(ProtocolError::Io);
                }
                match open(local, &data) {
                    Ok(_) => (
                        Session { stage: Stage::Resting, peer: self.peer, failure: None },
                        Action::Sleep(HEARTBEAT_PERIOD_SECS),
                    ),
                    Err(error) => self.fail(error),
                }
            },
            Stage::Closed | Stage::Failed => (self, Action::Halt),
        }
    }
}

/// Heartbeats only follow synchronization: a step ends in a heartbeat stage
/// only if it began in the synchronized stage or in a heartbeat stage.
pub proof fn lemma_heartbeat_follows_synchronization(
    pre: Session,
    local: KeyPair,
    outcome: Outcome,
    post: Session,
    action: Action,
)
    requires
        pre.step_allows(local, outcome, post, action),
        phase_of(post.stage) == Phase::Heartbeating,
    ensures
        phase_of(pre.stage) == Phase::Synchronized || phase_of(pre.stage) == Phase::Heartbeating,
{
}

/// A session becomes synchronized in one way only: the peer's confirmation was
/// read in full, could be decrypted, and starts with the token.
pub proof fn lemma_synchronized_needs_token(
    pre: Session,
    local: KeyPair,
    outcome: Outcome,
    post: Session,
    action: Action,
)
    requires
        pre.step_allows(local, outcome, post, action),
        post.stage == Stage::Synchronized,
    ensures
        pre.stage == Stage::AwaitingToken,
        action == Action::Announce,
        outcome matches Outcome::Completed(data) && data@.len() == local.public_key.block_len() && (
        decrypted_block(local.private_key@, data@) matches Some(reply) && starts_with(
            reply,
            confirmation_token_spec(),
        )),
{
}

/// The keys are exchanged once: only the step that reads the peer's key block
/// changes the peer's key, and before that step there is none.
pub proof fn lemma_single_key_exchange(
    pre: Session,
    local: KeyPair,
    outcome: Outcome,
    post: Session,
    action: Action,
)
    requires
        pre.wf(),
        pre.step_allows(local, outcome, post, action),
        post.peer_view() != pre.peer_view(),
    ensures
        pre.stage == Stage::AwaitingKey,
        pre.peer_view() is None,
        outcome matches Outcome::Completed(data) && decoded_key_block(data@) == post.peer_view(),
{
}

/// A key block that is short, or that is no public key, ends the session
/// before anything is sealed or written: the step fails, and asks for no write.
pub proof fn lemma_bad_key_block_fails(
    pre: Session,
    local: KeyPair,
    data: Vec<u8>,
    post: Session,
    action: Action,
)
    requires
        pre.stage == Stage::AwaitingKey,
        pre.step_allows(local, Outcome::Completed(data), post, action),
        data@.len() != key_block_len_spec(local.bits as nat) || decoded_key_block(data@) is None,
    ensures
        post.stage == Stage::Failed,
        post.peer_view() == pre.peer_view(),
        action == Action::Stop(
            if data@.len() != key_block_len_spec(local.bits as nat) {
                ProtocolError::Io
            } else {
                ProtocolError::MalformedKey
            },
        ),
{
}

/// A confirmation that decrypts to bytes that do not start with the token ends
/// the session with a token mismatch, and that error is the only one reported.
pub proof fn lemma_wrong_token_fails(
    pre: Session,
    local: KeyPair,
    data: Vec<u8>,
    reply: Seq<u8>,
    post: Session,
    action: Action,
)
    requires
        pre.stage == Stage::AwaitingToken,
        pre.step_allows(local, Outcome::Completed(data), post, action),
        data@.len() == local.public_key.block_len(),
        decrypted_block(local.private_key@, data@) == Some(reply),
        !starts_with(reply, confirmation_token_spec()),
    ensures
        post.stage == Stage::Failed,
        post.failure == Some(ProtocolError::TokenMismatch),
        action == Action::Stop(ProtocolError::TokenMismatch),
{
}

/// A peer that stops answering ends the session at the read that fails,
/// however many rounds went well before: a session that is not over fails with
/// an I/O error on any broken read or write.
pub proof fn lemma_broken_stream_fails(
    pre: Session,
    local: KeyPair,
    post: Session,
    action: Action,
)
    requires
        !is_terminal(pre.stage),
        pre.step_allows(local, Outcome::Broken, post, action),
    ensures
        post.stage == Stage::Failed,
        post.failure == Some(ProtocolError::Io),
        action == Action::Stop(ProtocolError::Io),
{
}

/// A heartbeat round comes back to where it began: a heartbeat that was written
/// is followed by a read of one block, and any answer that can be decrypted by
/// the pause before the next round.
pub proof fn lemma_heartbeat_round(
    pre: Session,
    local: KeyPair,
    data: Vec<u8>,
    post: Session,
    action: Action,
)
    requires
        pre.step_allows(local, Outcome::Completed(data), post, action),
    ensures
        pre.stage == Stage::SendingHeartbeat ==> post.stage == Stage::AwaitingHeartbeat && action
            == Action::Read(local.public_key.block_len() as usize),
        pre.stage == Stage::AwaitingHeartbeat && data@.len() == local.public_key.block_len()
            && decrypted_block(local.private_key@, data@) is Some ==> post.stage == Stage::Resting
            && action == Action::Sleep(HEARTBEAT_PERIOD_SECS),
        pre.stage == Stage::Resting ==> post.stage == Stage::SendingHeartbeat || post.stage
            == Stage::Failed,
{
}

/// Nothing is tried again: once a session is closed or has failed, every step
/// leaves it as it is and asks for nothing.
pub proof fn lemma_terminal_is_final(
    pre: Session,
    local: KeyPair,
    outcome: Outcome,
    post: Session,
    action: Action,
)
    requires
        is_terminal(pre.stage),
        pre.step_allows(local, outcome, post, action),
    ensures
        post.stage == pre.stage,
        post.failure == pre.failure,
        post.peer_view() == pre.peer_view(),
        action == Action::Halt,
{
}

/// Every block that a session asks to have written after the key exchange is
/// sealed for the peer and has the length of the peer's modulus.
pub proof fn lemma_written_blocks_are_sealed(
    pre: Session,
    local: KeyPair,
    outcome: Outcome,
    post: Session,
    action: Action,
)
    requires
        pre.step_allows(local, outcome, post, action),
        pre.stage != Stage::Start,
        action is Write,
    ensures
        post.stage == Stage::SendingToken || post.stage == Stage::SendingHeartbeat,
        post.peer_view() matches Some((modulus, _)) && (action matches Action::Write(block)
            && block@.len() == modulus.len()),
{
}

} // verus!
