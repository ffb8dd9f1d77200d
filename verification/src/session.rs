//! Per-user session state: status, record, and their well-formedness.

use crate::messages::{Feedback, FeedbackView, Outcome};
use vstd::prelude::*;

verus! {

/// Number of guesses a game allows before it is lost.
pub const TRIES_LIMIT: u8 = 5;

/// Time-units a user has to submit a guess once control is handed back.
pub const TIMEOUT_DELAY: u32 = 200;

/// Where a session stands. Exactly one variant is active per session.
#[derive(Clone, Debug, PartialEq, Eq)]
pub enum SessionStatus {
    /// No game started yet.
    Init,
    /// Start request sent to the word-checking service, awaiting its reply.
    WaitingForGameStart,
    /// Feedback delivered; awaiting the user's next guess.
    WaitingForUserInput,
    /// Guess sent to the word-checking service, awaiting its reply.
    WaitingForGuessCheck,
    /// A service reply arrived but the parked invocation has not consumed
    /// it yet; collapsed on the next action.
    ReplyReceived(Feedback),
    /// Terminal: no further guesses until a new game is started.
    GameOver(Outcome),
}

/// Mathematical model of a `SessionStatus`.
pub ghost enum StatusView {
    Init,
    WaitingForGameStart,
    WaitingForUserInput,
    WaitingForGuessCheck,
    ReplyReceived(FeedbackView),
    GameOver(Outcome),
}

impl View for SessionStatus {
    type V = StatusView;

    open spec fn view(&self) -> StatusView {
        match self {
            SessionStatus::Init => StatusView::Init,
            SessionStatus::WaitingForGameStart => StatusView::WaitingForGameStart,
            SessionStatus::WaitingForUserInput => StatusView::WaitingForUserInput,
            SessionStatus::WaitingForGuessCheck => StatusView::WaitingForGuessCheck,
            SessionStatus::ReplyReceived(f) => StatusView::ReplyReceived(f@),
            SessionStatus::GameOver(o) => StatusView::GameOver(*o),
        }
    }
}

impl SessionStatus {
    /// A copy of the status, equal to the original.
    pub fn duplicate(&self) -> (r: SessionStatus)
        ensures
            r@ == self@,
    {
        match self {
            SessionStatus::Init => SessionStatus::Init,
            SessionStatus::WaitingForGameStart => SessionStatus::WaitingForGameStart,
            SessionStatus::WaitingForUserInput => SessionStatus::WaitingForUserInput,
            SessionStatus::WaitingForGuessCheck => SessionStatus::WaitingForGuessCheck,
            SessionStatus::ReplyReceived(f) => SessionStatus::ReplyReceived(f.duplicate()),
            SessionStatus::GameOver(o) => SessionStatus::GameOver(*o),
        }
    }
}

/// One user's game state.
#[derive(Clone, Debug, PartialEq, Eq)]
pub struct SessionRecord {
    /// Id of the inbound action currently owning this session's parked
    /// continuation; also the snapshot a scheduled timeout carries.
    pub session_id: u64,
    /// Id of the exact inbound message to resume when the awaited reply
    /// arrives.
    pub original_request_id: u64,
    /// Id of the outstanding request sent to the word-checking service;
    /// a reply is honoured only if it names this id.
    pub outbound_request_id: u64,
    /// Guesses consumed so far, bounded by `TRIES_LIMIT`.
    pub tries: u8,
    /// Where the session stands.
    pub status: SessionStatus,
}

/// Mathematical model of a `SessionRecord`.
pub ghost struct RecordView {
    pub session_id: u64,
    pub original_request_id: u64,
    pub outbound_request_id: u64,
    pub tries: u8,
    pub status: StatusView,
}

impl View for SessionRecord {
    type V = RecordView;

    open spec fn view(&self) -> RecordView {
        RecordView {
            session_id: self.session_id,
            original_request_id: self.original_request_id,
            outbound_request_id: self.outbound_request_id,
            tries: self.tries,
            status: self.status@,
        }
    }
}

/// Record well-formedness: the tries count never exceeds the limit, and a
/// session that has not ended keeps room for at least one more guess (the
/// count reaches the limit only at the moment the game is lost).
pub open spec fn record_wf(r: RecordView) -> bool {
    &&& r.tries <= TRIES_LIMIT
    &&& !(r.status is GameOver) ==> r.tries < TRIES_LIMIT
}

impl SessionRecord {
    /// A copy of the record, equal to the original.
    pub fn duplicate(&self) -> (r: SessionRecord)
        ensures
            r@ == self@,
    {
        SessionRecord {
            session_id: self.session_id,
            original_request_id: self.original_request_id,
            outbound_request_id: self.outbound_request_id,
            tries: self.tries,
            status: self.status.duplicate(),
        }
    }
}

} // verus!
