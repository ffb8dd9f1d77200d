//! The orchestrator: the single authority that interprets inbound actions,
//! service replies and timeouts, and drives each user's session record.
//!
//! Every entry operation is a pure step of the state machine: it takes the
//! identifiers the runtime knows (who sent the message, its id, the id the
//! transport will assign to an outbound request) and returns an effect value
//! naming what the runtime must do. Rejections never change the table.

use crate::messages::{
    valid_word, Action, ActionError, ActionView, Event, EventView, Feedback, InitError, Outcome,
    ReplyEffect, ServiceRequest, ServiceRequestView, StepEffect, StepEffectView, TimeoutEffect,
    TimeoutEffectView,
};
use crate::messages::{event_of_feedback, feedback_user, spec_has_guessed};
use crate::session::{
    RecordView, SessionRecord, SessionStatus, StatusView, TIMEOUT_DELAY, TRIES_LIMIT,
};
use crate::table::{
    has_key, lemma_key_index, lemma_table_with, record_of, table_wf, table_with, SessionTable,
};
use vstd::prelude::*;

verus! {

/// Identifiers the runtime supplies with an inbound message.
pub struct InboundCtx {
    /// Who sent the inbound message.
    pub sender: u64,
    /// The orchestrator's own address, for telling self-addressed timeout
    /// messages from forgeries.
    pub program_id: u64,
    /// Id of the inbound message; a parked invocation is resumed under it.
    pub msg_id: u64,
    /// Id the transport will assign to the outbound request, should this
    /// step send one.
    pub outbound_id: u64,
}

/// `StartGame` is accepted in these states: before any game, after a game
/// ended, or while a start request is already on its way.
pub open spec fn start_allowed(st: StatusView) -> bool {
    st is Init || st is WaitingForGameStart || st is GameOver
}

/// The user holds the turn or a guess is being checked: a game is in
/// progress and a new one may not start.
pub open spec fn in_progress(st: StatusView) -> bool {
    st is WaitingForUserInput || st is WaitingForGuessCheck
}

/// States in which a service reply is expected.
pub open spec fn awaiting_reply(st: StatusView) -> bool {
    st is WaitingForGameStart || st is WaitingForGuessCheck
}

/// The user's current status, `Init` when no record exists yet.
pub open spec fn status_of(t: Seq<(u64, RecordView)>, user: u64) -> StatusView {
    if has_key(t, user) {
        record_of(t, user).status
    } else {
        StatusView::Init
    }
}

/// The session-orchestration state machine.
pub struct Orchestrator {
    service: u64,
    sessions: SessionTable,
}

impl Orchestrator {
    /// Address of the word-checking service.
    pub closed spec fn service_id(&self) -> u64 {
        self.service
    }

    /// The session table's mathematical model: an ordered sequence of
    /// (user, record) pairs.
    pub closed spec fn table(&self) -> Seq<(u64, RecordView)> {
        self.sessions@
    }

    /// The orchestrator's invariant: a non-trivial service address and a
    /// well-formed table.
    pub open spec fn wf(&self) -> bool {
        &&& self.service_id() != 0
        &&& table_wf(self.table())
    }

    /// Creates the orchestrator. Fails fast when the service address is
    /// the trivial one; otherwise the table starts empty.
    pub fn new(service: u64) -> (r: Result<Orchestrator, InitError>)
        ensures
            match r {
                Ok(o) => {
                    &&& service != 0
                    &&& o.wf()
                    &&& o.service_id() == service
                    &&& o.table() =~= Seq::<(u64, RecordView)>::empty()
                },
                Err(e) => service == 0 && e == InitError::InvalidServiceAddress,
            },
    {
        if service == 0 {
            Err(InitError::InvalidServiceAddress)
        } else {
            Ok(Orchestrator { service, sessions: SessionTable::new() })
        }
    }

    /// An immutable snapshot of the full session table, in order. Reading
    /// it changes nothing. Of a well-formed orchestrator, the snapshot
    /// holds at most one record per user and no tries count above the
    /// limit.
    pub fn query_state(&self) -> (snapshot: Vec<(u64, SessionRecord)>)
        ensures
            snapshot@.len() == self.table().len(),
            forall|i: int|
                0 <= i < snapshot@.len() ==> (#[trigger] snapshot@[i]).0 == self.table()[i].0
                    && snapshot@[i].1@ == self.table()[i].1,
            self.wf() ==> forall|i: int, j: int|
                0 <= i < j < snapshot@.len() ==> (#[trigger] snapshot@[i]).0 != (
                #[trigger] snapshot@[j]).0,
            self.wf() ==> forall|i: int|
                0 <= i < snapshot@.len() ==> (#[trigger] snapshot@[i]).1.tries <= TRIES_LIMIT,
    {
        let mut snapshot: Vec<(u64, SessionRecord)> = Vec::new();
        let n = self.sessions.len();
        let mut i: usize = 0;
        while i < n
            invariant
                n == self.table().len(),
                i <= n,
                snapshot@.len() == i,
                forall|j: int|
                    0 <= j < i ==> (#[trigger] snapshot@[j]).0 == self.table()[j].0
                        && snapshot@[j].1@ == self.table()[j].1,
            decreases n - i,
        {
            snapshot.push(self.sessions.entry_at(i));
            i = i + 1;
        }
        snapshot
    }

    /// Resume path: a service reply carrying the correlation id of the
    /// request it answers. It is honoured only when the named session is
    /// awaiting a reply and the id matches its outstanding request; the
    /// feedback is then stored and the parked invocation is woken. Any
    /// other reply is stale or duplicated and is silently discarded.
    pub fn handle_reply(&mut self, reply_to: u64, feedback: Feedback) -> (r: ReplyEffect)
        requires
            old(self).wf(),
        ensures
            final(self).wf(),
            final(self).service_id() == old(self).service_id(),
            ({
                let t = old(self).table();
                let user = feedback_user(feedback@);
                if has_key(t, user) && reply_to == record_of(t, user).outbound_request_id
                    && awaiting_reply(record_of(t, user).status) {
                    &&& r == (ReplyEffect::Wake {
                        original_request_id: record_of(t, user).original_request_id,
                    })
                    &&& final(self).table() == table_with(
                        t,
                        user,
                        RecordView {
                            status: StatusView::ReplyReceived(feedback@),
                            ..record_of(t, user)
                        },
                    )
                } else {
                    r == ReplyEffect::Discarded && final(self).table() == t
                }
            }),
    {
        let ghost t = self.table();
        let user = feedback.get_user();
        match self.sessions.snapshot_record(user) {
            Some(rec) => {
                let matches_request = reply_to == rec.outbound_request_id;
                let waiting = matches!(
                    rec.status,
                    SessionStatus::WaitingForGameStart | SessionStatus::WaitingForGuessCheck
                );
                if matches_request && waiting {
                    let original_request_id = rec.original_request_id;
                    let updated = SessionRecord {
                        session_id: rec.session_id,
                        original_request_id: rec.original_request_id,
                        outbound_request_id: rec.outbound_request_id,
                        tries: rec.tries,
                        status: SessionStatus::ReplyReceived(feedback),
                    };
                    proof {
                        lemma_key_index(t, user);
                        lemma_table_with(t, user, updated@);
                    }
                    self.sessions.set_record(user, updated);
                    ReplyEffect::Wake { original_request_id }
                } else {
                    ReplyEffect::Discarded
                }
            },
            None => ReplyEffect::Discarded,
        }
    }

    /// Action path: evaluates the transition table for the sender's
    /// session.
    ///
    /// `StartGame` begins a fresh game whenever none is in progress: the
    /// start request goes to the service with this invocation's id recorded
    /// and the tries count reset, and the invocation suspends. While a game
    /// is in progress the start is rejected and nothing changes. A start
    /// that resumes over a freshly received reply hands the turn to the
    /// user and schedules the guess deadline.
    ///
    /// `CheckWord` is accepted only while the user holds the turn, and only
    /// for a word of exactly five lowercase letters; the guess goes to the
    /// service and the invocation suspends. A `CheckWord` resuming over a
    /// received feedback consumes the guess: a full match wins the game, a
    /// fifth miss loses it, and any earlier miss returns the feedback and
    /// the turn to the user. Every rejection leaves the table unchanged.
    ///
    /// `CheckGameStatus` is the timeout message and acts as `handle_timeout`.
    pub fn handle_action(&mut self, ctx: &InboundCtx, action: Action) -> (r: Result<
        StepEffect,
        ActionError,
    >)
        requires
            old(self).wf(),
        ensures
            final(self).wf(),
            final(self).service_id() == old(self).service_id(),
            ({
                let t = old(self).table();
                let t2 = final(self).table();
                match action@ {
                    ActionView::StartGame => {
                        let user = ctx.sender;
                        let st = status_of(t, user);
                        if start_allowed(st) {
                            &&& r matches Ok(eff) && eff@ == (StepEffectView::SendAndSuspend {
                                to: old(self).service_id(),
                                request: ServiceRequestView::StartGame { user },
                            })
                            &&& t2 == table_with(
                                t,
                                user,
                                RecordView {
                                    session_id: ctx.msg_id,
                                    original_request_id: ctx.msg_id,
                                    outbound_request_id: ctx.outbound_id,
                                    tries: 0,
                                    status: StatusView::WaitingForGameStart,
                                },
                            )
                        } else if in_progress(st) {
                            &&& r == Err::<StepEffect, ActionError>(ActionError::AlreadyInGame)
                            &&& t2 == t
                        } else {
                            &&& r matches Ok(eff) && eff@
                                == (StepEffectView::ReplyAndScheduleTimeout {
                                reply: EventView::StartSuccess,
                                user,
                                session_id: ctx.msg_id,
                                delay: TIMEOUT_DELAY,
                            })
                            &&& t2 == table_with(
                                t,
                                user,
                                RecordView {
                                    status: StatusView::WaitingForUserInput,
                                    ..record_of(t, user)
                                },
                            )
                        }
                    },
                    ActionView::CheckWord { word } => {
                        let user = ctx.sender;
                        match status_of(t, user) {
                            StatusView::ReplyReceived(fb) => {
                                let rec = record_of(t, user);
                                let n = (rec.tries + 1) as u8;
                                if spec_has_guessed(fb) {
                                    &&& r matches Ok(eff) && eff@ == (StepEffectView::Reply {
                                        reply: EventView::GameOver(Outcome::Win),
                                    })
                                    &&& t2 == table_with(
                                        t,
                                        user,
                                        RecordView {
                                            tries: n,
                                            status: StatusView::GameOver(Outcome::Win),
                                            ..rec
                                        },
                                    )
                                } else if n == TRIES_LIMIT {
                                    &&& r matches Ok(eff) && eff@ == (StepEffectView::Reply {
                                        reply: EventView::GameOver(Outcome::Lose),
                                    })
                                    &&& t2 == table_with(
                                        t,
                                        user,
                                        RecordView {
                                            tries: n,
                                            status: StatusView::GameOver(Outcome::Lose),
                                            ..rec
                                        },
                                    )
                                } else {
                                    &&& r matches Ok(eff) && eff@ == (StepEffectView::Reply {
                                        reply: event_of_feedback(fb),
                                    })
                                    &&& t2 == table_with(
                                        t,
                                        user,
                                        RecordView {
                                            tries: n,
                                            status: StatusView::WaitingForUserInput,
                                            ..rec
                                        },
                                    )
                                }
                            },
                            StatusView::WaitingForUserInput => {
                                if !valid_word(word) {
                                    &&& r == Err::<StepEffect, ActionError>(
                                        ActionError::InvalidWord,
                                    )
                                    &&& t2 == t
                                } else {
                                    &&& r matches Ok(eff) && eff@
                                        == (StepEffectView::SendAndSuspend {
                                        to: old(self).service_id(),
                                        request: ServiceRequestView::CheckWord { user, word },
                                    })
                                    &&& t2 == table_with(
                                        t,
                                        user,
                                        RecordView {
                                            original_request_id: ctx.msg_id,
                                            outbound_request_id: ctx.outbound_id,
                                            status: StatusView::WaitingForGuessCheck,
                                            ..record_of(t, user)
                                        },
                                    )
                                }
                            },
                            _ => {
                                &&& r == Err::<StepEffect, ActionError>(ActionError::InvalidState)
                                &&& t2 == t
                            },
                        }
                    },
                    ActionView::CheckGameStatus { user, session_id } => {
                        if ctx.sender == ctx.program_id && has_key(t, user) && record_of(
                            t,
                            user,
                        ).session_id == session_id && !(record_of(t, user).status is GameOver) {
                            &&& r matches Ok(eff) && eff@ == (StepEffectView::Notify {
                                to: user,
                                event: EventView::GameOver(Outcome::Lose),
                            })
                            &&& t2 == table_with(
                                t,
                                user,
                                RecordView {
                                    status: StatusView::GameOver(Outcome::Lose),
                                    ..record_of(t, user)
                                },
                            )
                        } else {
                            &&& r matches Ok(eff) && eff@ == StepEffectView::NoEffect
                            &&& t2 == t
                        }
                    },
                }
            }),
    {
        let ghost t = self.table();
        match action {
            Action::StartGame => {
                let user = ctx.sender;
                let cur = self.sessions.snapshot_record(user);
                let resume = match &cur {
                    Some(rec) => matches!(rec.status, SessionStatus::ReplyReceived(_)),
                    None => false,
                };
                let busy = match &cur {
                    Some(rec) => matches!(
                        rec.status,
                        SessionStatus::WaitingForUserInput | SessionStatus::WaitingForGuessCheck
                    ),
                    None => false,
                };
                if busy {
                    return Err(ActionError::AlreadyInGame);
                }
                if resume {
                    let rec = cur.unwrap();
                    let updated = SessionRecord {
                        session_id: rec.session_id,
                        original_request_id: rec.original_request_id,
                        outbound_request_id: rec.outbound_request_id,
                        tries: rec.tries,
                        status: SessionStatus::WaitingForUserInput,
                    };
                    proof {
                        lemma_key_index(t, user);
                        lemma_table_with(t, user, updated@);
                    }
                    self.sessions.set_record(user, updated);
                    return Ok(
                        StepEffect::ReplyAndScheduleTimeout {
                            reply: Event::StartSuccess,
                            user,
                            session_id: ctx.msg_id,
                            delay: TIMEOUT_DELAY,
                        },
                    );
                }
                let updated = SessionRecord {
                    session_id: ctx.msg_id,
                    original_request_id: ctx.msg_id,
                    outbound_request_id: ctx.outbound_id,
                    tries: 0,
                    status: SessionStatus::WaitingForGameStart,
                };
                proof {
                    lemma_key_index(t, user);
                    lemma_table_with(t, user, updated@);
                }
                self.sessions.set_record(user, updated);
                Ok(
                    StepEffect::SendAndSuspend {
                        to: self.service,
                        request: ServiceRequest::StartGame { user },
                    },
                )
            },
            Action::CheckWord { word } => {
                let user = ctx.sender;
                let cur = match self.sessions.snapshot_record(user) {
                    Some(rec) => rec,
                    None => {
                        return Err(ActionError::InvalidState);
                    },
                };
                proof {
                    lemma_key_index(t, user);
                }
                let SessionRecord {
                    session_id,
                    original_request_id,
                    outbound_request_id,
                    tries,
                    status,
                } = cur;
                match status {
                    SessionStatus::ReplyReceived(fb) => {
                        let n = tries + 1;
                        let (new_status, reply) = if fb.has_guessed() {
                            (
                                SessionStatus::GameOver(Outcome::Win),
                                Event::GameOver(Outcome::Win),
                            )
                        } else if n == TRIES_LIMIT {
                            (
                                SessionStatus::GameOver(Outcome::Lose),
                                Event::GameOver(Outcome::Lose),
                            )
                        } else {
                            (SessionStatus::WaitingForUserInput, fb.into_event())
                        };
                        let updated = SessionRecord {
                            session_id,
                            original_request_id,
                            outbound_request_id,
                            tries: n,
                            status: new_status,
                        };
                        proof {
                            lemma_table_with(t, user, updated@);
                        }
                        self.sessions.set_record(user, updated);
                        Ok(StepEffect::Reply { reply })
                    },
                    SessionStatus::WaitingForUserInput => {
                        if !crate::messages::is_valid_word(word.as_str()) {
                            return Err(ActionError::InvalidWord);
                        }
                        let updated = SessionRecord {
                            session_id,
                            original_request_id: ctx.msg_id,
                            outbound_request_id: ctx.outbound_id,
                            tries,
                            status: SessionStatus::WaitingForGuessCheck,
                        };
                        proof {
                            lemma_table_with(t, user, updated@);
                        }
                        self.sessions.set_record(user, updated);
                        Ok(
                            StepEffect::SendAndSuspend {
                                to: self.service,
                                request: ServiceRequest::CheckWord { user, word },
                            },
                        )
                    },
                    _ => Err(ActionError::InvalidState),
                }
            },
            Action::CheckGameStatus { user, session_id } => {
                match self.handle_timeout(ctx.sender, ctx.program_id, user, session_id) {
                    TimeoutEffect::Notify { to, event } => Ok(StepEffect::Notify { to, event }),
                    TimeoutEffect::Ignored => Ok(StepEffect::NoEffect),
                }
            },
        }
    }

    /// Timeout path: a self-scheduled `CheckGameStatus` message. It is
    /// honoured only when it truly comes from the orchestrator itself, the
    /// session still exists under the same `session_id` snapshot, and the
    /// game has not already ended; it then forces the game lost and the
    /// user is notified directly. Otherwise it has no effect.
    pub fn handle_timeout(&mut self, sender: u64, program_id: u64, user: u64, session_id: u64) -> (r:
        TimeoutEffect)
        requires
            old(self).wf(),
        ensures
            final(self).wf(),
            final(self).service_id() == old(self).service_id(),
            ({
                let t = old(self).table();
                if sender == program_id && has_key(t, user) && record_of(t, user).session_id
                    == session_id && !(record_of(t, user).status is GameOver) {
                    &&& r@ == (TimeoutEffectView::Notify {
                        to: user,
                        event: EventView::GameOver(Outcome::Lose),
                    })
                    &&& final(self).table() == table_with(
                        t,
                        user,
                        RecordView {
                            status: StatusView::GameOver(Outcome::Lose),
                            ..record_of(t, user)
                        },
                    )
                } else {
                    r@ == TimeoutEffectView::Ignored && final(self).table() == t
                }
            }),
    {
        let ghost t = self.table();
        if sender != program_id {
            return TimeoutEffect::Ignored;
        }
        match self.sessions.snapshot_record(user) {
            Some(rec) => {
                let still_current = rec.session_id == session_id;
                let over = matches!(rec.status, SessionStatus::GameOver(_));
                if still_current && !over {
                    let updated = SessionRecord {
                        session_id: rec.session_id,
                        original_request_id: rec.original_request_id,
                        outbound_request_id: rec.outbound_request_id,
                        tries: rec.tries,
                        status: SessionStatus::GameOver(Outcome::Lose),
                    };
                    proof {
                        lemma_key_index(t, user);
                        lemma_table_with(t, user, updated@);
                    }
                    self.sessions.set_record(user, updated);
                    TimeoutEffect::Notify { to: user, event: Event::GameOver(Outcome::Lose) }
                } else {
                    TimeoutEffect::Ignored
                }
            },
            None => TimeoutEffect::Ignored,
        }
    }
}

} // verus!
