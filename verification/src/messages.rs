//! Message shapes exchanged with users and with the word-checking service,
//! and the effect values that entry operations hand back to the runtime.

use vstd::prelude::*;

verus! {

/// Final result of a game.
#[derive(Clone, Copy, Debug, PartialEq, Eq, Structural)]
pub enum Outcome {
    Win,
    Lose,
}

/// Reply from the word-checking service. `correct_positions` lists the
/// letter positions guessed exactly; a full match lists all five.
#[derive(Clone, Debug, PartialEq, Eq)]
pub enum Feedback {
    GameStarted { user: u64 },
    WordChecked { user: u64, correct_positions: Vec<u8>, contained_in_word: Vec<u8> },
}

/// Mathematical model of a `Feedback` value.
pub ghost enum FeedbackView {
    GameStarted { user: u64 },
    WordChecked { user: u64, correct_positions: Seq<u8>, contained_in_word: Seq<u8> },
}

impl View for Feedback {
    type V = FeedbackView;

    open spec fn view(&self) -> FeedbackView {
        match self {
            Feedback::GameStarted { user } => FeedbackView::GameStarted { user: *user },
            Feedback::WordChecked { user, correct_positions, contained_in_word } => {
                FeedbackView::WordChecked {
                    user: *user,
                    correct_positions: correct_positions@,
                    contained_in_word: contained_in_word@,
                }
            },
        }
    }
}

/// The user the feedback concerns.
pub open spec fn feedback_user(f: FeedbackView) -> u64 {
    match f {
        FeedbackView::GameStarted { user } => user,
        FeedbackView::WordChecked { user, .. } => user,
    }
}

/// Whether the feedback reports that the secret was fully guessed: every
/// one of the five letter positions is listed as an exact match.
pub open spec fn spec_has_guessed(f: FeedbackView) -> bool {
    match f {
        FeedbackView::GameStarted { .. } => false,
        FeedbackView::WordChecked { correct_positions, .. } => correct_positions.len() == 5,
    }
}

impl Feedback {
    /// The user the feedback concerns.
    pub fn get_user(&self) -> (u: u64)
        ensures
            u == feedback_user(self@),
    {
        match self {
            Feedback::GameStarted { user } => *user,
            Feedback::WordChecked { user, .. } => *user,
        }
    }

    /// Whether the secret was fully guessed.
    pub fn has_guessed(&self) -> (r: bool)
        ensures
            r == spec_has_guessed(self@),
    {
        match self {
            Feedback::GameStarted { .. } => false,
            Feedback::WordChecked { correct_positions, .. } => correct_positions.len() == 5,
        }
    }
}

/// Copies a byte vector; the copy holds exactly the same bytes.
pub fn copy_bytes(v: &Vec<u8>) -> (r: Vec<u8>)
    ensures
        r@ == v@,
{
    let mut r: Vec<u8> = Vec::new();
    let mut i: usize = 0;
    while i < v.len()
        invariant
            i <= v.len(),
            r@ == v@.subrange(0, i as int),
        decreases v.len() - i,
    {
        r.push(v[i]);
        i = i + 1;
        proof {
            assert(r@ =~= v@.subrange(0, i as int));
        }
    }
    proof {
        assert(v@.subrange(0, v@.len() as int) =~= v@);
    }
    r
}

impl Feedback {
    /// A copy of the feedback, equal to the original.
    pub fn duplicate(&self) -> (r: Feedback)
        ensures
            r@ == self@,
    {
        match self {
            Feedback::GameStarted { user } => Feedback::GameStarted { user: *user },
            Feedback::WordChecked { user, correct_positions, contained_in_word } => {
                Feedback::WordChecked {
                    user: *user,
                    correct_positions: copy_bytes(correct_positions),
                    contained_in_word: copy_bytes(contained_in_word),
                }
            },
        }
    }
}

/// Action a caller may submit to the orchestrator. `CheckGameStatus` is the
/// self-addressed timeout message; the orchestrator honours it only when it
/// arrives from the orchestrator's own address.
#[derive(Clone, Debug, PartialEq, Eq)]
pub enum Action {
    StartGame,
    CheckWord { word: String },
    CheckGameStatus { user: u64, session_id: u64 },
}

/// Mathematical model of an `Action`.
pub ghost enum ActionView {
    StartGame,
    CheckWord { word: Seq<char> },
    CheckGameStatus { user: u64, session_id: u64 },
}

impl View for Action {
    type V = ActionView;

    open spec fn view(&self) -> ActionView {
        match self {
            Action::StartGame => ActionView::StartGame,
            Action::CheckWord { word } => ActionView::CheckWord { word: word@ },
            Action::CheckGameStatus { user, session_id } => {
                ActionView::CheckGameStatus { user: *user, session_id: *session_id }
            },
        }
    }
}

/// Event replied or sent to a user.
#[derive(Clone, Debug, PartialEq, Eq)]
pub enum Event {
    StartSuccess,
    WordChecked { correct_positions: Vec<u8>, contained_in_word: Vec<u8> },
    GameOver(Outcome),
}

/// Mathematical model of an `Event`.
pub ghost enum EventView {
    StartSuccess,
    WordChecked { correct_positions: Seq<u8>, contained_in_word: Seq<u8> },
    GameOver(Outcome),
}

impl View for Event {
    type V = EventView;

    open spec fn view(&self) -> EventView {
        match self {
            Event::StartSuccess => EventView::StartSuccess,
            Event::WordChecked { correct_positions, contained_in_word } => {
                EventView::WordChecked {
                    correct_positions: correct_positions@,
                    contained_in_word: contained_in_word@,
                }
            },
            Event::GameOver(outcome) => EventView::GameOver(*outcome),
        }
    }
}

/// The event a consumed feedback is forwarded to the user as.
pub open spec fn event_of_feedback(f: FeedbackView) -> EventView {
    match f {
        FeedbackView::GameStarted { .. } => EventView::StartSuccess,
        FeedbackView::WordChecked { correct_positions, contained_in_word, .. } => {
            EventView::WordChecked { correct_positions, contained_in_word }
        },
    }
}

impl Feedback {
    /// Turns the feedback into the event forwarded to the user.
    pub fn into_event(self) -> (e: Event)
        ensures
            e@ == event_of_feedback(self@),
    {
        match self {
            Feedback::GameStarted { .. } => Event::StartSuccess,
            Feedback::WordChecked { correct_positions, contained_in_word, .. } => {
                Event::WordChecked { correct_positions, contained_in_word }
            },
        }
    }
}

/// Request sent to the word-checking service.
#[derive(Clone, Debug, PartialEq, Eq)]
pub enum ServiceRequest {
    StartGame { user: u64 },
    CheckWord { user: u64, word: String },
}

/// Mathematical model of a `ServiceRequest`.
pub ghost enum ServiceRequestView {
    StartGame { user: u64 },
    CheckWord { user: u64, word: Seq<char> },
}

impl View for ServiceRequest {
    type V = ServiceRequestView;

    open spec fn view(&self) -> ServiceRequestView {
        match self {
            ServiceRequest::StartGame { user } => ServiceRequestView::StartGame { user: *user },
            ServiceRequest::CheckWord { user, word } => {
                ServiceRequestView::CheckWord { user: *user, word: word@ }
            },
        }
    }
}

/// What the runtime must do after `handle_action` returns successfully.
#[derive(Clone, Debug, PartialEq, Eq)]
pub enum StepEffect {
    /// Send the request to the word-checking service and park the current
    /// invocation until `handle_reply` names its correlation id.
    SendAndSuspend { to: u64, request: ServiceRequest },
    /// Reply to the caller and schedule `CheckGameStatus { user, session_id }`
    /// back to the orchestrator after `delay` time-units.
    ReplyAndScheduleTimeout { reply: Event, user: u64, session_id: u64, delay: u32 },
    /// Reply to the caller; the invocation completes.
    Reply { reply: Event },
    /// Send the event to the user directly; no invocation is pending.
    Notify { to: u64, event: Event },
    /// Nothing to do: the action was silently ignored.
    NoEffect,
}

/// Mathematical model of a `StepEffect`.
pub ghost enum StepEffectView {
    SendAndSuspend { to: u64, request: ServiceRequestView },
    ReplyAndScheduleTimeout { reply: EventView, user: u64, session_id: u64, delay: u32 },
    Reply { reply: EventView },
    Notify { to: u64, event: EventView },
    NoEffect,
}

impl View for StepEffect {
    type V = StepEffectView;

    open spec fn view(&self) -> StepEffectView {
        match self {
            StepEffect::SendAndSuspend { to, request } => {
                StepEffectView::SendAndSuspend { to: *to, request: request@ }
            },
            StepEffect::ReplyAndScheduleTimeout { reply, user, session_id, delay } => {
                StepEffectView::ReplyAndScheduleTimeout {
                    reply: reply@,
                    user: *user,
                    session_id: *session_id,
                    delay: *delay,
                }
            },
            StepEffect::Reply { reply } => StepEffectView::Reply { reply: reply@ },
            StepEffect::Notify { to, event } => {
                StepEffectView::Notify { to: *to, event: event@ }
            },
            StepEffect::NoEffect => StepEffectView::NoEffect,
        }
    }
}

/// What the runtime must do after `handle_reply`.
#[derive(Clone, Copy, Debug, PartialEq, Eq, Structural)]
pub enum ReplyEffect {
    /// Wake the invocation parked under this inbound-message id.
    Wake { original_request_id: u64 },
    /// The reply was stale or unexpected and was discarded.
    Discarded,
}

/// What the runtime must do after `handle_timeout`.
#[derive(Clone, Debug, PartialEq, Eq)]
pub enum TimeoutEffect {
    /// Send the event to the user directly; no invocation is pending.
    Notify { to: u64, event: Event },
    /// The timeout no longer applies and was ignored.
    Ignored,
}

/// Mathematical model of a `TimeoutEffect`.
pub ghost enum TimeoutEffectView {
    Notify { to: u64, event: EventView },
    Ignored,
}

impl View for TimeoutEffect {
    type V = TimeoutEffectView;

    open spec fn view(&self) -> TimeoutEffectView {
        match self {
            TimeoutEffect::Notify { to, event } => {
                TimeoutEffectView::Notify { to: *to, event: event@ }
            },
            TimeoutEffect::Ignored => TimeoutEffectView::Ignored,
        }
    }
}

/// Why an action was rejected. A rejection aborts only the rejected
/// invocation; the session table is never changed by a rejected action.
#[derive(Clone, Copy, Debug, PartialEq, Eq, Structural)]
pub enum ActionError {
    /// `StartGame` while the user's game is already in progress.
    AlreadyInGame,
    /// `CheckWord` with a word that is not exactly five lowercase letters.
    InvalidWord,
    /// `CheckWord` while the session is not awaiting a guess.
    InvalidState,
}

/// Why the orchestrator could not be created.
#[derive(Clone, Copy, Debug, PartialEq, Eq, Structural)]
pub enum InitError {
    /// The word-checking service address is the trivial (zero) address.
    InvalidServiceAddress,
}

/// A guess is valid when it is exactly five characters, each a lowercase
/// ASCII letter.
pub open spec fn valid_word(w: Seq<char>) -> bool {
    w.len() == 5 && (forall|i: int| 0 <= i < w.len() ==> 'a' <= #[trigger] w[i] <= 'z')
}

/// Checks a guess against the five-lowercase-letters rule.
pub fn is_valid_word(w: &str) -> (r: bool)
    ensures
        r == valid_word(w@),
{
    if !w.is_ascii() {
        // Some character is outside ASCII, hence above 'z'.
        proof {
            assert(exists|i: int|
                0 <= i < w@.len() && !('\0' <= #[trigger] w@[i] <= '\u{7f}'));
        }
        return false;
    }
    let b = w.as_bytes();
    proof {
        vstd::string::is_ascii_spec_bytes(w);
    }
    if b.len() != 5 {
        return false;
    }
    let mut i: usize = 0;
    while i < 5
        invariant
            i <= 5,
            b@.len() == 5,
            w@.len() == 5,
            forall|j: int| 0 <= j < b@.len() ==> b@[j] == w@[j] as u8,
            vstd::string::is_ascii(w),
            forall|j: int| 0 <= j < i ==> 'a' <= #[trigger] w@[j] <= 'z',
        decreases 5 - i,
    {
        let c = b[i];
        if c < 97 || c > 122 {
            proof {
                assert('\0' <= w@[i as int] <= '\u{7f}');
                assert(!('a' <= w@[i as int] <= 'z'));
            }
            return false;
        }
        proof {
            assert('\0' <= w@[i as int] <= '\u{7f}');
            assert('a' <= w@[i as int] <= 'z');
        }
        i = i + 1;
    }
    true
}

} // verus!

