use game_session::messages::{
    Action, ActionError, Event, Feedback, InitError, Outcome, ReplyEffect, ServiceRequest,
    StepEffect, TimeoutEffect,
};
use game_session::orchestrator::{InboundCtx, Orchestrator};
use game_session::session::{SessionRecord, SessionStatus};

const PROGRAM: u64 = 100;
const SERVICE: u64 = 200;
const USER: u64 = 64;

fn ctx(sender: u64, msg_id: u64, outbound_id: u64) -> InboundCtx {
    InboundCtx { sender, program_id: PROGRAM, msg_id, outbound_id }
}

fn record_for(o: &Orchestrator, user: u64) -> Option<SessionRecord> {
    o.query_state().into_iter().find(|p| p.0 == user).map(|p| p.1)
}

fn miss() -> Feedback {
    Feedback::WordChecked { user: USER, correct_positions: vec![], contained_in_word: vec![] }
}

fn full_match() -> Feedback {
    Feedback::WordChecked {
        user: USER,
        correct_positions: vec![0, 1, 2, 3, 4],
        contained_in_word: vec![],
    }
}

/// Drives a game start to completion: send, service reply, resumed start.
fn start_game(o: &mut Orchestrator, msg_id: u64, outbound_id: u64) {
    let r = o.handle_action(&ctx(USER, msg_id, outbound_id), Action::StartGame);
    assert_eq!(
        r,
        Ok(StepEffect::SendAndSuspend {
            to: SERVICE,
            request: ServiceRequest::StartGame { user: USER },
        })
    );
    let r = o.handle_reply(outbound_id, Feedback::GameStarted { user: USER });
    assert_eq!(r, ReplyEffect::Wake { original_request_id: msg_id });
    let r = o.handle_action(&ctx(USER, msg_id, outbound_id), Action::StartGame);
    assert_eq!(
        r,
        Ok(StepEffect::ReplyAndScheduleTimeout {
            reply: Event::StartSuccess,
            user: USER,
            session_id: msg_id,
            delay: 200,
        })
    );
}

/// Drives one guess to completion: send, service reply, resumed check.
fn guess(
    o: &mut Orchestrator,
    word: &str,
    msg_id: u64,
    outbound_id: u64,
    feedback: Feedback,
) -> Event {
    let r = o.handle_action(
        &ctx(USER, msg_id, outbound_id),
        Action::CheckWord { word: word.to_string() },
    );
    assert_eq!(
        r,
        Ok(StepEffect::SendAndSuspend {
            to: SERVICE,
            request: ServiceRequest::CheckWord { user: USER, word: word.to_string() },
        })
    );
    let r = o.handle_reply(outbound_id, feedback);
    assert_eq!(r, ReplyEffect::Wake { original_request_id: msg_id });
    let r = o.handle_action(
        &ctx(USER, msg_id, outbound_id),
        Action::CheckWord { word: word.to_string() },
    );
    match r {
        Ok(StepEffect::Reply { reply }) => reply,
        other => panic!("expected a reply, got {:?}", other),
    }
}

#[test]
fn test_start_game_without_initialization() {
    // Initialization must fail fast on the trivial service address, so no
    // game can ever start on an uninitialized orchestrator.
    let r = Orchestrator::new(0);
    assert!(matches!(r, Err(InitError::InvalidServiceAddress)));
}

#[test]
fn test_win() {
    let mut o = Orchestrator::new(SERVICE).unwrap();
    start_game(&mut o, 10, 11);

    let reply = guess(&mut o, "house", 20, 21, full_match());
    assert_eq!(reply, Event::GameOver(Outcome::Win));

    let rec = record_for(&o, USER).unwrap();
    assert_eq!(rec.tries, 1);
    assert_eq!(rec.status, SessionStatus::GameOver(Outcome::Win));

    // A further guess is rejected until a new game is started.
    let r = o.handle_action(&ctx(USER, 30, 31), Action::CheckWord { word: "human".to_string() });
    assert_eq!(r, Err(ActionError::InvalidState));
}

#[test]
fn test_invalid_word_input() {
    let mut o = Orchestrator::new(SERVICE).unwrap();
    start_game(&mut o, 10, 11);

    let r = o.handle_action(
        &ctx(USER, 20, 21),
        Action::CheckWord { word: "invalid".to_string() },
    );
    assert_eq!(r, Err(ActionError::InvalidWord));

    let rec = record_for(&o, USER).unwrap();
    assert_eq!(rec.tries, 0);
    assert_eq!(rec.status, SessionStatus::WaitingForUserInput);
}

#[test]
fn test_lose_exceeded_tries_limit() {
    let mut o = Orchestrator::new(SERVICE).unwrap();
    start_game(&mut o, 10, 11);

    for i in 1..=5u64 {
        let reply = guess(&mut o, "wrong", 100 + i, 200 + i, miss());
        if i < 5 {
            assert_eq!(
                reply,
                Event::WordChecked { correct_positions: vec![], contained_in_word: vec![] }
            );
        } else {
            assert_eq!(reply, Event::GameOver(Outcome::Lose));
        }
    }

    let rec = record_for(&o, USER).unwrap();
    assert_eq!(rec.tries, 5);
    assert_eq!(rec.status, SessionStatus::GameOver(Outcome::Lose));
}

#[test]
fn test_lose_timeout() {
    let mut o = Orchestrator::new(SERVICE).unwrap();
    start_game(&mut o, 10, 11);

    // The scheduled CheckGameStatus fires after the delay with the session
    // id snapshot taken at the start; the user never guessed.
    let r = o.handle_timeout(PROGRAM, PROGRAM, USER, 10);
    assert_eq!(
        r,
        TimeoutEffect::Notify { to: USER, event: Event::GameOver(Outcome::Lose) }
    );

    let rec = record_for(&o, USER).unwrap();
    assert_eq!(rec.tries, 0);
    assert_eq!(rec.status, SessionStatus::GameOver(Outcome::Lose));
}
