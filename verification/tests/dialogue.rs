use hermes::dialogue::{DialogueEvent, DialogueRequest, SessionManager};
use hermes::session::SessionStatus;
use hermes::ontology::{
    ContinueSessionMessage, EndSessionMessage, ErrorMessage, IntentClassifierResult,
    IntentMessage, NluIntentMessage, SayMessage, SessionAction, SessionEndedMessage, SessionInit,
    SessionStartedMessage, Slot, StartSessionMessage,
};

fn text(value: &str) -> Option<String> {
    Some(value.to_string())
}

fn by_user(site: Option<&str>, data: Option<&str>) -> StartSessionMessage {
    StartSessionMessage {
        init: SessionInit::User,
        custom_data: data.map(|data| data.to_string()),
        site_id: site.map(|site| site.to_string()),
    }
}

fn action(say: &str, expect_response: bool, filter: Option<Vec<&str>>) -> SessionAction {
    SessionAction {
        text: say.to_string(),
        expect_response,
        intent_filter: filter.map(|names| names.into_iter().map(|name| name.to_string()).collect()),
    }
}

fn by_lambda(site: Option<&str>, data: Option<&str>, action: SessionAction) -> StartSessionMessage {
    StartSessionMessage {
        init: SessionInit::Lambda { action },
        custom_data: data.map(|data| data.to_string()),
        site_id: site.map(|site| site.to_string()),
    }
}

fn parsed(session: Option<&str>, intent: &str) -> NluIntentMessage {
    NluIntentMessage {
        id: session.map(|session| session.to_string()),
        input: "what the user said".to_string(),
        intent: IntentClassifierResult {
            intent_name: intent.to_string(),
            probability_bits: 0.5f32.to_bits(),
        },
        slots: Some(vec![Slot {
            raw_value: "kitchen".to_string(),
            value: "\"kitchen\"".to_string(),
            range: None,
            entity: "room".to_string(),
            slot_name: "where".to_string(),
        }]),
    }
}

fn unknown(session: &str) -> ErrorMessage {
    ErrorMessage {
        session_id: text(session),
        error: "unknown or terminated session".to_string(),
        context: None,
    }
}

#[test]
fn start_at_a_site_with_custom_data_is_announced_with_both() {
    let mut manager = SessionManager::new();
    let (started, say) = manager.start_session(by_user(Some("kitchen"), Some("abc")));
    assert_eq!(started.site_id, "kitchen");
    assert_eq!(started.custom_data, text("abc"));
    assert_eq!(started.session_id, "0");
    assert_eq!(say, None);
    assert!(manager.is_active(&started.session_id));
    assert_eq!(manager.site_of(&started.session_id), text("kitchen"));
    assert_eq!(manager.custom_data_of(&started.session_id), Some(text("abc")));
}

#[test]
fn start_gives_a_fresh_identifier() {
    let mut manager = SessionManager::new();
    let (first, _) = manager.start_session(by_user(Some("kitchen"), Some("abc")));
    let end = EndSessionMessage { session_id: first.session_id.clone() };
    assert!(manager.end_session(end).is_ok());
    let (second, _) = manager.start_session(by_user(Some("kitchen"), Some("abc")));
    assert_ne!(first.session_id, second.session_id);
    assert!(!manager.is_active(&first.session_id));
    assert!(manager.is_active(&second.session_id));
}

#[test]
fn start_without_a_site_is_bound_to_the_default_site() {
    let mut manager = SessionManager::new();
    let (started, _) = manager.start_session(by_user(None, None));
    assert_eq!(
        started,
        SessionStartedMessage {
            session_id: "0".to_string(),
            custom_data: None,
            site_id: "default".to_string(),
        }
    );
}

#[test]
fn start_by_the_user_awaits_an_intent() {
    let mut manager = SessionManager::new();
    let (started, _) = manager.start_session(by_user(None, None));
    assert_eq!(manager.status_of(&started.session_id), Some(SessionStatus::WaitingForIntent));
}

#[test]
fn start_by_a_lambda_orders_its_text_to_be_spoken() {
    let mut manager = SessionManager::new();
    let (started, say) = manager.start_session(by_lambda(
        Some("office"),
        Some("abc"),
        action("what now?", true, Some(vec!["yes", "no"])),
    ));
    assert_eq!(
        say,
        Some(SayMessage {
            text: "what now?".to_string(),
            lang: None,
            id: text("0"),
            site_id: "office".to_string(),
        })
    );
    assert_eq!(manager.status_of(&started.session_id), Some(SessionStatus::WaitingForIntent));
}

#[test]
fn start_by_a_lambda_that_expects_no_response_awaits_nothing() {
    let mut manager = SessionManager::new();
    let (started, say) =
        manager.start_session(by_lambda(None, None, action("done", false, Some(vec!["yes"]))));
    assert_eq!(say.unwrap().text, "done");
    assert_eq!(manager.status_of(&started.session_id), Some(SessionStatus::Started));
    assert_eq!(
        manager.intent_parsed(parsed(Some("0"), "yes")),
        Err(ErrorMessage {
            session_id: text("0"),
            error: "no intent is expected".to_string(),
            context: None,
        })
    );
}

#[test]
fn no_two_sessions_get_the_same_identifier() {
    let mut manager = SessionManager::new();
    let mut seen = Vec::new();
    for round in 0..120 {
        let (started, _) = manager.start_session(by_user(None, None));
        assert!(!seen.contains(&started.session_id));
        if round % 3 == 0 {
            assert!(manager.abort_session(started.session_id.clone()).is_ok());
        }
        seen.push(started.session_id);
    }
    assert_eq!(manager.active_count(), 80);
}

#[test]
fn continue_of_an_active_session_orders_the_text_to_be_spoken() {
    let mut manager = SessionManager::new();
    manager.start_session(by_user(Some("kitchen"), Some("abc")));
    let outcome = manager.continue_session(ContinueSessionMessage {
        session_id: "0".to_string(),
        action: action("which room?", true, None),
    });
    assert_eq!(
        outcome,
        Ok(SayMessage {
            text: "which room?".to_string(),
            lang: None,
            id: text("0"),
            site_id: "kitchen".to_string(),
        })
    );
    assert_eq!(manager.status_of(&"0".to_string()), Some(SessionStatus::WaitingForIntent));
    assert_eq!(manager.custom_data_of(&"0".to_string()), Some(text("abc")));
}

#[test]
fn continue_sets_the_filter_of_the_next_turn() {
    let mut manager = SessionManager::new();
    manager.start_session(by_user(None, None));
    assert!(manager
        .continue_session(ContinueSessionMessage {
            session_id: "0".to_string(),
            action: action("yes or no?", true, Some(vec!["yes", "no"])),
        })
        .is_ok());
    assert_eq!(
        manager.intent_parsed(parsed(Some("0"), "maybe")),
        Err(ErrorMessage {
            session_id: text("0"),
            error: "intent is not in the session's filter".to_string(),
            context: text("maybe"),
        })
    );
    assert_eq!(manager.status_of(&"0".to_string()), Some(SessionStatus::WaitingForIntent));
    assert!(manager.intent_parsed(parsed(Some("0"), "no")).is_ok());
}

#[test]
fn continue_that_expects_no_response_ignores_its_filter() {
    let mut manager = SessionManager::new();
    manager.start_session(by_user(None, None));
    assert!(manager
        .continue_session(ContinueSessionMessage {
            session_id: "0".to_string(),
            action: action("bye", false, Some(vec!["yes"])),
        })
        .is_ok());
    assert_eq!(manager.status_of(&"0".to_string()), Some(SessionStatus::Started));
    assert!(manager
        .continue_session(ContinueSessionMessage {
            session_id: "0".to_string(),
            action: action("anything?", true, None),
        })
        .is_ok());
    assert!(manager.intent_parsed(parsed(Some("0"), "whatever")).is_ok());
}

#[test]
fn continue_of_an_ended_session_is_answered_by_an_error() {
    let mut manager = SessionManager::new();
    manager.start_session(by_user(Some("kitchen"), Some("abc")));
    manager.start_session(by_user(Some("office"), None));
    assert!(manager.end_session(EndSessionMessage { session_id: "0".to_string() }).is_ok());
    let outcome = manager.continue_session(ContinueSessionMessage {
        session_id: "0".to_string(),
        action: action("still there?", true, None),
    });
    assert_eq!(outcome, Err(unknown("0")));
    assert!(!manager.is_active(&"0".to_string()));
    assert_eq!(manager.active_count(), 1);
    assert_eq!(manager.status_of(&"1".to_string()), Some(SessionStatus::WaitingForIntent));
    let (next, _) = manager.start_session(by_user(None, None));
    assert_eq!(next.session_id, "2");
}

#[test]
fn continue_of_a_session_that_never_started_is_answered_by_an_error() {
    let mut manager = SessionManager::new();
    let outcome = manager.continue_session(ContinueSessionMessage {
        session_id: "nonsense".to_string(),
        action: action("hello", true, None),
    });
    assert_eq!(outcome, Err(unknown("nonsense")));
    assert_eq!(manager.active_count(), 0);
}

#[test]
fn end_announces_the_end_with_the_custom_data() {
    let mut manager = SessionManager::new();
    manager.start_session(by_user(Some("kitchen"), Some("abc")));
    assert_eq!(
        manager.end_session(EndSessionMessage { session_id: "0".to_string() }),
        Ok(SessionEndedMessage {
            session_id: "0".to_string(),
            custom_data: text("abc"),
            aborted: Some(false),
        })
    );
    assert!(!manager.is_active(&"0".to_string()));
    assert_eq!(manager.status_of(&"0".to_string()), None);
    assert_eq!(manager.site_of(&"0".to_string()), None);
    assert_eq!(manager.custom_data_of(&"0".to_string()), None);
}

#[test]
fn abort_announces_the_end_as_aborted() {
    let mut manager = SessionManager::new();
    manager.start_session(by_user(Some("kitchen"), Some("abc")));
    assert_eq!(
        manager.abort_session("0".to_string()),
        Ok(SessionEndedMessage {
            session_id: "0".to_string(),
            custom_data: text("abc"),
            aborted: Some(true),
        })
    );
    assert!(!manager.is_active(&"0".to_string()));
}

#[test]
fn ended_session_stays_ended() {
    let mut manager = SessionManager::new();
    manager.start_session(by_user(None, None));
    assert!(manager.abort_session("0".to_string()).is_ok());
    assert_eq!(
        manager.end_session(EndSessionMessage { session_id: "0".to_string() }),
        Err(unknown("0"))
    );
    assert_eq!(manager.abort_session("0".to_string()), Err(unknown("0")));
    assert_eq!(
        manager.continue_session(ContinueSessionMessage {
            session_id: "0".to_string(),
            action: action("hello?", true, None),
        }),
        Err(unknown("0"))
    );
    assert_eq!(manager.intent_parsed(parsed(Some("0"), "yes")), Err(unknown("0")));
    for _ in 0..20 {
        manager.start_session(by_user(None, None));
    }
    assert!(!manager.is_active(&"0".to_string()));
    assert_eq!(
        manager.end_session(EndSessionMessage { session_id: "0".to_string() }),
        Err(unknown("0"))
    );
}

#[test]
fn recognized_intent_is_published_with_the_session_and_its_custom_data() {
    let mut manager = SessionManager::new();
    manager.start_session(by_user(Some("kitchen"), Some("abc")));
    let found = parsed(Some("0"), "lights_on");
    assert_eq!(
        manager.intent_parsed(found.clone()),
        Ok(IntentMessage {
            session_id: "0".to_string(),
            custom_data: text("abc"),
            input: found.input,
            intent: found.intent,
            slots: found.slots,
        })
    );
    assert!(manager.is_active(&"0".to_string()));
    assert_eq!(manager.status_of(&"0".to_string()), Some(SessionStatus::Started));
}

#[test]
fn intent_without_a_session_is_answered_by_an_error() {
    let mut manager = SessionManager::new();
    manager.start_session(by_user(None, None));
    assert_eq!(
        manager.intent_parsed(parsed(None, "lights_on")),
        Err(ErrorMessage {
            session_id: None,
            error: "intent without a session".to_string(),
            context: None,
        })
    );
    assert_eq!(manager.status_of(&"0".to_string()), Some(SessionStatus::WaitingForIntent));
}

#[test]
fn second_intent_in_one_turn_is_answered_by_an_error() {
    let mut manager = SessionManager::new();
    manager.start_session(by_user(None, None));
    assert!(manager.intent_parsed(parsed(Some("0"), "lights_on")).is_ok());
    assert_eq!(
        manager.intent_parsed(parsed(Some("0"), "lights_on")),
        Err(ErrorMessage {
            session_id: text("0"),
            error: "no intent is expected".to_string(),
            context: None,
        })
    );
}

#[test]
fn custom_data_comes_back_unchanged_in_every_event_of_the_session() {
    let data = "  {\"k\": [1, 2, \"é\"]}\n\0 ";
    let mut manager = SessionManager::new();
    manager.start_session(by_user(None, Some("other")));
    let (started, _) = manager.start_session(by_user(Some("kitchen"), Some(data)));
    assert_eq!(started.custom_data, text(data));
    let id = started.session_id;
    for turn in 0..3 {
        let intent = manager.intent_parsed(parsed(Some(&id), "next")).unwrap();
        assert_eq!(intent.custom_data, text(data));
        assert_eq!(intent.session_id, id);
        let say = manager
            .continue_session(ContinueSessionMessage {
                session_id: id.clone(),
                action: action("go on", true, None),
            })
            .unwrap();
        assert_eq!(say.id, Some(id.clone()));
        assert_eq!(turn < 3, true);
    }
    let ended = manager.end_session(EndSessionMessage { session_id: id }).unwrap();
    assert_eq!(ended.custom_data, text(data));
    assert_eq!(manager.custom_data_of(&"0".to_string()), Some(text("other")));
}

#[test]
fn handle_takes_the_steps_of_the_typed_methods() {
    let mut manager = SessionManager::new();
    let events = manager.handle(DialogueRequest::Start(by_lambda(
        Some("kitchen"),
        Some("abc"),
        action("hello", true, None),
    )));
    assert_eq!(
        events,
        vec![
            DialogueEvent::SessionStarted(SessionStartedMessage {
                session_id: "0".to_string(),
                custom_data: text("abc"),
                site_id: "kitchen".to_string(),
            }),
            DialogueEvent::Say(SayMessage {
                text: "hello".to_string(),
                lang: None,
                id: text("0"),
                site_id: "kitchen".to_string(),
            }),
        ]
    );
    let events = manager.handle(DialogueRequest::IntentParsed(parsed(Some("0"), "lights_on")));
    assert!(matches!(
        events.as_slice(),
        [DialogueEvent::Intent(intent)] if intent.custom_data == text("abc")
    ));
    let events = manager.handle(DialogueRequest::Continue(ContinueSessionMessage {
        session_id: "0".to_string(),
        action: action("more?", false, None),
    }));
    assert!(matches!(events.as_slice(), [DialogueEvent::Say(say)] if say.text == "more?"));
    let events = manager.handle(DialogueRequest::Abort("0".to_string()));
    assert_eq!(
        events,
        vec![DialogueEvent::SessionEnded(SessionEndedMessage {
            session_id: "0".to_string(),
            custom_data: text("abc"),
            aborted: Some(true),
        })]
    );
    let events =
        manager.handle(DialogueRequest::End(EndSessionMessage { session_id: "0".to_string() }));
    assert_eq!(events, vec![DialogueEvent::Error(unknown("0"))]);
    let events = manager.handle(DialogueRequest::Start(by_user(None, None)));
    assert!(matches!(
        events.as_slice(),
        [DialogueEvent::SessionStarted(started)] if started.session_id == "1"
    ));
}

#[test]
fn end_wins_over_a_continue_that_comes_with_it() {
    let mut first = SessionManager::new();
    first.start_session(by_user(None, None));
    assert!(first.end_session(EndSessionMessage { session_id: "0".to_string() }).is_ok());
    assert!(first
        .continue_session(ContinueSessionMessage {
            session_id: "0".to_string(),
            action: action("hello", true, None),
        })
        .is_err());
    let mut second = SessionManager::new();
    second.start_session(by_user(None, None));
    assert!(second
        .continue_session(ContinueSessionMessage {
            session_id: "0".to_string(),
            action: action("hello", true, None),
        })
        .is_ok());
    assert!(second.end_session(EndSessionMessage { session_id: "0".to_string() }).is_ok());
    assert!(!first.is_active(&"0".to_string()));
    assert!(!second.is_active(&"0".to_string()));
}
