use std::sync::{Arc, Mutex};

use hermes::callback::{Callback, Callback0};
use hermes::facade::{
    AsrBackendFacade, AsrFacade, AudioServerBackendFacade, AudioServerFacade,
    ComponentBackendFacade, ComponentFacade, DialogueBackendFacade, DialogueFacade,
    HotwordBackendFacade, HotwordFacade, NluBackendFacade, NluFacade, ToggleableBackendFacade,
    ToggleableFacade, TtsBackendFacade, TtsFacade,
};
use hermes::inprocess::audio_server::InProcessAudioServer;
use hermes::inprocess::dialogue::InProcessDialogue;
use hermes::inprocess::nlu::InProcessNlu;
use hermes::inprocess::tts::InProcessTts;
use hermes::inprocess::InProcessHermesProtocolHandler;
use hermes::ontology::{
    AudioFrameMessage, ContinueSessionMessage, EndSessionMessage, ErrorMessage,
    IntentClassifierResult, IntentMessage, NluIntentMessage, NluIntentNotRecognizedMessage,
    NluQueryMessage, NluSlotMessage, NluSlotQueryMessage, PlayBytesMessage, PlayFinishedMessage,
    SayFinishedMessage, SayMessage, SessionEndedMessage, SessionInit, SessionStartedMessage,
    SiteMessage, StartSessionMessage, TextCapturedMessage, VersionMessage,
};
use hermes::dialogue::{DialogueRequest, SessionManager};
use hermes::toggle::ToggleState;

fn text(value: &str) -> Option<String> {
    Some(value.to_string())
}

fn site(site_id: &str) -> SiteMessage {
    SiteMessage { site_id: site_id.to_string(), session_id: None }
}

fn recorder<T: Clone + Send + 'static>() -> (Arc<Mutex<Vec<T>>>, Callback<T>) {
    let log = Arc::new(Mutex::new(Vec::new()));
    let sink = Arc::clone(&log);
    let callback = Callback::new(move |message: &T| sink.lock().unwrap().push(message.clone()));
    (log, callback)
}

fn intent(name: &str) -> IntentClassifierResult {
    IntentClassifierResult { intent_name: name.to_string(), probability_bits: 1.0f32.to_bits() }
}

#[test]
fn two_components_on_the_intent_topic_each_get_one_intent_once() {
    let mut nlu = InProcessNlu::new();
    let (first_log, first) = recorder();
    let (second_log, second) = recorder();
    assert_eq!(nlu.subscribe_intent_parsed(first), Ok(()));
    assert_eq!(nlu.subscribe_intent_parsed(second), Ok(()));
    let parsed = NluIntentMessage {
        id: text("q"),
        input: "lights on".to_string(),
        intent: intent("lights_on"),
        slots: None,
    };
    assert_eq!(nlu.publish_intent_parsed(parsed.clone()), Ok(()));
    assert_eq!(*first_log.lock().unwrap(), vec![parsed.clone()]);
    assert_eq!(*second_log.lock().unwrap(), vec![parsed]);
}

#[test]
fn toggle_on_for_the_kitchen_leaves_the_office_switched_off() {
    let mut bus = InProcessHermesProtocolHandler::new();
    let state = Arc::new(Mutex::new(ToggleState::new()));
    let on = Arc::clone(&state);
    let off = Arc::clone(&state);
    bus.hotword
        .subscribe_toggle_on(Callback::new(move |site: &SiteMessage| {
            on.lock().unwrap().toggle_on(site)
        }))
        .unwrap();
    bus.hotword
        .subscribe_toggle_off(Callback::new(move |site: &SiteMessage| {
            off.lock().unwrap().toggle_off(site)
        }))
        .unwrap();
    bus.hotword.publish_toggle_off(site("office")).unwrap();
    bus.hotword.publish_toggle_on(site("kitchen")).unwrap();
    assert!(!state.lock().unwrap().is_on(&"office".to_string()));
    assert!(state.lock().unwrap().is_on(&"kitchen".to_string()));
}

#[test]
fn toggles_of_one_stage_do_not_reach_another_stage() {
    let mut bus = InProcessHermesProtocolHandler::new();
    let (hotword_log, hotword) = recorder();
    let (asr_log, asr) = recorder();
    let (sound_log, sound) = recorder();
    let (dialogue_log, dialogue) = recorder();
    bus.hotword.subscribe_toggle_off(hotword).unwrap();
    bus.asr.subscribe_toggle_off(asr).unwrap();
    bus.sound_feedback.subscribe_toggle_off(sound).unwrap();
    bus.dialogue.subscribe_toggle_off(dialogue).unwrap();
    bus.asr.publish_toggle_off(site("kitchen")).unwrap();
    bus.sound_feedback.publish_toggle_on(site("kitchen")).unwrap();
    assert!(hotword_log.lock().unwrap().is_empty());
    assert_eq!(*asr_log.lock().unwrap(), vec![site("kitchen")]);
    assert!(sound_log.lock().unwrap().is_empty());
    assert!(dialogue_log.lock().unwrap().is_empty());
}

#[test]
fn toggle_on_does_not_reach_the_subscribers_to_toggle_off() {
    let mut bus = InProcessHermesProtocolHandler::new();
    let (on_log, on) = recorder();
    let (off_log, off) = recorder();
    bus.dialogue.subscribe_toggle_on(on).unwrap();
    bus.dialogue.subscribe_toggle_off(off).unwrap();
    bus.dialogue.publish_toggle_on(site("kitchen")).unwrap();
    assert_eq!(on_log.lock().unwrap().len(), 1);
    assert!(off_log.lock().unwrap().is_empty());
}

#[test]
fn detected_hotword_reaches_the_subscribers() {
    let mut bus = InProcessHermesProtocolHandler::new();
    let (log, callback) = recorder();
    bus.hotword.subscribe_detected(callback).unwrap();
    let detected = SiteMessage { site_id: "kitchen".to_string(), session_id: text("4") };
    bus.hotword.publish_detected(detected.clone()).unwrap();
    assert_eq!(*log.lock().unwrap(), vec![detected]);
}

#[test]
fn audio_frames_reach_only_the_subscribers_to_their_site() {
    let mut audio = InProcessAudioServer::new();
    let (kitchen_log, kitchen) = recorder();
    let (office_log, office) = recorder();
    audio.subscribe_audio_frame("kitchen".to_string(), kitchen).unwrap();
    audio.subscribe_audio_frame("office".to_string(), office).unwrap();
    let frame = AudioFrameMessage { wav_frame: vec![1, 2, 3], site_id: "kitchen".to_string() };
    audio.publish_audio_frame(frame.clone()).unwrap();
    assert_eq!(*kitchen_log.lock().unwrap(), vec![frame]);
    assert!(office_log.lock().unwrap().is_empty());
}

#[test]
fn bytes_to_play_reach_only_the_audio_server_of_their_site() {
    let mut audio = InProcessAudioServer::new();
    let (kitchen_log, kitchen) = recorder();
    let (office_log, office) = recorder();
    let (finished_log, finished) = recorder();
    audio.subscribe_play_bytes("kitchen".to_string(), kitchen).unwrap();
    audio.subscribe_play_bytes("office".to_string(), office).unwrap();
    audio.subscribe_play_finished(finished).unwrap();
    let play = PlayBytesMessage {
        id: "X".to_string(),
        wav_bytes: vec![9, 9],
        site_id: "office".to_string(),
    };
    audio.publish_play_bytes(play.clone()).unwrap();
    assert!(kitchen_log.lock().unwrap().is_empty());
    assert_eq!(*office_log.lock().unwrap(), vec![play.clone()]);
    audio.publish_play_finished(PlayFinishedMessage::reply_to(&play)).unwrap();
    assert_eq!(*finished_log.lock().unwrap(), vec![PlayFinishedMessage { id: "X".to_string() }]);
}

#[test]
fn say_and_its_answer_carry_the_same_identifier() {
    let mut tts = InProcessTts::new();
    let (orders_log, orders) = recorder::<SayMessage>();
    let (answers_log, answers) = recorder();
    tts.subscribe_say(orders).unwrap();
    tts.subscribe_say_finished(answers).unwrap();
    for id in [text("X"), None] {
        tts.publish_say(SayMessage {
            text: "hello".to_string(),
            lang: None,
            id,
            site_id: "kitchen".to_string(),
        })
        .unwrap();
    }
    let received = orders_log.lock().unwrap().clone();
    for order in &received {
        tts.publish_say_finished(SayFinishedMessage::reply_to(order)).unwrap();
    }
    assert_eq!(
        *answers_log.lock().unwrap(),
        vec![SayFinishedMessage { id: text("X") }, SayFinishedMessage { id: None }]
    );
}

#[test]
fn nlu_streams_are_kept_apart() {
    let mut nlu = InProcessNlu::new();
    let (queries_log, queries) = recorder();
    let (slot_queries_log, slot_queries) = recorder();
    let (slots_log, slots) = recorder();
    let (failures_log, failures) = recorder();
    nlu.subscribe_query(queries).unwrap();
    nlu.subscribe_partial_query(slot_queries).unwrap();
    nlu.subscribe_slot_parsed(slots).unwrap();
    nlu.subscribe_intent_not_recognized(failures).unwrap();
    let query = NluQueryMessage { text: "hm".to_string(), intent_filter: None, id: text("1") };
    let slot_query = NluSlotQueryMessage {
        text: "kitchen".to_string(),
        intent_name: "lights_on".to_string(),
        slot_name: "where".to_string(),
        id: None,
    };
    nlu.publish_query(query.clone()).unwrap();
    nlu.publish_partial_query(slot_query.clone()).unwrap();
    nlu.publish_slot_parsed(NluSlotMessage::reply_to(&slot_query, None)).unwrap();
    nlu.publish_intent_not_recognized(NluIntentNotRecognizedMessage::reply_to(&query)).unwrap();
    assert_eq!(*queries_log.lock().unwrap(), vec![query.clone()]);
    assert_eq!(*slot_queries_log.lock().unwrap(), vec![slot_query.clone()]);
    assert_eq!(*slots_log.lock().unwrap(), vec![NluSlotMessage::reply_to(&slot_query, None)]);
    assert_eq!(
        *failures_log.lock().unwrap(),
        vec![NluIntentNotRecognizedMessage { id: text("1"), input: "hm".to_string() }]
    );
}

#[test]
fn captured_text_and_partial_text_are_kept_apart() {
    let mut bus = InProcessHermesProtocolHandler::new();
    let (full_log, full) = recorder();
    let (partial_log, partial) = recorder();
    bus.asr.subscribe_text_captured(full).unwrap();
    bus.asr.subscribe_partial_text_captured(partial).unwrap();
    let captured = TextCapturedMessage {
        text: "turn on".to_string(),
        likelihood_bits: 0.5f32.to_bits(),
        seconds_bits: 1.25f32.to_bits(),
        site_id: "kitchen".to_string(),
    };
    bus.asr.publish_partial_text_captured(captured.clone()).unwrap();
    assert!(full_log.lock().unwrap().is_empty());
    assert_eq!(*partial_log.lock().unwrap(), vec![captured.clone()]);
    bus.asr.publish_text_captured(captured.clone()).unwrap();
    assert_eq!(*full_log.lock().unwrap(), vec![captured]);
    assert_eq!(f32::from_bits(partial_log.lock().unwrap()[0].seconds_bits), 1.25);
}

#[test]
fn version_is_asked_for_and_answered() {
    let mut tts = InProcessTts::new();
    let asked = Arc::new(Mutex::new(0u32));
    let sink = Arc::clone(&asked);
    let (versions_log, versions) = recorder_of_versions();
    tts.subscribe_version_request(Callback0::new(move || *sink.lock().unwrap() += 1)).unwrap();
    tts.subscribe_version(versions).unwrap();
    tts.publish_version_request().unwrap();
    tts.publish_version_request().unwrap();
    assert_eq!(*asked.lock().unwrap(), 2);
    tts.publish_version(VersionMessage { version: semver::Version::new(0, 9, 1) }).unwrap();
    assert_eq!(*versions_log.lock().unwrap(), vec!["0.9.1".to_string()]);
}

fn recorder_of_versions() -> (Arc<Mutex<Vec<String>>>, Callback<VersionMessage>) {
    let log = Arc::new(Mutex::new(Vec::new()));
    let sink = Arc::clone(&log);
    let callback = Callback::new(move |message: &VersionMessage| {
        sink.lock().unwrap().push(message.version.to_string())
    });
    (log, callback)
}

#[test]
fn errors_of_one_stage_reach_the_subscribers_of_that_stage() {
    let mut bus = InProcessHermesProtocolHandler::new();
    let (nlu_log, nlu) = recorder();
    let (tts_log, tts) = recorder();
    bus.nlu.subscribe_error(nlu).unwrap();
    bus.tts.subscribe_error(tts).unwrap();
    let error = ErrorMessage {
        session_id: text("3"),
        error: "no model".to_string(),
        context: text("loading"),
    };
    bus.nlu.publish_error(error.clone()).unwrap();
    assert_eq!(*nlu_log.lock().unwrap(), vec![error]);
    assert!(tts_log.lock().unwrap().is_empty());
}

#[test]
fn intent_reaches_the_subscribers_to_its_name_and_to_every_intent() {
    let mut dialogue = InProcessDialogue::new();
    let (on_log, on) = recorder();
    let (off_log, off) = recorder();
    let (all_log, all) = recorder();
    dialogue.subscribe_intent("lights_on".to_string(), on).unwrap();
    dialogue.subscribe_intent("lights_off".to_string(), off).unwrap();
    dialogue.subscribe_intents(all).unwrap();
    let message = IntentMessage {
        session_id: "0".to_string(),
        custom_data: text("abc"),
        input: "lights on".to_string(),
        intent: intent("lights_on"),
        slots: None,
    };
    dialogue.publish_intent(message.clone()).unwrap();
    assert_eq!(*on_log.lock().unwrap(), vec![message.clone()]);
    assert!(off_log.lock().unwrap().is_empty());
    assert_eq!(*all_log.lock().unwrap(), vec![message]);
}

#[test]
fn session_requests_and_events_reach_their_subscribers() {
    let mut dialogue = InProcessDialogue::new();
    let (starts_log, starts) = recorder();
    let (continues_log, continues) = recorder();
    let (ends_log, ends) = recorder();
    let (started_log, started) = recorder();
    let (ended_log, ended) = recorder();
    dialogue.subscribe_start_session(starts).unwrap();
    dialogue.subscribe_continue_session(continues).unwrap();
    dialogue.subscribe_end_session(ends).unwrap();
    dialogue.subscribe_session_started(started).unwrap();
    dialogue.subscribe_session_ended(ended).unwrap();
    let start =
        StartSessionMessage { init: SessionInit::User, custom_data: text("abc"), site_id: None };
    let go_on = ContinueSessionMessage {
        session_id: "0".to_string(),
        action: hermes::ontology::SessionAction {
            text: "yes?".to_string(),
            expect_response: true,
            intent_filter: None,
        },
    };
    let end = EndSessionMessage { session_id: "0".to_string() };
    let was_started = SessionStartedMessage {
        session_id: "0".to_string(),
        custom_data: text("abc"),
        site_id: "default".to_string(),
    };
    let was_ended = SessionEndedMessage {
        session_id: "0".to_string(),
        custom_data: text("abc"),
        aborted: Some(false),
    };
    dialogue.publish_start_session(start.clone()).unwrap();
    dialogue.publish_session_started(was_started.clone()).unwrap();
    dialogue.publish_continue_session(go_on.clone()).unwrap();
    dialogue.publish_end_session(end.clone()).unwrap();
    dialogue.publish_session_ended(was_ended.clone()).unwrap();
    assert_eq!(*starts_log.lock().unwrap(), vec![start]);
    assert_eq!(*continues_log.lock().unwrap(), vec![go_on]);
    assert_eq!(*ends_log.lock().unwrap(), vec![end]);
    assert_eq!(*started_log.lock().unwrap(), vec![was_started]);
    assert_eq!(*ended_log.lock().unwrap(), vec![was_ended]);
}

#[test]
fn publishing_with_no_subscriber_succeeds_and_is_not_kept() {
    let mut tts = InProcessTts::new();
    let say = SayMessage {
        text: "hello".to_string(),
        lang: None,
        id: None,
        site_id: "kitchen".to_string(),
    };
    assert_eq!(tts.publish_say(say.clone()), Ok(()));
    let (log, callback) = recorder();
    tts.subscribe_say(callback).unwrap();
    assert!(log.lock().unwrap().is_empty());
    tts.publish_say(say.clone()).unwrap();
    assert_eq!(*log.lock().unwrap(), vec![say]);
}

#[test]
fn events_of_the_dialogue_manager_reach_the_subscribers_of_their_kind() {
    let mut bus = InProcessHermesProtocolHandler::new();
    let (started_log, started) = recorder();
    let (said_log, said) = recorder();
    let (intents_log, intents) = recorder::<IntentMessage>();
    let (ended_log, ended) = recorder();
    let (errors_log, errors) = recorder();
    bus.dialogue.subscribe_session_started(started).unwrap();
    bus.tts.subscribe_say(said).unwrap();
    bus.dialogue.subscribe_intent("lights_on".to_string(), intents).unwrap();
    bus.dialogue.subscribe_session_ended(ended).unwrap();
    bus.dialogue.subscribe_error(errors).unwrap();
    let mut manager = SessionManager::new();
    let requests = vec![
        DialogueRequest::Start(StartSessionMessage {
            init: SessionInit::Lambda {
                action: hermes::ontology::SessionAction {
                    text: "which light?".to_string(),
                    expect_response: true,
                    intent_filter: None,
                },
            },
            custom_data: text("abc"),
            site_id: text("kitchen"),
        }),
        DialogueRequest::IntentParsed(NluIntentMessage {
            id: text("0"),
            input: "the big one".to_string(),
            intent: intent("lights_on"),
            slots: None,
        }),
        DialogueRequest::End(EndSessionMessage { session_id: "0".to_string() }),
        DialogueRequest::End(EndSessionMessage { session_id: "0".to_string() }),
    ];
    for request in requests {
        for event in manager.handle(request) {
            assert_eq!(bus.publish_dialogue_event(event), Ok(()));
        }
    }
    assert_eq!(
        *started_log.lock().unwrap(),
        vec![SessionStartedMessage {
            session_id: "0".to_string(),
            custom_data: text("abc"),
            site_id: "kitchen".to_string(),
        }]
    );
    assert_eq!(
        *said_log.lock().unwrap(),
        vec![SayMessage {
            text: "which light?".to_string(),
            lang: None,
            id: text("0"),
            site_id: "kitchen".to_string(),
        }]
    );
    assert_eq!(intents_log.lock().unwrap().len(), 1);
    assert_eq!(intents_log.lock().unwrap()[0].custom_data, text("abc"));
    assert_eq!(
        *ended_log.lock().unwrap(),
        vec![SessionEndedMessage {
            session_id: "0".to_string(),
            custom_data: text("abc"),
            aborted: Some(false),
        }]
    );
    assert_eq!(
        *errors_log.lock().unwrap(),
        vec![ErrorMessage {
            session_id: text("0"),
            error: "unknown or terminated session".to_string(),
            context: None,
        }]
    );
}
