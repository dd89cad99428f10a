use hermes::topic::{address, intent_address, is_in_catalog, Component, MessageKind};

fn text(value: &str) -> Option<String> {
    Some(value.to_string())
}

#[test]
fn catalog_holds_the_pairs_of_the_facades() {
    assert!(is_in_catalog(Component::Hotword, MessageKind::Detected));
    assert!(is_in_catalog(Component::Hotword, MessageKind::ToggleOn));
    assert!(is_in_catalog(Component::SoundFeedback, MessageKind::ToggleOff));
    assert!(is_in_catalog(Component::Asr, MessageKind::TextCaptured));
    assert!(is_in_catalog(Component::Asr, MessageKind::PartialTextCaptured));
    assert!(is_in_catalog(Component::Tts, MessageKind::Say));
    assert!(is_in_catalog(Component::Tts, MessageKind::SayFinished));
    assert!(is_in_catalog(Component::Nlu, MessageKind::IntentParsed));
    assert!(is_in_catalog(Component::AudioServer, MessageKind::AudioFrame));
    assert!(is_in_catalog(Component::Dialogue, MessageKind::SessionStarted));
    assert!(is_in_catalog(Component::Dialogue, MessageKind::Intent));
    assert!(is_in_catalog(Component::Dialogue, MessageKind::Version));
    assert!(is_in_catalog(Component::Nlu, MessageKind::Error));
}

#[test]
fn catalog_leaves_out_the_pairs_of_no_facade() {
    assert!(!is_in_catalog(Component::Tts, MessageKind::ToggleOn));
    assert!(!is_in_catalog(Component::Nlu, MessageKind::ToggleOff));
    assert!(!is_in_catalog(Component::AudioServer, MessageKind::ToggleOn));
    assert!(!is_in_catalog(Component::SoundFeedback, MessageKind::Version));
    assert!(!is_in_catalog(Component::SoundFeedback, MessageKind::VersionRequest));
    assert!(!is_in_catalog(Component::SoundFeedback, MessageKind::Error));
    assert!(!is_in_catalog(Component::Hotword, MessageKind::Say));
    assert!(!is_in_catalog(Component::Asr, MessageKind::Detected));
    assert!(!is_in_catalog(Component::Dialogue, MessageKind::AudioFrame));
    assert!(!is_in_catalog(Component::Tts, MessageKind::Intent));
}

#[test]
fn address_keeps_what_it_was_given() {
    let key = address(
        Component::AudioServer,
        MessageKind::AudioFrame,
        text("kitchen"),
        text("7"),
    );
    assert_eq!(key.component(), Component::AudioServer);
    assert_eq!(key.kind(), MessageKind::AudioFrame);
    assert_eq!(key.site(), text("kitchen"));
    assert_eq!(key.session(), text("7"));
    assert_eq!(key.intent(), None);
}

#[test]
fn intent_address_is_a_dialogue_intent() {
    let key = intent_address(text("lights_on"), text("3"));
    assert_eq!(key.component(), Component::Dialogue);
    assert_eq!(key.kind(), MessageKind::Intent);
    assert_eq!(key.site(), None);
    assert_eq!(key.session(), text("3"));
    assert_eq!(key.intent(), text("lights_on"));
}

#[test]
fn addresses_of_distinct_streams_differ() {
    let kitchen = address(Component::AudioServer, MessageKind::AudioFrame, text("kitchen"), None);
    let office = address(Component::AudioServer, MessageKind::AudioFrame, text("office"), None);
    let play = address(Component::AudioServer, MessageKind::PlayBytes, text("kitchen"), None);
    let hotword = address(Component::Hotword, MessageKind::ToggleOn, text("kitchen"), None);
    let asr = address(Component::Asr, MessageKind::ToggleOn, text("kitchen"), None);
    let in_session =
        address(Component::AudioServer, MessageKind::AudioFrame, text("kitchen"), text("1"));
    assert!(!kitchen.same_as(&office));
    assert!(!kitchen.same_as(&play));
    assert!(!hotword.same_as(&asr));
    assert!(!kitchen.same_as(&in_session));
    assert!(kitchen.same_as(&kitchen.duplicate()));
    assert!(kitchen.same_as(&address(
        Component::AudioServer,
        MessageKind::AudioFrame,
        text("kitchen"),
        None
    )));
    assert_ne!(kitchen, office);
    assert_eq!(kitchen, kitchen.duplicate());
}

#[test]
fn message_reaches_the_subscription_of_its_own_key() {
    let published = address(Component::Tts, MessageKind::Say, text("kitchen"), None);
    let subscribed = address(Component::Tts, MessageKind::Say, text("kitchen"), None);
    assert!(published.delivers_to(&subscribed));
}

#[test]
fn message_reaches_a_subscription_to_all_sites() {
    let published = address(Component::Tts, MessageKind::Say, text("kitchen"), text("4"));
    let all_sites = address(Component::Tts, MessageKind::Say, None, text("4"));
    let all_sessions = address(Component::Tts, MessageKind::Say, text("kitchen"), None);
    let everything = address(Component::Tts, MessageKind::Say, None, None);
    assert!(published.delivers_to(&all_sites));
    assert!(published.delivers_to(&all_sessions));
    assert!(published.delivers_to(&everything));
}

#[test]
fn message_of_one_site_does_not_reach_another_site() {
    let published = address(Component::AudioServer, MessageKind::AudioFrame, text("kitchen"), None);
    let subscribed = address(Component::AudioServer, MessageKind::AudioFrame, text("office"), None);
    assert!(!published.delivers_to(&subscribed));
}

#[test]
fn message_without_a_site_does_not_reach_a_site_subscription() {
    let published = address(Component::AudioServer, MessageKind::PlayFinished, None, None);
    let subscribed =
        address(Component::AudioServer, MessageKind::PlayFinished, text("office"), None);
    assert!(!published.delivers_to(&subscribed));
    assert!(subscribed.delivers_to(&published));
}

#[test]
fn message_of_one_session_does_not_reach_another_session() {
    let published = address(Component::Dialogue, MessageKind::SessionEnded, None, text("1"));
    let subscribed = address(Component::Dialogue, MessageKind::SessionEnded, None, text("2"));
    assert!(!published.delivers_to(&subscribed));
}

#[test]
fn message_does_not_reach_another_kind_or_component() {
    let published = address(Component::Hotword, MessageKind::ToggleOn, text("kitchen"), None);
    let other_kind = address(Component::Hotword, MessageKind::ToggleOff, None, None);
    let other_component = address(Component::Asr, MessageKind::ToggleOn, None, None);
    assert!(!published.delivers_to(&other_kind));
    assert!(!published.delivers_to(&other_component));
}

#[test]
fn intent_reaches_the_subscriptions_to_its_name_and_to_all_intents() {
    let published = intent_address(text("lights_on"), text("3"));
    let same_name = intent_address(text("lights_on"), None);
    let other_name = intent_address(text("lights_off"), None);
    let all_intents = intent_address(None, None);
    assert!(published.delivers_to(&same_name));
    assert!(!published.delivers_to(&other_name));
    assert!(published.delivers_to(&all_intents));
}
