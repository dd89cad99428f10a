use std::sync::{Arc, Mutex};

use hermes::callback::{Callback, Callback0};
use hermes::dispatch::{Dispatcher, SubscriptionHandle};
use hermes::ontology::{AudioFrameMessage, IntentClassifierResult, NluIntentMessage};
use hermes::topic::{address, Component, MessageKind, RoutingKey};

fn text(value: &str) -> Option<String> {
    Some(value.to_string())
}

fn frames(site: Option<&str>) -> RoutingKey {
    address(
        Component::AudioServer,
        MessageKind::AudioFrame,
        site.map(|site| site.to_string()),
        None,
    )
}

fn frame(site: &str, bytes: &[u8]) -> AudioFrameMessage {
    AudioFrameMessage { wav_frame: bytes.to_vec(), site_id: site.to_string() }
}

fn recorder<T: Clone + Send + 'static>() -> (Arc<Mutex<Vec<T>>>, Callback<T>) {
    let log = Arc::new(Mutex::new(Vec::new()));
    let sink = Arc::clone(&log);
    let callback = Callback::new(move |message: &T| sink.lock().unwrap().push(message.clone()));
    (log, callback)
}

fn texts(handles: &[SubscriptionHandle]) -> Vec<String> {
    handles.iter().map(|handle| handle.to_text()).collect()
}

#[test]
fn callback_calls_its_handler_with_the_argument() {
    let (log, callback) = recorder::<u32>();
    callback.call(&7);
    callback.call(&9);
    assert_eq!(*log.lock().unwrap(), vec![7, 9]);
}

#[test]
fn callback0_calls_its_handler() {
    let count = Arc::new(Mutex::new(0u32));
    let sink = Arc::clone(&count);
    let callback = Callback0::new(move || *sink.lock().unwrap() += 1);
    callback.call();
    callback.call();
    callback.call();
    assert_eq!(*count.lock().unwrap(), 3);
}

#[test]
fn callback0_into_unit_calls_the_same_handler() {
    let count = Arc::new(Mutex::new(0u32));
    let sink = Arc::clone(&count);
    let callback = Callback0::new(move || *sink.lock().unwrap() += 1).into_unit();
    callback.call(&());
    assert_eq!(*count.lock().unwrap(), 1);
}

#[test]
fn matching_subscription_is_called_once_per_publish() {
    let mut dispatcher = Dispatcher::new();
    let (log, callback) = recorder();
    let handle = dispatcher.subscribe(frames(Some("kitchen")), callback);
    let delivered = dispatcher.publish(&frames(Some("kitchen")), &frame("kitchen", &[1, 2]));
    assert_eq!(delivered.len(), 1);
    assert!(delivered[0].equals(&handle));
    assert_eq!(*log.lock().unwrap(), vec![frame("kitchen", &[1, 2])]);
    dispatcher.publish(&frames(Some("kitchen")), &frame("kitchen", &[3]));
    assert_eq!(log.lock().unwrap().len(), 2);
}

#[test]
fn publish_without_subscribers_delivers_nothing() {
    let dispatcher: Dispatcher<AudioFrameMessage> = Dispatcher::new();
    let delivered = dispatcher.publish(&frames(Some("kitchen")), &frame("kitchen", &[1]));
    assert!(delivered.is_empty());
    assert_eq!(dispatcher.subscription_count(), 0);
}

#[test]
fn late_subscriber_does_not_get_earlier_messages() {
    let mut dispatcher = Dispatcher::new();
    dispatcher.publish(&frames(Some("kitchen")), &frame("kitchen", &[1]));
    let (log, callback) = recorder();
    dispatcher.subscribe(frames(Some("kitchen")), callback);
    assert!(log.lock().unwrap().is_empty());
    dispatcher.publish(&frames(Some("kitchen")), &frame("kitchen", &[2]));
    assert_eq!(*log.lock().unwrap(), vec![frame("kitchen", &[2])]);
}

#[test]
fn message_of_one_site_never_reaches_a_subscription_to_another_site() {
    let mut dispatcher = Dispatcher::new();
    let (kitchen_log, kitchen) = recorder();
    let (office_log, office) = recorder();
    dispatcher.subscribe(frames(Some("kitchen")), kitchen);
    let office_handle = dispatcher.subscribe(frames(Some("office")), office);
    let delivered = dispatcher.publish(&frames(Some("kitchen")), &frame("kitchen", &[1]));
    assert_eq!(kitchen_log.lock().unwrap().len(), 1);
    assert!(office_log.lock().unwrap().is_empty());
    assert!(delivered.iter().all(|handle| !handle.equals(&office_handle)));
}

#[test]
fn subscription_to_all_sites_gets_the_messages_of_every_site() {
    let mut dispatcher = Dispatcher::new();
    let (log, callback) = recorder();
    dispatcher.subscribe(frames(None), callback);
    dispatcher.publish(&frames(Some("kitchen")), &frame("kitchen", &[1]));
    dispatcher.publish(&frames(Some("office")), &frame("office", &[2]));
    assert_eq!(*log.lock().unwrap(), vec![frame("kitchen", &[1]), frame("office", &[2])]);
}

#[test]
fn two_subscribers_to_one_intent_topic_each_get_the_intent_once() {
    let key = || address(Component::Nlu, MessageKind::IntentParsed, None, None);
    let mut dispatcher = Dispatcher::new();
    let (first_log, first) = recorder();
    let (second_log, second) = recorder();
    let first_handle = dispatcher.subscribe(key(), first);
    let second_handle = dispatcher.subscribe(key(), second);
    let intent = NluIntentMessage {
        id: text("q1"),
        input: "turn on the lights".to_string(),
        intent: IntentClassifierResult {
            intent_name: "lights_on".to_string(),
            probability_bits: 0.9f32.to_bits(),
        },
        slots: None,
    };
    let delivered = dispatcher.publish(&key(), &intent);
    assert_eq!(*first_log.lock().unwrap(), vec![intent.clone()]);
    assert_eq!(*second_log.lock().unwrap(), vec![intent.clone()]);
    assert_eq!(delivered.len(), 2);
    assert_eq!(delivered.iter().filter(|handle| handle.equals(&first_handle)).count(), 1);
    assert_eq!(delivered.iter().filter(|handle| handle.equals(&second_handle)).count(), 1);
}

#[test]
fn handlers_are_called_in_the_order_of_subscription() {
    let mut dispatcher = Dispatcher::new();
    let order = Arc::new(Mutex::new(Vec::new()));
    let mut handles = Vec::new();
    for name in ["a", "b", "c"] {
        let sink = Arc::clone(&order);
        handles.push(dispatcher.subscribe(
            frames(None),
            Callback::new(move |_: &AudioFrameMessage| sink.lock().unwrap().push(name)),
        ));
    }
    let delivered = dispatcher.publish(&frames(Some("kitchen")), &frame("kitchen", &[]));
    assert_eq!(*order.lock().unwrap(), vec!["a", "b", "c"]);
    assert_eq!(texts(&delivered), texts(&handles));
}

#[test]
fn each_subscriber_gets_the_messages_in_the_order_of_publication() {
    let mut dispatcher = Dispatcher::new();
    let (log, callback) = recorder();
    dispatcher.subscribe(frames(Some("kitchen")), callback);
    for byte in 0..5u8 {
        dispatcher.publish(&frames(Some("kitchen")), &frame("kitchen", &[byte]));
    }
    let seen: Vec<u8> = log.lock().unwrap().iter().map(|frame| frame.wav_frame[0]).collect();
    assert_eq!(seen, vec![0, 1, 2, 3, 4]);
}

#[test]
fn handles_are_numbered_from_zero_and_never_reused() {
    let mut dispatcher: Dispatcher<AudioFrameMessage> = Dispatcher::new();
    let first = dispatcher.subscribe(frames(None), Callback::new(|_| {}));
    let second = dispatcher.subscribe(frames(None), Callback::new(|_| {}));
    assert_eq!(first.to_text(), "0");
    assert_eq!(second.to_text(), "1");
    assert!(dispatcher.unsubscribe(&second));
    let third = dispatcher.subscribe(frames(None), Callback::new(|_| {}));
    assert_eq!(third.to_text(), "2");
    assert!(!third.equals(&second));
    assert!(!third.equals(&first));
}

#[test]
fn unsubscribe_stops_the_delivery() {
    let mut dispatcher = Dispatcher::new();
    let (log, callback) = recorder();
    let (other_log, other) = recorder();
    let handle = dispatcher.subscribe(frames(None), callback);
    dispatcher.subscribe(frames(None), other);
    dispatcher.publish(&frames(Some("kitchen")), &frame("kitchen", &[1]));
    assert!(dispatcher.unsubscribe(&handle));
    assert_eq!(dispatcher.subscription_count(), 1);
    let delivered = dispatcher.publish(&frames(Some("kitchen")), &frame("kitchen", &[2]));
    assert_eq!(log.lock().unwrap().len(), 1);
    assert_eq!(other_log.lock().unwrap().len(), 2);
    assert_eq!(texts(&delivered), vec!["1"]);
}

#[test]
fn unsubscribe_of_a_handle_that_is_gone_changes_nothing() {
    let mut dispatcher = Dispatcher::new();
    let (log, callback) = recorder();
    let gone = dispatcher.subscribe(frames(None), Callback::new(|_| {}));
    dispatcher.subscribe(frames(None), callback);
    assert!(dispatcher.unsubscribe(&gone));
    assert!(!dispatcher.unsubscribe(&gone));
    assert!(!dispatcher.unsubscribe(&gone.duplicate()));
    assert_eq!(dispatcher.subscription_count(), 1);
    dispatcher.publish(&frames(Some("kitchen")), &frame("kitchen", &[1]));
    assert_eq!(log.lock().unwrap().len(), 1);
}

#[test]
fn unsubscribe_of_a_handle_of_another_dispatcher_that_was_never_given_changes_nothing() {
    let mut first: Dispatcher<AudioFrameMessage> = Dispatcher::new();
    let mut second: Dispatcher<AudioFrameMessage> = Dispatcher::new();
    second.subscribe(frames(None), Callback::new(|_| {}));
    let foreign = second.subscribe(frames(None), Callback::new(|_| {}));
    first.subscribe(frames(None), Callback::new(|_| {}));
    assert!(!first.unsubscribe(&foreign));
    assert_eq!(first.subscription_count(), 1);
}

#[test]
fn subscribing_twice_to_one_key_adds_and_does_not_replace() {
    let mut dispatcher = Dispatcher::new();
    let (first_log, first) = recorder();
    let (second_log, second) = recorder();
    dispatcher.subscribe(frames(Some("kitchen")), first);
    dispatcher.subscribe(frames(Some("kitchen")), second);
    assert_eq!(dispatcher.subscription_count(), 2);
    dispatcher.publish(&frames(Some("kitchen")), &frame("kitchen", &[1]));
    assert_eq!(first_log.lock().unwrap().len(), 1);
    assert_eq!(second_log.lock().unwrap().len(), 1);
}
