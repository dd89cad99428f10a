//! The facades of components that live in one process: every message goes
//! straight from the publisher to the handlers of the subscribers, through
//! a dispatch engine that the stage owns.

pub mod asr;
pub mod audio_server;
pub mod dialogue;
pub mod hotword;
pub mod nlu;
pub mod sound_feedback;
pub mod tts;

use vstd::prelude::*;
use crate::callback::{Callback, Callback0};
use crate::dialogue::DialogueEvent;
use crate::dispatch::{joined, told, unused, Dispatcher, Registry};
use crate::facade::{ComponentBackendFacade, DialogueBackendFacade, Error, TtsFacade};
use crate::inprocess::asr::InProcessAsr;
use crate::inprocess::audio_server::InProcessAudioServer;
use crate::inprocess::dialogue::InProcessDialogue;
use crate::inprocess::hotword::InProcessHotword;
use crate::inprocess::nlu::InProcessNlu;
use crate::inprocess::sound_feedback::InProcessSoundFeedback;
use crate::inprocess::tts::InProcessTts;
use crate::ontology::{copy_optional_text, ErrorMessage, SiteMessage, VersionMessage};
use crate::topic::{
    address, in_catalog, intent_route, reports, route_of, Component, MessageKind, Route,
    RoutingKey,
};

verus! {

pub(crate) fn send<M>(dispatcher: &Dispatcher<M>, key: RoutingKey, message: &M) -> (outcome: Result<
    (),
    Error,
>)
    ensures
        outcome is Ok,
        told(dispatcher@, key@, message),
{
    let _ = dispatcher.publish(&key, message);
    Ok(())
}

pub(crate) fn listen<M>(
    dispatcher: &mut Dispatcher<M>,
    key: RoutingKey,
    handler: Callback<M>,
) -> (outcome: Result<(), Error>)
    ensures
        outcome is Ok,
        final(dispatcher)@ == joined(old(dispatcher)@, key@, handler),
{
    let _ = dispatcher.subscribe(key, handler);
    Ok(())
}

/// The subscriptions to what every component exchanges: requests for its
/// version, its version and its errors.
pub struct ComponentBus {
    pub version_requests: Registry<()>,
    pub versions: Registry<VersionMessage>,
    pub errors: Registry<ErrorMessage>,
}

impl ComponentBus {
    /// Nobody has subscribed yet.
    pub open spec fn quiet(self) -> bool {
        &&& unused(self.version_requests)
        &&& unused(self.versions)
        &&& unused(self.errors)
    }
}

pub(crate) struct ComponentStreams {
    version_requests: Dispatcher<()>,
    versions: Dispatcher<VersionMessage>,
    errors: Dispatcher<ErrorMessage>,
}

impl View for ComponentStreams {
    type V = ComponentBus;

    closed spec fn view(&self) -> ComponentBus {
        ComponentBus {
            version_requests: self.version_requests@,
            versions: self.versions@,
            errors: self.errors@,
        }
    }
}

/// The address of the messages of one kind that a component exchanges with
/// every site and session.
pub open spec fn everywhere(component: Component, kind: MessageKind) -> Route {
    route_of(component, kind, None, None)
}

impl ComponentStreams {
    pub(crate) fn new() -> (streams: ComponentStreams)
        ensures
            streams@.quiet(),
    {
        ComponentStreams {
            version_requests: Dispatcher::new(),
            versions: Dispatcher::new(),
            errors: Dispatcher::new(),
        }
    }

    pub(crate) fn publish_version_request(&self, component: Component) -> (outcome: Result<
        (),
        Error,
    >)
        requires
            reports(component),
        ensures
            outcome is Ok,
            told(self@.version_requests, everywhere(component, MessageKind::VersionRequest), &()),
    {
        send(
            &self.version_requests,
            address(component, MessageKind::VersionRequest, None, None),
            &(),
        )
    }

    pub(crate) fn subscribe_version(
        &mut self,
        component: Component,
        handler: Callback<VersionMessage>,
    ) -> (outcome: Result<(), Error>)
        requires
            reports(component),
        ensures
            outcome is Ok,
            final(self)@ == (ComponentBus {
                versions: joined(
                    old(self)@.versions,
                    everywhere(component, MessageKind::Version),
                    handler,
                ),
                ..old(self)@
            }),
    {
        listen(&mut self.versions, address(component, MessageKind::Version, None, None), handler)
    }

    pub(crate) fn subscribe_error(
        &mut self,
        component: Component,
        handler: Callback<ErrorMessage>,
    ) -> (outcome: Result<(), Error>)
        requires
            reports(component),
        ensures
            outcome is Ok,
            final(self)@ == (ComponentBus {
                errors: joined(
                    old(self)@.errors,
                    everywhere(component, MessageKind::Error),
                    handler,
                ),
                ..old(self)@
            }),
    {
        listen(&mut self.errors, address(component, MessageKind::Error, None, None), handler)
    }

    pub(crate) fn subscribe_version_request(
        &mut self,
        component: Component,
        handler: Callback0,
    ) -> (outcome: Result<(), Error>)
        requires
            reports(component),
        ensures
            outcome is Ok,
            final(self)@ == (ComponentBus {
                version_requests: joined(
                    old(self)@.version_requests,
                    everywhere(component, MessageKind::VersionRequest),
                    handler.on_unit(),
                ),
                ..old(self)@
            }),
    {
        listen(
            &mut self.version_requests,
            address(component, MessageKind::VersionRequest, None, None),
            handler.into_unit(),
        )
    }

    pub(crate) fn publish_version(
        &self,
        component: Component,
        version: VersionMessage,
    ) -> (outcome: Result<(), Error>)
        requires
            reports(component),
        ensures
            outcome is Ok,
            told(self@.versions, everywhere(component, MessageKind::Version), &version),
    {
        send(&self.versions, address(component, MessageKind::Version, None, None), &version)
    }

    pub(crate) fn publish_error(
        &self,
        component: Component,
        error: ErrorMessage,
    ) -> (outcome: Result<(), Error>)
        requires
            reports(component),
        ensures
            outcome is Ok,
            told(
                self@.errors,
                route_of(component, MessageKind::Error, None, error.session_id.deep_view()),
                &error,
            ),
    {
        send(
            &self.errors,
            address(component, MessageKind::Error, None, copy_optional_text(&error.session_id)),
            &error,
        )
    }
}

/// The address of a message about a site: the site it names, and the
/// session it names where it names one.
pub open spec fn at_site(component: Component, kind: MessageKind, site: SiteMessage) -> Route
{
    route_of(component, kind, Some(site.site_id@), site.session_id.deep_view())
}

pub(crate) fn publish_site(
    dispatcher: &Dispatcher<SiteMessage>,
    component: Component,
    kind: MessageKind,
    site: SiteMessage,
) -> (outcome: Result<(), Error>)
    requires
        in_catalog(component, kind),
    ensures
        outcome is Ok,
        told(dispatcher@, at_site(component, kind, site), &site),
{
    let key = address(
        component,
        kind,
        Some(site.site_id.clone()),
        copy_optional_text(&site.session_id),
    );
    send(dispatcher, key, &site)
}

pub(crate) fn subscribe_everywhere<M>(
    dispatcher: &mut Dispatcher<M>,
    component: Component,
    kind: MessageKind,
    handler: Callback<M>,
) -> (outcome: Result<(), Error>)
    requires
        in_catalog(component, kind),
    ensures
        outcome is Ok,
        final(dispatcher)@ == joined(old(dispatcher)@, everywhere(component, kind), handler),
{
    listen(dispatcher, address(component, kind, None, None), handler)
}

/// Every stage of the pipeline, in process.
pub struct InProcessHermesProtocolHandler {
    pub hotword: InProcessHotword,
    pub sound_feedback: InProcessSoundFeedback,
    pub asr: InProcessAsr,
    pub tts: InProcessTts,
    pub nlu: InProcessNlu,
    pub audio_server: InProcessAudioServer,
    pub dialogue: InProcessDialogue,
}

impl InProcessHermesProtocolHandler {
    /// A pipeline to which nobody has subscribed yet.
    pub fn new() -> (handler: InProcessHermesProtocolHandler)
        ensures
            handler.hotword@.quiet(),
            handler.sound_feedback@.quiet(),
            handler.asr@.quiet(),
            handler.tts@.quiet(),
            handler.nlu@.quiet(),
            handler.audio_server@.quiet(),
            handler.dialogue@.quiet(),
    {
        InProcessHermesProtocolHandler {
            hotword: InProcessHotword::new(),
            sound_feedback: InProcessSoundFeedback::new(),
            asr: InProcessAsr::new(),
            tts: InProcessTts::new(),
            nlu: InProcessNlu::new(),
            audio_server: InProcessAudioServer::new(),
            dialogue: InProcessDialogue::new(),
        }
    }

    /// Whether an event of the dialogue manager has been handed to the
    /// subscribers it is for: an order to speak to those of the text to
    /// speech at its site, an error to those of the dialogue manager's
    /// errors, and every other event to those of its kind, at its site and
    /// in its session.
    pub open spec fn event_told(&self, event: DialogueEvent) -> bool {
        match event {
            DialogueEvent::SessionStarted(status) => told(
                self.dialogue@.started,
                route_of(
                    Component::Dialogue,
                    MessageKind::SessionStarted,
                    Some(status.site_id@),
                    Some(status.session_id@),
                ),
                &status,
            ),
            DialogueEvent::Say(to_say) => told(
                self.tts@.orders,
                route_of(Component::Tts, MessageKind::Say, Some(to_say.site_id@), None),
                &to_say,
            ),
            DialogueEvent::Intent(intent) => told(
                self.dialogue@.intents,
                intent_route(Some(intent.intent.intent_name@), Some(intent.session_id@)),
                &intent,
            ),
            DialogueEvent::SessionEnded(status) => told(
                self.dialogue@.ended,
                route_of(
                    Component::Dialogue,
                    MessageKind::SessionEnded,
                    None,
                    Some(status.session_id@),
                ),
                &status,
            ),
            DialogueEvent::Error(error) => told(
                self.dialogue@.component.errors,
                route_of(
                    Component::Dialogue,
                    MessageKind::Error,
                    None,
                    error.session_id.deep_view(),
                ),
                &error,
            ),
        }
    }

    /// Publishes an event of the dialogue manager where it belongs.
    pub fn publish_dialogue_event(&self, event: DialogueEvent) -> (outcome: Result<(), Error>)
        ensures
            outcome is Ok,
            self.event_told(event),
    {
        match event {
            DialogueEvent::SessionStarted(status) => self.dialogue.publish_session_started(status),
            DialogueEvent::Say(to_say) => self.tts.publish_say(to_say),
            DialogueEvent::Intent(intent) => self.dialogue.publish_intent(intent),
            DialogueEvent::SessionEnded(status) => self.dialogue.publish_session_ended(status),
            DialogueEvent::Error(error) => self.dialogue.publish_error(error),
        }
    }
}

} // verus!
