//! The text to speech.

use vstd::prelude::*;
use crate::callback::{Callback, Callback0};
use crate::dispatch::{joined, told, unused, Dispatcher, Registry};
use crate::facade::{
    ComponentBackendFacade, ComponentFacade, Error, TtsBackendFacade, TtsFacade,
};
use crate::inprocess::{everywhere, send, subscribe_everywhere, ComponentBus, ComponentStreams};
use crate::ontology::{ErrorMessage, SayFinishedMessage, SayMessage, VersionMessage};
use crate::topic::{address, route_of, Component, MessageKind};

verus! {

/// The subscriptions of the text to speech.
pub struct TtsBus {
    pub component: ComponentBus,
    pub orders: Registry<SayMessage>,
    pub reports: Registry<SayFinishedMessage>,
}

impl TtsBus {
    /// Nobody has subscribed yet.
    pub open spec fn quiet(self) -> bool {
        &&& self.component.quiet()
        &&& unused(self.orders)
        &&& unused(self.reports)
    }
}

/// The text to speech, in process.
pub struct InProcessTts {
    component: ComponentStreams,
    orders: Dispatcher<SayMessage>,
    reports: Dispatcher<SayFinishedMessage>,
}

impl View for InProcessTts {
    type V = TtsBus;

    closed spec fn view(&self) -> TtsBus {
        TtsBus {
            component: self.component@,
            orders: self.orders@,
            reports: self.reports@,
        }
    }
}

impl InProcessTts {
    /// A stage to which nobody has subscribed yet.
    pub fn new() -> (stage: InProcessTts)
        ensures
            stage@.quiet(),
    {
        InProcessTts {
            component: ComponentStreams::new(),
            orders: Dispatcher::new(),
            reports: Dispatcher::new(),
        }
    }
}

impl ComponentFacade for InProcessTts {
    fn publish_version_request(&self) -> (outcome: Result<(), Error>)
        ensures
            outcome is Ok,
            told(
                self@.component.version_requests,
                everywhere(Component::Tts, MessageKind::VersionRequest),
                &(),
            ),
    {
        self.component.publish_version_request(Component::Tts)
    }

    fn subscribe_version(
        &mut self,
        handler: Callback<VersionMessage>,
    ) -> (outcome: Result<(), Error>)
        ensures
            outcome is Ok,
            final(self)@ == (TtsBus {
                component: ComponentBus {
                    versions: joined(
                        old(self)@.component.versions,
                        everywhere(Component::Tts, MessageKind::Version),
                        handler,
                    ),
                    ..old(self)@.component
                },
                ..old(self)@
            }),
    {
        self.component.subscribe_version(Component::Tts, handler)
    }

    fn subscribe_error(&mut self, handler: Callback<ErrorMessage>) -> (outcome: Result<(), Error>)
        ensures
            outcome is Ok,
            final(self)@ == (TtsBus {
                component: ComponentBus {
                    errors: joined(
                        old(self)@.component.errors,
                        everywhere(Component::Tts, MessageKind::Error),
                        handler,
                    ),
                    ..old(self)@.component
                },
                ..old(self)@
            }),
    {
        self.component.subscribe_error(Component::Tts, handler)
    }
}

impl ComponentBackendFacade for InProcessTts {
    fn subscribe_version_request(&mut self, handler: Callback0) -> (outcome: Result<(), Error>)
        ensures
            outcome is Ok,
            final(self)@ == (TtsBus {
                component: ComponentBus {
                    version_requests: joined(
                        old(self)@.component.version_requests,
                        everywhere(Component::Tts, MessageKind::VersionRequest),
                        handler.on_unit(),
                    ),
                    ..old(self)@.component
                },
                ..old(self)@
            }),
    {
        self.component.subscribe_version_request(Component::Tts, handler)
    }

    fn publish_version(&self, version: VersionMessage) -> (outcome: Result<(), Error>)
        ensures
            outcome is Ok,
            told(
                self@.component.versions,
                everywhere(Component::Tts, MessageKind::Version),
                &version,
            ),
    {
        self.component.publish_version(Component::Tts, version)
    }

    fn publish_error(&self, error: ErrorMessage) -> (outcome: Result<(), Error>)
        ensures
            outcome is Ok,
            told(
                self@.component.errors,
                route_of(
                    Component::Tts,
                    MessageKind::Error,
                    None,
                    error.session_id.deep_view(),
                ),
                &error,
            ),
    {
        self.component.publish_error(Component::Tts, error)
    }
}

impl TtsFacade for InProcessTts {
    fn publish_say(&self, to_say: SayMessage) -> (outcome: Result<(), Error>)
        ensures
            outcome is Ok,
            told(
                self@.orders,
                route_of(
                    Component::Tts,
                    MessageKind::Say,
                    Some(to_say.site_id@),
                    None,
                ),
                &to_say,
            ),
    {
        send(
            &self.orders,
            address(Component::Tts, MessageKind::Say, Some(to_say.site_id.clone()), None),
            &to_say,
        )
    }

    fn subscribe_say_finished(
        &mut self,
        handler: Callback<SayFinishedMessage>,
    ) -> (outcome: Result<(), Error>)
        ensures
            outcome is Ok,
            final(self)@ == (TtsBus {
                reports: joined(
                    old(self)@.reports,
                    everywhere(Component::Tts, MessageKind::SayFinished),
                    handler,
                ),
                ..old(self)@
            }),
    {
        subscribe_everywhere(&mut self.reports, Component::Tts, MessageKind::SayFinished, handler)
    }
}

impl TtsBackendFacade for InProcessTts {
    fn publish_say_finished(&self, status: SayFinishedMessage) -> (outcome: Result<(), Error>)
        ensures
            outcome is Ok,
            told(self@.reports, everywhere(Component::Tts, MessageKind::SayFinished), &status),
    {
        send(&self.reports, address(Component::Tts, MessageKind::SayFinished, None, None), &status)
    }

    fn subscribe_say(&mut self, handler: Callback<SayMessage>) -> (outcome: Result<(), Error>)
        ensures
            outcome is Ok,
            final(self)@ == (TtsBus {
                orders: joined(
                    old(self)@.orders,
                    everywhere(Component::Tts, MessageKind::Say),
                    handler,
                ),
                ..old(self)@
            }),
    {
        subscribe_everywhere(&mut self.orders, Component::Tts, MessageKind::Say, handler)
    }
}

} // verus!
