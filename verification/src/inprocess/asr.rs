//! The automatic speech recognition.

use vstd::prelude::*;
use crate::callback::{Callback, Callback0};
use crate::dispatch::{joined, told, unused, Dispatcher, Registry};
use crate::facade::{
    AsrBackendFacade, AsrFacade, ComponentBackendFacade, ComponentFacade, Error,
    ToggleableBackendFacade, ToggleableFacade,
};
use crate::inprocess::{
    at_site, everywhere, publish_site, send, subscribe_everywhere, ComponentBus,
    ComponentStreams,
};
use crate::ontology::{ErrorMessage, SiteMessage, TextCapturedMessage, VersionMessage};
use crate::topic::{address, route_of, Component, MessageKind};

verus! {

/// The subscriptions of the automatic speech recognition.
pub struct AsrBus {
    pub component: ComponentBus,
    pub toggles: Registry<SiteMessage>,
    pub captures: Registry<TextCapturedMessage>,
}

impl AsrBus {
    /// Nobody has subscribed yet.
    pub open spec fn quiet(self) -> bool {
        &&& self.component.quiet()
        &&& unused(self.toggles)
        &&& unused(self.captures)
    }
}

/// The automatic speech recognition, in process.
pub struct InProcessAsr {
    component: ComponentStreams,
    toggles: Dispatcher<SiteMessage>,
    captures: Dispatcher<TextCapturedMessage>,
}

impl View for InProcessAsr {
    type V = AsrBus;

    closed spec fn view(&self) -> AsrBus {
        AsrBus {
            component: self.component@,
            toggles: self.toggles@,
            captures: self.captures@,
        }
    }
}

impl InProcessAsr {
    /// A stage to which nobody has subscribed yet.
    pub fn new() -> (stage: InProcessAsr)
        ensures
            stage@.quiet(),
    {
        InProcessAsr {
            component: ComponentStreams::new(),
            toggles: Dispatcher::new(),
            captures: Dispatcher::new(),
        }
    }
}

impl ComponentFacade for InProcessAsr {
    fn publish_version_request(&self) -> (outcome: Result<(), Error>)
        ensures
            outcome is Ok,
            told(
                self@.component.version_requests,
                everywhere(Component::Asr, MessageKind::VersionRequest),
                &(),
            ),
    {
        self.component.publish_version_request(Component::Asr)
    }

    fn subscribe_version(
        &mut self,
        handler: Callback<VersionMessage>,
    ) -> (outcome: Result<(), Error>)
        ensures
            outcome is Ok,
            final(self)@ == (AsrBus {
                component: ComponentBus {
                    versions: joined(
                        old(self)@.component.versions,
                        everywhere(Component::Asr, MessageKind::Version),
                        handler,
                    ),
                    ..old(self)@.component
                },
                ..old(self)@
            }),
    {
        self.component.subscribe_version(Component::Asr, handler)
    }

    fn subscribe_error(&mut self, handler: Callback<ErrorMessage>) -> (outcome: Result<(), Error>)
        ensures
            outcome is Ok,
            final(self)@ == (AsrBus {
                component: ComponentBus {
                    errors: joined(
                        old(self)@.component.errors,
                        everywhere(Component::Asr, MessageKind::Error),
                        handler,
                    ),
                    ..old(self)@.component
                },
                ..old(self)@
            }),
    {
        self.component.subscribe_error(Component::Asr, handler)
    }
}

impl ComponentBackendFacade for InProcessAsr {
    fn subscribe_version_request(&mut self, handler: Callback0) -> (outcome: Result<(), Error>)
        ensures
            outcome is Ok,
            final(self)@ == (AsrBus {
                component: ComponentBus {
                    version_requests: joined(
                        old(self)@.component.version_requests,
                        everywhere(Component::Asr, MessageKind::VersionRequest),
                        handler.on_unit(),
                    ),
                    ..old(self)@.component
                },
                ..old(self)@
            }),
    {
        self.component.subscribe_version_request(Component::Asr, handler)
    }

    fn publish_version(&self, version: VersionMessage) -> (outcome: Result<(), Error>)
        ensures
            outcome is Ok,
            told(
                self@.component.versions,
                everywhere(Component::Asr, MessageKind::Version),
                &version,
            ),
    {
        self.component.publish_version(Component::Asr, version)
    }

    fn publish_error(&self, error: ErrorMessage) -> (outcome: Result<(), Error>)
        ensures
            outcome is Ok,
            told(
                self@.component.errors,
                route_of(
                    Component::Asr,
                    MessageKind::Error,
                    None,
                    error.session_id.deep_view(),
                ),
                &error,
            ),
    {
        self.component.publish_error(Component::Asr, error)
    }
}

impl ToggleableFacade for InProcessAsr {
    fn publish_toggle_on(&self, site: SiteMessage) -> (outcome: Result<(), Error>)
        ensures
            outcome is Ok,
            told(self@.toggles, at_site(Component::Asr, MessageKind::ToggleOn, site), &site),
    {
        publish_site(&self.toggles, Component::Asr, MessageKind::ToggleOn, site)
    }

    fn publish_toggle_off(&self, site: SiteMessage) -> (outcome: Result<(), Error>)
        ensures
            outcome is Ok,
            told(self@.toggles, at_site(Component::Asr, MessageKind::ToggleOff, site), &site),
    {
        publish_site(&self.toggles, Component::Asr, MessageKind::ToggleOff, site)
    }
}

impl ToggleableBackendFacade for InProcessAsr {
    fn subscribe_toggle_on(
        &mut self,
        handler: Callback<SiteMessage>,
    ) -> (outcome: Result<(), Error>)
        ensures
            outcome is Ok,
            final(self)@ == (AsrBus {
                toggles: joined(
                    old(self)@.toggles,
                    everywhere(Component::Asr, MessageKind::ToggleOn),
                    handler,
                ),
                ..old(self)@
            }),
    {
        subscribe_everywhere(&mut self.toggles, Component::Asr, MessageKind::ToggleOn, handler)
    }

    fn subscribe_toggle_off(
        &mut self,
        handler: Callback<SiteMessage>,
    ) -> (outcome: Result<(), Error>)
        ensures
            outcome is Ok,
            final(self)@ == (AsrBus {
                toggles: joined(
                    old(self)@.toggles,
                    everywhere(Component::Asr, MessageKind::ToggleOff),
                    handler,
                ),
                ..old(self)@
            }),
    {
        subscribe_everywhere(&mut self.toggles, Component::Asr, MessageKind::ToggleOff, handler)
    }
}

impl AsrFacade for InProcessAsr {
    fn subscribe_text_captured(
        &mut self,
        handler: Callback<TextCapturedMessage>,
    ) -> (outcome: Result<(), Error>)
        ensures
            outcome is Ok,
            final(self)@ == (AsrBus {
                captures: joined(
                    old(self)@.captures,
                    everywhere(Component::Asr, MessageKind::TextCaptured),
                    handler,
                ),
                ..old(self)@
            }),
    {
        subscribe_everywhere(&mut self.captures, Component::Asr, MessageKind::TextCaptured, handler)
    }

    fn subscribe_partial_text_captured(
        &mut self,
        handler: Callback<TextCapturedMessage>,
    ) -> (outcome: Result<(), Error>)
        ensures
            outcome is Ok,
            final(self)@ == (AsrBus {
                captures: joined(
                    old(self)@.captures,
                    everywhere(Component::Asr, MessageKind::PartialTextCaptured),
                    handler,
                ),
                ..old(self)@
            }),
    {
        subscribe_everywhere(
            &mut self.captures,
            Component::Asr,
            MessageKind::PartialTextCaptured,
            handler,
        )
    }
}

impl AsrBackendFacade for InProcessAsr {
    fn publish_text_captured(
        &self,
        text_captured: TextCapturedMessage,
    ) -> (outcome: Result<(), Error>)
        ensures
            outcome is Ok,
            told(
                self@.captures,
                route_of(
                    Component::Asr,
                    MessageKind::TextCaptured,
                    Some(text_captured.site_id@),
                    None,
                ),
                &text_captured,
            ),
    {
        send(
            &self.captures,
            address(
                Component::Asr,
                MessageKind::TextCaptured,
                Some(text_captured.site_id.clone()),
                None,
            ),
            &text_captured,
        )
    }

    fn publish_partial_text_captured(
        &self,
        text_captured: TextCapturedMessage,
    ) -> (outcome: Result<(), Error>)
        ensures
            outcome is Ok,
            told(
                self@.captures,
                route_of(
                    Component::Asr,
                    MessageKind::PartialTextCaptured,
                    Some(text_captured.site_id@),
                    None,
                ),
                &text_captured,
            ),
    {
        send(
            &self.captures,
            address(
                Component::Asr,
                MessageKind::PartialTextCaptured,
                Some(text_captured.site_id.clone()),
                None,
            ),
            &text_captured,
        )
    }
}

} // verus!
