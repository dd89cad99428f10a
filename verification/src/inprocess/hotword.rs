//! The hotword stage.

use vstd::prelude::*;
use crate::callback::{Callback, Callback0};
use crate::dispatch::{joined, told, unused, Dispatcher, Registry};
use crate::facade::{
    ComponentBackendFacade, ComponentFacade, Error, HotwordBackendFacade, HotwordFacade,
    ToggleableBackendFacade, ToggleableFacade,
};
use crate::inprocess::{
    at_site, everywhere, publish_site, subscribe_everywhere, ComponentBus, ComponentStreams,
};
use crate::ontology::{ErrorMessage, SiteMessage, VersionMessage};
use crate::topic::{route_of, Component, MessageKind};

verus! {

/// The subscriptions of the hotword stage.
pub struct HotwordBus {
    pub component: ComponentBus,
    pub toggles: Registry<SiteMessage>,
    pub detections: Registry<SiteMessage>,
}

impl HotwordBus {
    /// Nobody has subscribed yet.
    pub open spec fn quiet(self) -> bool {
        &&& self.component.quiet()
        &&& unused(self.toggles)
        &&& unused(self.detections)
    }
}

/// The hotword stage, in process.
pub struct InProcessHotword {
    component: ComponentStreams,
    toggles: Dispatcher<SiteMessage>,
    detections: Dispatcher<SiteMessage>,
}

impl View for InProcessHotword {
    type V = HotwordBus;

    closed spec fn view(&self) -> HotwordBus {
        HotwordBus {
            component: self.component@,
            toggles: self.toggles@,
            detections: self.detections@,
        }
    }
}

impl InProcessHotword {
    /// A stage to which nobody has subscribed yet.
    pub fn new() -> (stage: InProcessHotword)
        ensures
            stage@.quiet(),
    {
        InProcessHotword {
            component: ComponentStreams::new(),
            toggles: Dispatcher::new(),
            detections: Dispatcher::new(),
        }
    }
}

impl ComponentFacade for InProcessHotword {
    fn publish_version_request(&self) -> (outcome: Result<(), Error>)
        ensures
            outcome is Ok,
            told(
                self@.component.version_requests,
                everywhere(Component::Hotword, MessageKind::VersionRequest),
                &(),
            ),
    {
        self.component.publish_version_request(Component::Hotword)
    }

    fn subscribe_version(
        &mut self,
        handler: Callback<VersionMessage>,
    ) -> (outcome: Result<(), Error>)
        ensures
            outcome is Ok,
            final(self)@ == (HotwordBus {
                component: ComponentBus {
                    versions: joined(
                        old(self)@.component.versions,
                        everywhere(Component::Hotword, MessageKind::Version),
                        handler,
                    ),
                    ..old(self)@.component
                },
                ..old(self)@
            }),
    {
        self.component.subscribe_version(Component::Hotword, handler)
    }

    fn subscribe_error(&mut self, handler: Callback<ErrorMessage>) -> (outcome: Result<(), Error>)
        ensures
            outcome is Ok,
            final(self)@ == (HotwordBus {
                component: ComponentBus {
                    errors: joined(
                        old(self)@.component.errors,
                        everywhere(Component::Hotword, MessageKind::Error),
                        handler,
                    ),
                    ..old(self)@.component
                },
                ..old(self)@
            }),
    {
        self.component.subscribe_error(Component::Hotword, handler)
    }
}

impl ComponentBackendFacade for InProcessHotword {
    fn subscribe_version_request(&mut self, handler: Callback0) -> (outcome: Result<(), Error>)
        ensures
            outcome is Ok,
            final(self)@ == (HotwordBus {
                component: ComponentBus {
                    version_requests: joined(
                        old(self)@.component.version_requests,
                        everywhere(Component::Hotword, MessageKind::VersionRequest),
                        handler.on_unit(),
                    ),
                    ..old(self)@.component
                },
                ..old(self)@
            }),
    {
        self.component.subscribe_version_request(Component::Hotword, handler)
    }

    fn publish_version(&self, version: VersionMessage) -> (outcome: Result<(), Error>)
        ensures
            outcome is Ok,
            told(
                self@.component.versions,
                everywhere(Component::Hotword, MessageKind::Version),
                &version,
            ),
    {
        self.component.publish_version(Component::Hotword, version)
    }

    fn publish_error(&self, error: ErrorMessage) -> (outcome: Result<(), Error>)
        ensures
            outcome is Ok,
            told(
                self@.component.errors,
                route_of(
                    Component::Hotword,
                    MessageKind::Error,
                    None,
                    error.session_id.deep_view(),
                ),
                &error,
            ),
    {
        self.component.publish_error(Component::Hotword, error)
    }
}

impl ToggleableFacade for InProcessHotword {
    fn publish_toggle_on(&self, site: SiteMessage) -> (outcome: Result<(), Error>)
        ensures
            outcome is Ok,
            told(self@.toggles, at_site(Component::Hotword, MessageKind::ToggleOn, site), &site),
    {
        publish_site(&self.toggles, Component::Hotword, MessageKind::ToggleOn, site)
    }

    fn publish_toggle_off(&self, site: SiteMessage) -> (outcome: Result<(), Error>)
        ensures
            outcome is Ok,
            told(self@.toggles, at_site(Component::Hotword, MessageKind::ToggleOff, site), &site),
    {
        publish_site(&self.toggles, Component::Hotword, MessageKind::ToggleOff, site)
    }
}

impl ToggleableBackendFacade for InProcessHotword {
    fn subscribe_toggle_on(
        &mut self,
        handler: Callback<SiteMessage>,
    ) -> (outcome: Result<(), Error>)
        ensures
            outcome is Ok,
            final(self)@ == (HotwordBus {
                toggles: joined(
                    old(self)@.toggles,
                    everywhere(Component::Hotword, MessageKind::ToggleOn),
                    handler,
                ),
                ..old(self)@
            }),
    {
        subscribe_everywhere(&mut self.toggles, Component::Hotword, MessageKind::ToggleOn, handler)
    }

    fn subscribe_toggle_off(
        &mut self,
        handler: Callback<SiteMessage>,
    ) -> (outcome: Result<(), Error>)
        ensures
            outcome is Ok,
            final(self)@ == (HotwordBus {
                toggles: joined(
                    old(self)@.toggles,
                    everywhere(Component::Hotword, MessageKind::ToggleOff),
                    handler,
                ),
                ..old(self)@
            }),
    {
        subscribe_everywhere(&mut self.toggles, Component::Hotword, MessageKind::ToggleOff, handler)
    }
}

impl HotwordFacade for InProcessHotword {
    fn subscribe_detected(&mut self, handler: Callback<SiteMessage>) -> (outcome: Result<(), Error>)
        ensures
            outcome is Ok,
            final(self)@ == (HotwordBus {
                detections: joined(
                    old(self)@.detections,
                    everywhere(Component::Hotword, MessageKind::Detected),
                    handler,
                ),
                ..old(self)@
            }),
    {
        subscribe_everywhere(
            &mut self.detections,
            Component::Hotword,
            MessageKind::Detected,
            handler,
        )
    }
}

impl HotwordBackendFacade for InProcessHotword {
    fn publish_detected(&self, site: SiteMessage) -> (outcome: Result<(), Error>)
        ensures
            outcome is Ok,
            told(self@.detections, at_site(Component::Hotword, MessageKind::Detected, site), &site),
    {
        publish_site(&self.detections, Component::Hotword, MessageKind::Detected, site)
    }
}

} // verus!
