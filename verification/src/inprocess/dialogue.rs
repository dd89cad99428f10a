//! The dialogue manager.

use vstd::prelude::*;
use crate::callback::{Callback, Callback0};
use crate::dispatch::{joined, told, unused, Dispatcher, Registry};
use crate::facade::{
    ComponentBackendFacade, ComponentFacade, DialogueBackendFacade, DialogueFacade, Error,
    ToggleableBackendFacade, ToggleableFacade,
};
use crate::inprocess::{
    at_site, everywhere, listen, publish_site, send, subscribe_everywhere, ComponentBus,
    ComponentStreams,
};
use crate::ontology::{
    ContinueSessionMessage, EndSessionMessage, ErrorMessage, IntentMessage, SessionEndedMessage,
    SessionStartedMessage, SiteMessage, StartSessionMessage, VersionMessage,
};
use crate::session::site_or_default;
use crate::topic::{address, intent_address, intent_route, route_of, Component, MessageKind};

verus! {

/// The subscriptions of the dialogue manager.
pub struct DialogueBus {
    pub component: ComponentBus,
    pub toggles: Registry<SiteMessage>,
    pub starts: Registry<StartSessionMessage>,
    pub continuations: Registry<ContinueSessionMessage>,
    pub ends: Registry<EndSessionMessage>,
    pub started: Registry<SessionStartedMessage>,
    pub intents: Registry<IntentMessage>,
    pub ended: Registry<SessionEndedMessage>,
}

impl DialogueBus {
    /// Nobody has subscribed yet.
    pub open spec fn quiet(self) -> bool {
        &&& self.component.quiet()
        &&& unused(self.toggles)
        &&& unused(self.starts)
        &&& unused(self.continuations)
        &&& unused(self.ends)
        &&& unused(self.started)
        &&& unused(self.intents)
        &&& unused(self.ended)
    }
}

/// The dialogue manager, in process.
pub struct InProcessDialogue {
    component: ComponentStreams,
    toggles: Dispatcher<SiteMessage>,
    starts: Dispatcher<StartSessionMessage>,
    continuations: Dispatcher<ContinueSessionMessage>,
    ends: Dispatcher<EndSessionMessage>,
    started: Dispatcher<SessionStartedMessage>,
    intents: Dispatcher<IntentMessage>,
    ended: Dispatcher<SessionEndedMessage>,
}

impl View for InProcessDialogue {
    type V = DialogueBus;

    closed spec fn view(&self) -> DialogueBus {
        DialogueBus {
            component: self.component@,
            toggles: self.toggles@,
            starts: self.starts@,
            continuations: self.continuations@,
            ends: self.ends@,
            started: self.started@,
            intents: self.intents@,
            ended: self.ended@,
        }
    }
}

impl InProcessDialogue {
    /// A stage to which nobody has subscribed yet.
    pub fn new() -> (stage: InProcessDialogue)
        ensures
            stage@.quiet(),
    {
        InProcessDialogue {
            component: ComponentStreams::new(),
            toggles: Dispatcher::new(),
            starts: Dispatcher::new(),
            continuations: Dispatcher::new(),
            ends: Dispatcher::new(),
            started: Dispatcher::new(),
            intents: Dispatcher::new(),
            ended: Dispatcher::new(),
        }
    }
}

impl ComponentFacade for InProcessDialogue {
    fn publish_version_request(&self) -> (outcome: Result<(), Error>)
        ensures
            outcome is Ok,
            told(
                self@.component.version_requests,
                everywhere(Component::Dialogue, MessageKind::VersionRequest),
                &(),
            ),
    {
        self.component.publish_version_request(Component::Dialogue)
    }

    fn subscribe_version(
        &mut self,
        handler: Callback<VersionMessage>,
    ) -> (outcome: Result<(), Error>)
        ensures
            outcome is Ok,
            final(self)@ == (DialogueBus {
                component: ComponentBus {
                    versions: joined(
                        old(self)@.component.versions,
                        everywhere(Component::Dialogue, MessageKind::Version),
                        handler,
                    ),
                    ..old(self)@.component
                },
                ..old(self)@
            }),
    {
        self.component.subscribe_version(Component::Dialogue, handler)
    }

    fn subscribe_error(&mut self, handler: Callback<ErrorMessage>) -> (outcome: Result<(), Error>)
        ensures
            outcome is Ok,
            final(self)@ == (DialogueBus {
                component: ComponentBus {
                    errors: joined(
                        old(self)@.component.errors,
                        everywhere(Component::Dialogue, MessageKind::Error),
                        handler,
                    ),
                    ..old(self)@.component
                },
                ..old(self)@
            }),
    {
        self.component.subscribe_error(Component::Dialogue, handler)
    }
}

impl ComponentBackendFacade for InProcessDialogue {
    fn subscribe_version_request(&mut self, handler: Callback0) -> (outcome: Result<(), Error>)
        ensures
            outcome is Ok,
            final(self)@ == (DialogueBus {
                component: ComponentBus {
                    version_requests: joined(
                        old(self)@.component.version_requests,
                        everywhere(Component::Dialogue, MessageKind::VersionRequest),
                        handler.on_unit(),
                    ),
                    ..old(self)@.component
                },
                ..old(self)@
            }),
    {
        self.component.subscribe_version_request(Component::Dialogue, handler)
    }

    fn publish_version(&self, version: VersionMessage) -> (outcome: Result<(), Error>)
        ensures
            outcome is Ok,
            told(
                self@.component.versions,
                everywhere(Component::Dialogue, MessageKind::Version),
                &version,
            ),
    {
        self.component.publish_version(Component::Dialogue, version)
    }

    fn publish_error(&self, error: ErrorMessage) -> (outcome: Result<(), Error>)
        ensures
            outcome is Ok,
            told(
                self@.component.errors,
                route_of(
                    Component::Dialogue,
                    MessageKind::Error,
                    None,
                    error.session_id.deep_view(),
                ),
                &error,
            ),
    {
        self.component.publish_error(Component::Dialogue, error)
    }
}

impl ToggleableFacade for InProcessDialogue {
    fn publish_toggle_on(&self, site: SiteMessage) -> (outcome: Result<(), Error>)
        ensures
            outcome is Ok,
            told(self@.toggles, at_site(Component::Dialogue, MessageKind::ToggleOn, site), &site),
    {
        publish_site(&self.toggles, Component::Dialogue, MessageKind::ToggleOn, site)
    }

    fn publish_toggle_off(&self, site: SiteMessage) -> (outcome: Result<(), Error>)
        ensures
            outcome is Ok,
            told(self@.toggles, at_site(Component::Dialogue, MessageKind::ToggleOff, site), &site),
    {
        publish_site(&self.toggles, Component::Dialogue, MessageKind::ToggleOff, site)
    }
}

impl ToggleableBackendFacade for InProcessDialogue {
    fn subscribe_toggle_on(
        &mut self,
        handler: Callback<SiteMessage>,
    ) -> (outcome: Result<(), Error>)
        ensures
            outcome is Ok,
            final(self)@ == (DialogueBus {
                toggles: joined(
                    old(self)@.toggles,
                    everywhere(Component::Dialogue, MessageKind::ToggleOn),
                    handler,
                ),
                ..old(self)@
            }),
    {
        subscribe_everywhere(&mut self.toggles, Component::Dialogue, MessageKind::ToggleOn, handler)
    }

    fn subscribe_toggle_off(
        &mut self,
        handler: Callback<SiteMessage>,
    ) -> (outcome: Result<(), Error>)
        ensures
            outcome is Ok,
            final(self)@ == (DialogueBus {
                toggles: joined(
                    old(self)@.toggles,
                    everywhere(Component::Dialogue, MessageKind::ToggleOff),
                    handler,
                ),
                ..old(self)@
            }),
    {
        subscribe_everywhere(
            &mut self.toggles,
            Component::Dialogue,
            MessageKind::ToggleOff,
            handler,
        )
    }
}

impl DialogueFacade for InProcessDialogue {
    fn subscribe_session_started(
        &mut self,
        handler: Callback<SessionStartedMessage>,
    ) -> (outcome: Result<(), Error>)
        ensures
            outcome is Ok,
            final(self)@ == (DialogueBus {
                started: joined(
                    old(self)@.started,
                    everywhere(Component::Dialogue, MessageKind::SessionStarted),
                    handler,
                ),
                ..old(self)@
            }),
    {
        subscribe_everywhere(
            &mut self.started,
            Component::Dialogue,
            MessageKind::SessionStarted,
            handler,
        )
    }

    fn subscribe_intent(
        &mut self,
        intent_name: String,
        handler: Callback<IntentMessage>,
    ) -> (outcome: Result<(), Error>)
        ensures
            outcome is Ok,
            final(self)@ == (DialogueBus {
                intents: joined(
                    old(self)@.intents,
                    intent_route(Some(intent_name@), None),
                    handler,
                ),
                ..old(self)@
            }),
    {
        listen(&mut self.intents, intent_address(Some(intent_name), None), handler)
    }

    fn subscribe_intents(
        &mut self,
        handler: Callback<IntentMessage>,
    ) -> (outcome: Result<(), Error>)
        ensures
            outcome is Ok,
            final(self)@ == (DialogueBus {
                intents: joined(old(self)@.intents, intent_route(None, None), handler),
                ..old(self)@
            }),
    {
        listen(&mut self.intents, intent_address(None, None), handler)
    }

    fn subscribe_session_ended(
        &mut self,
        handler: Callback<SessionEndedMessage>,
    ) -> (outcome: Result<(), Error>)
        ensures
            outcome is Ok,
            final(self)@ == (DialogueBus {
                ended: joined(
                    old(self)@.ended,
                    everywhere(Component::Dialogue, MessageKind::SessionEnded),
                    handler,
                ),
                ..old(self)@
            }),
    {
        subscribe_everywhere(
            &mut self.ended,
            Component::Dialogue,
            MessageKind::SessionEnded,
            handler,
        )
    }

    fn publish_start_session(
        &self,
        start_session: StartSessionMessage,
    ) -> (outcome: Result<(), Error>)
        ensures
            outcome is Ok,
            told(
                self@.starts,
                route_of(
                    Component::Dialogue,
                    MessageKind::StartSession,
                    Some(site_or_default(start_session.site_id.deep_view())),
                    None,
                ),
                &start_session,
            ),
    {
        let site = match &start_session.site_id {
            Some(site) => site.clone(),
            None => "default".to_owned(),
        };
        let key = address(Component::Dialogue, MessageKind::StartSession, Some(site), None);
        send(&self.starts, key, &start_session)
    }

    fn publish_continue_session(
        &self,
        continue_session: ContinueSessionMessage,
    ) -> (outcome: Result<(), Error>)
        ensures
            outcome is Ok,
            told(
                self@.continuations,
                route_of(
                    Component::Dialogue,
                    MessageKind::ContinueSession,
                    None,
                    Some(continue_session.session_id@),
                ),
                &continue_session,
            ),
    {
        send(
            &self.continuations,
            address(
                Component::Dialogue,
                MessageKind::ContinueSession,
                None,
                Some(continue_session.session_id.clone()),
            ),
            &continue_session,
        )
    }

    fn publish_end_session(&self, end_session: EndSessionMessage) -> (outcome: Result<(), Error>)
        ensures
            outcome is Ok,
            told(
                self@.ends,
                route_of(
                    Component::Dialogue,
                    MessageKind::EndSession,
                    None,
                    Some(end_session.session_id@),
                ),
                &end_session,
            ),
    {
        send(
            &self.ends,
            address(
                Component::Dialogue,
                MessageKind::EndSession,
                None,
                Some(end_session.session_id.clone()),
            ),
            &end_session,
        )
    }
}

impl DialogueBackendFacade for InProcessDialogue {
    fn publish_session_started(&self, status: SessionStartedMessage) -> (outcome: Result<(), Error>)
        ensures
            outcome is Ok,
            told(
                self@.started,
                route_of(
                    Component::Dialogue,
                    MessageKind::SessionStarted,
                    Some(status.site_id@),
                    Some(status.session_id@),
                ),
                &status,
            ),
    {
        send(
            &self.started,
            address(
                Component::Dialogue,
                MessageKind::SessionStarted,
                Some(status.site_id.clone()),
                Some(status.session_id.clone()),
            ),
            &status,
        )
    }

    fn publish_intent(&self, intent: IntentMessage) -> (outcome: Result<(), Error>)
        ensures
            outcome is Ok,
            told(
                self@.intents,
                intent_route(Some(intent.intent.intent_name@), Some(intent.session_id@)),
                &intent,
            ),
    {
        let key = intent_address(
            Some(intent.intent.intent_name.clone()),
            Some(intent.session_id.clone()),
        );
        send(&self.intents, key, &intent)
    }

    fn publish_session_ended(&self, status: SessionEndedMessage) -> (outcome: Result<(), Error>)
        ensures
            outcome is Ok,
            told(
                self@.ended,
                route_of(
                    Component::Dialogue,
                    MessageKind::SessionEnded,
                    None,
                    Some(status.session_id@),
                ),
                &status,
            ),
    {
        send(
            &self.ended,
            address(
                Component::Dialogue,
                MessageKind::SessionEnded,
                None,
                Some(status.session_id.clone()),
            ),
            &status,
        )
    }

    fn subscribe_start_session(
        &mut self,
        handler: Callback<StartSessionMessage>,
    ) -> (outcome: Result<(), Error>)
        ensures
            outcome is Ok,
            final(self)@ == (DialogueBus {
                starts: joined(
                    old(self)@.starts,
                    everywhere(Component::Dialogue, MessageKind::StartSession),
                    handler,
                ),
                ..old(self)@
            }),
    {
        subscribe_everywhere(
            &mut self.starts,
            Component::Dialogue,
            MessageKind::StartSession,
            handler,
        )
    }

    fn subscribe_continue_session(
        &mut self,
        handler: Callback<ContinueSessionMessage>,
    ) -> (outcome: Result<(), Error>)
        ensures
            outcome is Ok,
            final(self)@ == (DialogueBus {
                continuations: joined(
                    old(self)@.continuations,
                    everywhere(Component::Dialogue, MessageKind::ContinueSession),
                    handler,
                ),
                ..old(self)@
            }),
    {
        subscribe_everywhere(
            &mut self.continuations,
            Component::Dialogue,
            MessageKind::ContinueSession,
            handler,
        )
    }

    fn subscribe_end_session(
        &mut self,
        handler: Callback<EndSessionMessage>,
    ) -> (outcome: Result<(), Error>)
        ensures
            outcome is Ok,
            final(self)@ == (DialogueBus {
                ends: joined(
                    old(self)@.ends,
                    everywhere(Component::Dialogue, MessageKind::EndSession),
                    handler,
                ),
                ..old(self)@
            }),
    {
        subscribe_everywhere(&mut self.ends, Component::Dialogue, MessageKind::EndSession, handler)
    }
}

} // verus!
