//! The natural language understanding.

use vstd::prelude::*;
use crate::callback::{Callback, Callback0};
use crate::dispatch::{joined, told, unused, Dispatcher, Registry};
use crate::facade::{
    ComponentBackendFacade, ComponentFacade, Error, NluBackendFacade, NluFacade,
};
use crate::inprocess::{everywhere, send, subscribe_everywhere, ComponentBus, ComponentStreams};
use crate::ontology::{
    ErrorMessage, NluIntentMessage, NluIntentNotRecognizedMessage, NluQueryMessage,
    NluSlotMessage, NluSlotQueryMessage, VersionMessage,
};
use crate::topic::{address, route_of, Component, MessageKind};

verus! {

/// The subscriptions of the natural language understanding.
pub struct NluBus {
    pub component: ComponentBus,
    pub queries: Registry<NluQueryMessage>,
    pub slot_queries: Registry<NluSlotQueryMessage>,
    pub slots: Registry<NluSlotMessage>,
    pub intents: Registry<NluIntentMessage>,
    pub failures: Registry<NluIntentNotRecognizedMessage>,
}

impl NluBus {
    /// Nobody has subscribed yet.
    pub open spec fn quiet(self) -> bool {
        &&& self.component.quiet()
        &&& unused(self.queries)
        &&& unused(self.slot_queries)
        &&& unused(self.slots)
        &&& unused(self.intents)
        &&& unused(self.failures)
    }
}

/// The natural language understanding, in process.
pub struct InProcessNlu {
    component: ComponentStreams,
    queries: Dispatcher<NluQueryMessage>,
    slot_queries: Dispatcher<NluSlotQueryMessage>,
    slots: Dispatcher<NluSlotMessage>,
    intents: Dispatcher<NluIntentMessage>,
    failures: Dispatcher<NluIntentNotRecognizedMessage>,
}

impl View for InProcessNlu {
    type V = NluBus;

    closed spec fn view(&self) -> NluBus {
        NluBus {
            component: self.component@,
            queries: self.queries@,
            slot_queries: self.slot_queries@,
            slots: self.slots@,
            intents: self.intents@,
            failures: self.failures@,
        }
    }
}

impl InProcessNlu {
    /// A stage to which nobody has subscribed yet.
    pub fn new() -> (stage: InProcessNlu)
        ensures
            stage@.quiet(),
    {
        InProcessNlu {
            component: ComponentStreams::new(),
            queries: Dispatcher::new(),
            slot_queries: Dispatcher::new(),
            slots: Dispatcher::new(),
            intents: Dispatcher::new(),
            failures: Dispatcher::new(),
        }
    }
}

impl ComponentFacade for InProcessNlu {
    fn publish_version_request(&self) -> (outcome: Result<(), Error>)
        ensures
            outcome is Ok,
            told(
                self@.component.version_requests,
                everywhere(Component::Nlu, MessageKind::VersionRequest),
                &(),
            ),
    {
        self.component.publish_version_request(Component::Nlu)
    }

    fn subscribe_version(
        &mut self,
        handler: Callback<VersionMessage>,
    ) -> (outcome: Result<(), Error>)
        ensures
            outcome is Ok,
            final(self)@ == (NluBus {
                component: ComponentBus {
                    versions: joined(
                        old(self)@.component.versions,
                        everywhere(Component::Nlu, MessageKind::Version),
                        handler,
                    ),
                    ..old(self)@.component
                },
                ..old(self)@
            }),
    {
        self.component.subscribe_version(Component::Nlu, handler)
    }

    fn subscribe_error(&mut self, handler: Callback<ErrorMessage>) -> (outcome: Result<(), Error>)
        ensures
            outcome is Ok,
            final(self)@ == (NluBus {
                component: ComponentBus {
                    errors: joined(
                        old(self)@.component.errors,
                        everywhere(Component::Nlu, MessageKind::Error),
                        handler,
                    ),
                    ..old(self)@.component
                },
                ..old(self)@
            }),
    {
        self.component.subscribe_error(Component::Nlu, handler)
    }
}

impl ComponentBackendFacade for InProcessNlu {
    fn subscribe_version_request(&mut self, handler: Callback0) -> (outcome: Result<(), Error>)
        ensures
            outcome is Ok,
            final(self)@ == (NluBus {
                component: ComponentBus {
                    version_requests: joined(
                        old(self)@.component.version_requests,
                        everywhere(Component::Nlu, MessageKind::VersionRequest),
                        handler.on_unit(),
                    ),
                    ..old(self)@.component
                },
                ..old(self)@
            }),
    {
        self.component.subscribe_version_request(Component::Nlu, handler)
    }

    fn publish_version(&self, version: VersionMessage) -> (outcome: Result<(), Error>)
        ensures
            outcome is Ok,
            told(
                self@.component.versions,
                everywhere(Component::Nlu, MessageKind::Version),
                &version,
            ),
    {
        self.component.publish_version(Component::Nlu, version)
    }

    fn publish_error(&self, error: ErrorMessage) -> (outcome: Result<(), Error>)
        ensures
            outcome is Ok,
            told(
                self@.component.errors,
                route_of(
                    Component::Nlu,
                    MessageKind::Error,
                    None,
                    error.session_id.deep_view(),
                ),
                &error,
            ),
    {
        self.component.publish_error(Component::Nlu, error)
    }
}

impl NluFacade for InProcessNlu {
    fn publish_query(&self, query: NluQueryMessage) -> (outcome: Result<(), Error>)
        ensures
            outcome is Ok,
            told(self@.queries, everywhere(Component::Nlu, MessageKind::Query), &query),
    {
        send(&self.queries, address(Component::Nlu, MessageKind::Query, None, None), &query)
    }

    fn publish_partial_query(&self, query: NluSlotQueryMessage) -> (outcome: Result<(), Error>)
        ensures
            outcome is Ok,
            told(self@.slot_queries, everywhere(Component::Nlu, MessageKind::PartialQuery), &query),
    {
        send(
            &self.slot_queries,
            address(Component::Nlu, MessageKind::PartialQuery, None, None),
            &query,
        )
    }

    fn subscribe_slot_parsed(
        &mut self,
        handler: Callback<NluSlotMessage>,
    ) -> (outcome: Result<(), Error>)
        ensures
            outcome is Ok,
            final(self)@ == (NluBus {
                slots: joined(
                    old(self)@.slots,
                    everywhere(Component::Nlu, MessageKind::SlotParsed),
                    handler,
                ),
                ..old(self)@
            }),
    {
        subscribe_everywhere(&mut self.slots, Component::Nlu, MessageKind::SlotParsed, handler)
    }

    fn subscribe_intent_parsed(
        &mut self,
        handler: Callback<NluIntentMessage>,
    ) -> (outcome: Result<(), Error>)
        ensures
            outcome is Ok,
            final(self)@ == (NluBus {
                intents: joined(
                    old(self)@.intents,
                    everywhere(Component::Nlu, MessageKind::IntentParsed),
                    handler,
                ),
                ..old(self)@
            }),
    {
        subscribe_everywhere(&mut self.intents, Component::Nlu, MessageKind::IntentParsed, handler)
    }

    fn subscribe_intent_not_recognized(
        &mut self,
        handler: Callback<NluIntentNotRecognizedMessage>,
    ) -> (outcome: Result<(), Error>)
        ensures
            outcome is Ok,
            final(self)@ == (NluBus {
                failures: joined(
                    old(self)@.failures,
                    everywhere(Component::Nlu, MessageKind::IntentNotRecognized),
                    handler,
                ),
                ..old(self)@
            }),
    {
        subscribe_everywhere(
            &mut self.failures,
            Component::Nlu,
            MessageKind::IntentNotRecognized,
            handler,
        )
    }
}

impl NluBackendFacade for InProcessNlu {
    fn subscribe_query(
        &mut self,
        handler: Callback<NluQueryMessage>,
    ) -> (outcome: Result<(), Error>)
        ensures
            outcome is Ok,
            final(self)@ == (NluBus {
                queries: joined(
                    old(self)@.queries,
                    everywhere(Component::Nlu, MessageKind::Query),
                    handler,
                ),
                ..old(self)@
            }),
    {
        subscribe_everywhere(&mut self.queries, Component::Nlu, MessageKind::Query, handler)
    }

    fn subscribe_partial_query(
        &mut self,
        handler: Callback<NluSlotQueryMessage>,
    ) -> (outcome: Result<(), Error>)
        ensures
            outcome is Ok,
            final(self)@ == (NluBus {
                slot_queries: joined(
                    old(self)@.slot_queries,
                    everywhere(Component::Nlu, MessageKind::PartialQuery),
                    handler,
                ),
                ..old(self)@
            }),
    {
        subscribe_everywhere(
            &mut self.slot_queries,
            Component::Nlu,
            MessageKind::PartialQuery,
            handler,
        )
    }

    fn publish_slot_parsed(&self, slot: NluSlotMessage) -> (outcome: Result<(), Error>)
        ensures
            outcome is Ok,
            told(self@.slots, everywhere(Component::Nlu, MessageKind::SlotParsed), &slot),
    {
        send(&self.slots, address(Component::Nlu, MessageKind::SlotParsed, None, None), &slot)
    }

    fn publish_intent_parsed(&self, intent: NluIntentMessage) -> (outcome: Result<(), Error>)
        ensures
            outcome is Ok,
            told(self@.intents, everywhere(Component::Nlu, MessageKind::IntentParsed), &intent),
    {
        send(&self.intents, address(Component::Nlu, MessageKind::IntentParsed, None, None), &intent)
    }

    fn publish_intent_not_recognized(
        &self,
        status: NluIntentNotRecognizedMessage,
    ) -> (outcome: Result<(), Error>)
        ensures
            outcome is Ok,
            told(
                self@.failures,
                everywhere(Component::Nlu, MessageKind::IntentNotRecognized),
                &status,
            ),
    {
        send(
            &self.failures,
            address(Component::Nlu, MessageKind::IntentNotRecognized, None, None),
            &status,
        )
    }
}

} // verus!
