//! The sound feedback.

use vstd::prelude::*;
use crate::callback::Callback;
use crate::dispatch::{joined, told, unused, Dispatcher, Registry};
use crate::facade::{
    Error, SoundFeedbackBackendFacade, SoundFeedbackFacade, ToggleableBackendFacade,
    ToggleableFacade,
};
use crate::inprocess::{at_site, everywhere, publish_site, subscribe_everywhere};
use crate::ontology::SiteMessage;
use crate::topic::{Component, MessageKind};

verus! {

/// The subscriptions of the sound feedback.
pub struct SoundFeedbackBus {
    pub toggles: Registry<SiteMessage>,
}

impl SoundFeedbackBus {
    /// Nobody has subscribed yet.
    pub open spec fn quiet(self) -> bool {
        &&& unused(self.toggles)
    }
}

/// The sound feedback, in process.
pub struct InProcessSoundFeedback {
    toggles: Dispatcher<SiteMessage>,
}

impl View for InProcessSoundFeedback {
    type V = SoundFeedbackBus;

    closed spec fn view(&self) -> SoundFeedbackBus {
        SoundFeedbackBus {
            toggles: self.toggles@,
        }
    }
}

impl InProcessSoundFeedback {
    /// A stage to which nobody has subscribed yet.
    pub fn new() -> (stage: InProcessSoundFeedback)
        ensures
            stage@.quiet(),
    {
        InProcessSoundFeedback {
            toggles: Dispatcher::new(),
        }
    }
}

impl ToggleableFacade for InProcessSoundFeedback {
    fn publish_toggle_on(&self, site: SiteMessage) -> (outcome: Result<(), Error>)
        ensures
            outcome is Ok,
            told(
                self@.toggles,
                at_site(Component::SoundFeedback, MessageKind::ToggleOn, site),
                &site,
            ),
    {
        publish_site(&self.toggles, Component::SoundFeedback, MessageKind::ToggleOn, site)
    }

    fn publish_toggle_off(&self, site: SiteMessage) -> (outcome: Result<(), Error>)
        ensures
            outcome is Ok,
            told(
                self@.toggles,
                at_site(Component::SoundFeedback, MessageKind::ToggleOff, site),
                &site,
            ),
    {
        publish_site(&self.toggles, Component::SoundFeedback, MessageKind::ToggleOff, site)
    }
}

impl ToggleableBackendFacade for InProcessSoundFeedback {
    fn subscribe_toggle_on(
        &mut self,
        handler: Callback<SiteMessage>,
    ) -> (outcome: Result<(), Error>)
        ensures
            outcome is Ok,
            final(self)@ == (SoundFeedbackBus {
                toggles: joined(
                    old(self)@.toggles,
                    everywhere(Component::SoundFeedback, MessageKind::ToggleOn),
                    handler,
                ),
            }),
    {
        subscribe_everywhere(
            &mut self.toggles,
            Component::SoundFeedback,
            MessageKind::ToggleOn,
            handler,
        )
    }

    fn subscribe_toggle_off(
        &mut self,
        handler: Callback<SiteMessage>,
    ) -> (outcome: Result<(), Error>)
        ensures
            outcome is Ok,
            final(self)@ == (SoundFeedbackBus {
                toggles: joined(
                    old(self)@.toggles,
                    everywhere(Component::SoundFeedback, MessageKind::ToggleOff),
                    handler,
                ),
            }),
    {
        subscribe_everywhere(
            &mut self.toggles,
            Component::SoundFeedback,
            MessageKind::ToggleOff,
            handler,
        )
    }
}

impl SoundFeedbackFacade for InProcessSoundFeedback {

}

impl SoundFeedbackBackendFacade for InProcessSoundFeedback {

}

} // verus!
