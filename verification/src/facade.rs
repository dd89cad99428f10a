//! The facades: what each stage of the pipeline can publish and subscribe
//! to, in its own terms.
//!
//! Every stage has two facades: one for the components that talk to the
//! stage, and a "backend" one for the component that is the stage. Whoever
//! carries the messages implements them; [`crate::inprocess`] does so for
//! components that live in one process.

use vstd::prelude::*;
use crate::callback::{Callback, Callback0};
use crate::ontology::{
    AudioFrameMessage, ContinueSessionMessage, EndSessionMessage, ErrorMessage, IntentMessage,
    NluIntentMessage, NluIntentNotRecognizedMessage, NluQueryMessage, NluSlotMessage,
    NluSlotQueryMessage, PlayBytesMessage, PlayFinishedMessage, SayFinishedMessage, SayMessage,
    SessionEndedMessage, SessionStartedMessage, SiteId, SiteMessage, StartSessionMessage,
    TextCapturedMessage, VersionMessage,
};

verus! {

/// What went wrong beneath a facade.
#[derive(Debug, Clone, PartialEq, Eq)]
pub struct Error {
    /// What went wrong, in words.
    pub description: String,
}

/// A facade to interact with a component that can be toggled on an off at a specific site
pub trait ToggleableFacade: Send + Sync {
    fn publish_toggle_on(&self, site: SiteMessage) -> Result<(), Error>;

    fn publish_toggle_off(&self, site: SiteMessage) -> Result<(), Error>;
}

/// The facade a component that can be toggled on an off at a specific site must use to receive
/// its orders
pub trait ToggleableBackendFacade: Send + Sync {
    fn subscribe_toggle_on(&mut self, handler: Callback<SiteMessage>) -> Result<(), Error>;

    fn subscribe_toggle_off(&mut self, handler: Callback<SiteMessage>) -> Result<(), Error>;
}

/// The facade to interact with the hotword component
pub trait HotwordFacade: ComponentFacade + ToggleableFacade {
    fn subscribe_detected(&mut self, handler: Callback<SiteMessage>) -> Result<(), Error>;
}

/// The facade the hotword feature must use receive its orders and publish detected hotwords
pub trait HotwordBackendFacade: ComponentBackendFacade + ToggleableBackendFacade {
    fn publish_detected(&self, site: SiteMessage) -> Result<(), Error>;
}

/// The facade used to toggle on and of the sound feedback at a specific site
pub trait SoundFeedbackFacade: ToggleableFacade {

}

/// The facade a component that manages sound feedback must use to receive its orders
pub trait SoundFeedbackBackendFacade: ToggleableBackendFacade {

}

/// The facade to interact with the automatic speech recognition component
pub trait AsrFacade: ComponentFacade + ToggleableFacade {
    fn subscribe_text_captured(&mut self, handler: Callback<TextCapturedMessage>) -> Result<
        (),
        Error,
    >;

    fn subscribe_partial_text_captured(
        &mut self,
        handler: Callback<TextCapturedMessage>,
    ) -> Result<(), Error>;
}

/// The facade the automatic speech recognition must use to receive its orders and publish
/// recognized text
pub trait AsrBackendFacade: ComponentBackendFacade + ToggleableBackendFacade {
    fn publish_text_captured(&self, text_captured: TextCapturedMessage) -> Result<(), Error>;

    fn publish_partial_text_captured(&self, text_captured: TextCapturedMessage) -> Result<
        (),
        Error,
    >;
}

/// The facade to interact with the text to speech component
pub trait TtsFacade: ComponentFacade {
    fn publish_say(&self, to_say: SayMessage) -> Result<(), Error>;

    fn subscribe_say_finished(&mut self, handler: Callback<SayFinishedMessage>) -> Result<
        (),
        Error,
    >;
}

/// The facade the text to speech must use to receive its orders and advertise when it has finished
pub trait TtsBackendFacade: ComponentBackendFacade {
    fn publish_say_finished(&self, status: SayFinishedMessage) -> Result<(), Error>;

    fn subscribe_say(&mut self, handler: Callback<SayMessage>) -> Result<(), Error>;
}

/// The facade to interact with the natural language understanding component
pub trait NluFacade: ComponentFacade {
    fn publish_query(&self, query: NluQueryMessage) -> Result<(), Error>;

    fn publish_partial_query(&self, query: NluSlotQueryMessage) -> Result<(), Error>;

    fn subscribe_slot_parsed(&mut self, handler: Callback<NluSlotMessage>) -> Result<(), Error>;

    fn subscribe_intent_parsed(&mut self, handler: Callback<NluIntentMessage>) -> Result<
        (),
        Error,
    >;

    fn subscribe_intent_not_recognized(
        &mut self,
        handler: Callback<NluIntentNotRecognizedMessage>,
    ) -> Result<(), Error>;
}

/// The facade the natural language understanding must use to receive its orders and publish
/// its results
pub trait NluBackendFacade: ComponentBackendFacade {
    fn subscribe_query(&mut self, handler: Callback<NluQueryMessage>) -> Result<(), Error>;

    fn subscribe_partial_query(&mut self, handler: Callback<NluSlotQueryMessage>) -> Result<
        (),
        Error,
    >;

    fn publish_slot_parsed(&self, slot: NluSlotMessage) -> Result<(), Error>;

    fn publish_intent_parsed(&self, intent: NluIntentMessage) -> Result<(), Error>;

    fn publish_intent_not_recognized(&self, status: NluIntentNotRecognizedMessage) -> Result<
        (),
        Error,
    >;
}

/// The facade to interact with the audio server
pub trait AudioServerFacade: ComponentFacade {
    fn publish_play_bytes(&self, bytes: PlayBytesMessage) -> Result<(), Error>;

    fn subscribe_play_finished(&mut self, handler: Callback<PlayFinishedMessage>) -> Result<
        (),
        Error,
    >;

    fn subscribe_audio_frame(
        &mut self,
        site_id: SiteId,
        handler: Callback<AudioFrameMessage>,
    ) -> Result<(), Error>;
}

/// The facade the audio server must use to receive its orders and advertise when it has finished
pub trait AudioServerBackendFacade: ComponentBackendFacade {
    fn subscribe_play_bytes(
        &mut self,
        site_id: SiteId,
        handler: Callback<PlayBytesMessage>,
    ) -> Result<(), Error>;

    fn publish_play_finished(&self, status: PlayFinishedMessage) -> Result<(), Error>;

    fn publish_audio_frame(&self, frame: AudioFrameMessage) -> Result<(), Error>;
}

/// A generic facade used to interact with a component
pub trait ComponentFacade: Send + Sync {
    fn publish_version_request(&self) -> Result<(), Error>;

    fn subscribe_version(&mut self, handler: Callback<VersionMessage>) -> Result<(), Error>;

    fn subscribe_error(&mut self, handler: Callback<ErrorMessage>) -> Result<(), Error>;
}

/// A generic facade all components must use to publish their errors and versions (when requested)
pub trait ComponentBackendFacade: Send + Sync {
    fn subscribe_version_request(&mut self, handler: Callback0) -> Result<(), Error>;

    fn publish_version(&self, version: VersionMessage) -> Result<(), Error>;

    fn publish_error(&self, error: ErrorMessage) -> Result<(), Error>;
}

/// The facade to use to interact with the dialogue manager, this is the principal interface that a
/// lambda should use
pub trait DialogueFacade: ComponentFacade + ToggleableFacade {
    fn subscribe_session_started(&mut self, handler: Callback<SessionStartedMessage>) -> Result<
        (),
        Error,
    >;

    fn subscribe_intent(&mut self, intent_name: String, handler: Callback<IntentMessage>) -> Result<
        (),
        Error,
    >;

    fn subscribe_intents(&mut self, handler: Callback<IntentMessage>) -> Result<(), Error>;

    fn subscribe_session_ended(&mut self, handler: Callback<SessionEndedMessage>) -> Result<
        (),
        Error,
    >;

    fn publish_start_session(&self, start_session: StartSessionMessage) -> Result<(), Error>;

    fn publish_continue_session(&self, continue_session: ContinueSessionMessage) -> Result<
        (),
        Error,
    >;

    fn publish_end_session(&self, end_session: EndSessionMessage) -> Result<(), Error>;
}

/// The facade the dialogue manager must use to interact with the lambdas
pub trait DialogueBackendFacade: ComponentBackendFacade + ToggleableBackendFacade {
    fn publish_session_started(&self, status: SessionStartedMessage) -> Result<(), Error>;

    fn publish_intent(&self, intent: IntentMessage) -> Result<(), Error>;

    fn publish_session_ended(&self, status: SessionEndedMessage) -> Result<(), Error>;

    fn subscribe_start_session(&mut self, handler: Callback<StartSessionMessage>) -> Result<
        (),
        Error,
    >;

    fn subscribe_continue_session(
        &mut self,
        handler: Callback<ContinueSessionMessage>,
    ) -> Result<(), Error>;

    fn subscribe_end_session(&mut self, handler: Callback<EndSessionMessage>) -> Result<(), Error>;
}

} // verus!
