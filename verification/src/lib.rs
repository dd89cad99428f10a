//! A typed publish/subscribe bus for the stages of a voice assistant, with the
//! dialogue manager's session state machine.

pub mod callback;
pub mod dialogue;
pub mod dispatch;
pub mod facade;
pub mod inprocess;
pub mod ontology;
pub mod serial;
pub mod session;
pub mod toggle;
pub mod topic;
pub mod wire;

pub use crate::callback::{Callback, Callback0};
pub use crate::dialogue::{DialogueEvent, DialogueRequest, SessionManager};
pub use crate::dispatch::{Dispatcher, SubscriptionHandle};
pub use crate::facade::{
    AsrBackendFacade, AsrFacade, AudioServerBackendFacade, AudioServerFacade,
    ComponentBackendFacade, ComponentFacade, DialogueBackendFacade, DialogueFacade, Error,
    HotwordBackendFacade, HotwordFacade, NluBackendFacade, NluFacade, SoundFeedbackBackendFacade,
    SoundFeedbackFacade, ToggleableBackendFacade, ToggleableFacade, TtsBackendFacade, TtsFacade,
};
pub use crate::inprocess::asr::InProcessAsr;
pub use crate::inprocess::audio_server::InProcessAudioServer;
pub use crate::inprocess::dialogue::InProcessDialogue;
pub use crate::inprocess::hotword::InProcessHotword;
pub use crate::inprocess::nlu::InProcessNlu;
pub use crate::inprocess::sound_feedback::InProcessSoundFeedback;
pub use crate::inprocess::tts::InProcessTts;
pub use crate::inprocess::InProcessHermesProtocolHandler;
pub use crate::ontology::{
    AudioFrameMessage, ContinueSessionMessage, EndSessionMessage, ErrorMessage, HermesMessage,
    IntentClassifierResult, IntentMessage, LoadMessage, NluIntentMessage,
    NluIntentNotRecognizedMessage, NluQueryMessage, NluSlotMessage, NluSlotQueryMessage,
    PlayBytesMessage, PlayFinishedMessage, SayFinishedMessage, SayMessage, SessionAction,
    SessionEndedMessage, SessionInit, SessionStartedMessage, SiteId, SiteLoadMessage,
    SiteMessage, Slot, SnipsComponent, StartSessionMessage, TextCapturedMessage,
    VersionMessage,
};
pub use crate::session::SessionStatus;
pub use crate::toggle::ToggleState;
pub use crate::topic::{address, intent_address, is_in_catalog, Component, MessageKind, RoutingKey};
