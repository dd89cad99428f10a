//! The message catalog: the closed set of typed messages exchanged on the bus.
//!
//! Messages are plain values. Every response to a request that carries an
//! optional identifier is built by a `reply_to` constructor, which copies the
//! identifier over unchanged, so that a requester can match responses to its
//! requests however they are interleaved.

use vstd::prelude::*;

verus! {

/// An identifier of a physical location or device.
pub type SiteId = String;

/// Marks the types that travel on the bus.
pub trait HermesMessage: core::fmt::Debug {

}

/// The site that every message is scoped to when none is named.
pub open spec fn default_site() -> Seq<char> {
    "default"@
}

/// A fresh copy of a string.
pub fn copy_text(text: &String) -> (copy: String)
    ensures
        copy@ == text@,
{
    text.clone()
}

/// A fresh copy of an optional string.
pub fn copy_optional_text(text: &Option<String>) -> (copy: Option<String>)
    ensures
        copy.deep_view() == text.deep_view(),
{
    match text {
        Some(inner) => Some(inner.clone()),
        None => None,
    }
}

/// A fresh copy of a list of strings.
pub fn copy_texts(texts: &Vec<String>) -> (copy: Vec<String>)
    ensures
        copy.deep_view() == texts.deep_view(),
{
    let mut copy: Vec<String> = Vec::new();
    let mut i: usize = 0;
    while i < texts.len()
        invariant
            i <= texts.len(),
            copy@.len() == i,
            forall|j: int| 0 <= j < i ==> copy@[j]@ == texts@[j]@,
        decreases texts.len() - i,
    {
        copy.push(texts[i].clone());
        i += 1;
    }
    assert(copy.deep_view() =~= texts.deep_view());
    copy
}

/// A fresh copy of an optional list of strings.
pub fn copy_optional_texts(texts: &Option<Vec<String>>) -> (copy: Option<Vec<String>>)
    ensures
        copy.deep_view() == texts.deep_view(),
{
    match texts {
        Some(inner) => Some(copy_texts(inner)),
        None => None,
    }
}

/// The stages of the pipeline that can be loaded.
#[derive(Debug, Clone, Copy, PartialEq, Eq, PartialOrd, Structural)]
pub enum SnipsComponent {
    Asr,
    Nlu,
    Dialogue,
    Hotword,
    Injection,
    Tts,
    AudioServer,
}

#[derive(Debug, Clone, PartialEq, PartialOrd)]
pub struct SiteMessage {
    /// The site concerned
    pub site_id: SiteId,
    /// An optional session id if there is a related session
    pub session_id: Option<String>,
}

impl HermesMessage for SiteMessage {

}

impl Default for SiteMessage {
    fn default() -> (message: Self)
        ensures
            message.site_id@ == default_site(),
            message.session_id is None,
    {
        SiteMessage { site_id: "default".to_owned(), session_id: None }
    }
}

/// `semver::Version`: a semantic version, carried as it is. Nothing is
/// known of what it holds.
#[verifier::external_type_specification]
#[verifier::external_body]
pub struct ExVersion(semver::Version);

#[derive(Debug, PartialEq)]
pub struct VersionMessage {
    /// The version of the component
    pub version: semver::Version,
}

impl HermesMessage for VersionMessage {

}

#[derive(Debug, Clone, PartialEq)]
pub struct ErrorMessage {
    /// An optional session id if there is a related session
    pub session_id: Option<String>,
    /// The error that occurred
    pub error: String,
    /// Optional additional information on the context in which the error occurred
    pub context: Option<String>,
}

impl HermesMessage for ErrorMessage {

}

/// What an [`ErrorMessage`] says.
pub struct ErrorView {
    pub session_id: Option<Seq<char>>,
    pub error: Seq<char>,
    pub context: Option<Seq<char>>,
}

impl View for ErrorMessage {
    type V = ErrorView;

    open spec fn view(&self) -> ErrorView {
        ErrorView {
            session_id: self.session_id.deep_view(),
            error: self.error@,
            context: self.context.deep_view(),
        }
    }
}

#[derive(Debug, Clone, PartialEq, PartialOrd)]
pub struct LoadMessage {
    /// The component that was loaded
    pub component: SnipsComponent,
    /// Optional id associated to a reload operation of a component
    pub load_id: Option<String>,
}

impl HermesMessage for LoadMessage {

}

#[derive(Debug, Clone, PartialEq, PartialOrd)]
pub struct SiteLoadMessage {
    /// The component that was loaded
    pub component: SnipsComponent,
    /// Optional id associated to a reload operation of a component
    pub load_id: Option<String>,
    /// The site on which it was loaded
    pub site_id: String,
}

impl HermesMessage for SiteLoadMessage {

}

#[derive(Debug, Clone, PartialEq, PartialOrd)]
pub struct TextCapturedMessage {
    /// The text captured
    pub text: String,
    /// The likelihood of the capture, as the bits of a single-precision number
    pub likelihood_bits: u32,
    /// The duration it took to do the processing, in seconds, as the bits of
    /// a single-precision number
    pub seconds_bits: u32,
    /// The site where the text was captured
    pub site_id: SiteId,
}

impl HermesMessage for TextCapturedMessage {

}

#[derive(Debug, Clone, PartialEq, PartialOrd)]
pub struct NluQueryMessage {
    /// The text to run the NLU on
    pub text: String,
    /// An optional list of intents to restrict the NLU resolution on
    pub intent_filter: Option<Vec<String>>,
    /// An optional id for the request, if provided it will be passed back in the
    /// response `NluIntentMessage` or `NluIntentNotRecognizedMessage`
    pub id: Option<String>,
}

impl HermesMessage for NluQueryMessage {

}

/// What an [`NluQueryMessage`] says.
pub struct NluQueryView {
    pub text: Seq<char>,
    pub intent_filter: Option<Seq<Seq<char>>>,
    pub id: Option<Seq<char>>,
}

impl View for NluQueryMessage {
    type V = NluQueryView;

    open spec fn view(&self) -> NluQueryView {
        NluQueryView {
            text: self.text@,
            intent_filter: self.intent_filter.deep_view(),
            id: self.id.deep_view(),
        }
    }
}

#[derive(Debug, Clone, PartialEq, PartialOrd)]
pub struct NluSlotQueryMessage {
    /// The text to run the slot detection on
    pub text: String,
    /// The intent to use when doing the slot detection
    pub intent_name: String,
    /// The slot to search
    pub slot_name: String,
    /// An optional id for the request, if provided it will be passed back in the
    /// response `NluSlotMessage`
    pub id: Option<String>,
}

impl HermesMessage for NluSlotQueryMessage {

}

#[derive(Debug, Clone, PartialEq, PartialOrd)]
pub struct PlayBytesMessage {
    /// An id for the request, it will be passed back in the `PlayFinishedMessage`
    pub id: String,
    /// The bytes of the wav to play (should be a regular wav with header)
    pub wav_bytes: Vec<u8>,
    /// The site where the bytes should be played
    pub site_id: SiteId,
}

impl HermesMessage for PlayBytesMessage {

}

#[derive(Debug, Clone, PartialEq, PartialOrd)]
pub struct AudioFrameMessage {
    /// The bytes of the wav frame (should be a regular wav with header)
    pub wav_frame: Vec<u8>,
    /// The site this frame originates from
    pub site_id: SiteId,
}

impl HermesMessage for AudioFrameMessage {

}

#[derive(Debug, Clone, PartialEq, PartialOrd)]
pub struct PlayFinishedMessage {
    /// The id of the `PlayBytesMessage` which bytes finished playing
    pub id: String,
}

impl HermesMessage for PlayFinishedMessage {

}

impl PlayFinishedMessage {
    /// The answer to a request to play: it names the request it answers.
    pub fn reply_to(request: &PlayBytesMessage) -> (reply: PlayFinishedMessage)
        ensures
            reply.id@ == request.id@,
    {
        PlayFinishedMessage { id: request.id.clone() }
    }
}

#[derive(Debug, Clone, PartialEq, PartialOrd)]
pub struct SayMessage {
    /// The text to say
    pub text: String,
    /// The lang to use when saying the `text`, will use en_GB if not provided
    pub lang: Option<String>,
    /// An optional id for the request, it will be passed back in the `SayFinishedMessage`
    pub id: Option<String>,
    /// The site where the message should be said
    pub site_id: SiteId,
}

impl HermesMessage for SayMessage {

}

/// What a [`SayMessage`] says.
pub struct SayView {
    pub text: Seq<char>,
    pub lang: Option<Seq<char>>,
    pub id: Option<Seq<char>>,
    pub site_id: Seq<char>,
}

impl View for SayMessage {
    type V = SayView;

    open spec fn view(&self) -> SayView {
        SayView {
            text: self.text@,
            lang: self.lang.deep_view(),
            id: self.id.deep_view(),
            site_id: self.site_id@,
        }
    }
}

#[derive(Debug, Clone, PartialEq, PartialOrd)]
pub struct SayFinishedMessage {
    /// The id of the `SayMessage` which was has been said
    pub id: Option<String>,
}

impl HermesMessage for SayFinishedMessage {

}

impl SayFinishedMessage {
    /// The answer to a request to speak: it carries the request's identifier,
    /// or none where the request had none.
    pub fn reply_to(request: &SayMessage) -> (reply: SayFinishedMessage)
        ensures
            reply.id.deep_view() == request.id.deep_view(),
    {
        SayFinishedMessage { id: copy_optional_text(&request.id) }
    }
}

/// The outcome of classifying a text: the intent found and how sure the
/// classifier is of it.
#[derive(Debug, Clone, PartialEq)]
pub struct IntentClassifierResult {
    /// The name of the intent
    pub intent_name: String,
    /// The probability of the classification, as the bits of a
    /// single-precision number
    pub probability_bits: u32,
}

/// What an [`IntentClassifierResult`] says.
pub struct IntentClassifierView {
    pub intent_name: Seq<char>,
    pub probability_bits: u32,
}

impl View for IntentClassifierResult {
    type V = IntentClassifierView;

    open spec fn view(&self) -> IntentClassifierView {
        IntentClassifierView {
            intent_name: self.intent_name@,
            probability_bits: self.probability_bits,
        }
    }
}

/// One piece of information found in a text.
#[derive(Debug, Clone, PartialEq)]
pub struct Slot {
    /// The part of the text that was matched
    pub raw_value: String,
    /// The resolved value, as the structured record it is exchanged in
    pub value: String,
    /// Where the matched part starts and ends in the text, if known
    pub range: Option<(usize, usize)>,
    /// The entity of the slot
    pub entity: String,
    /// The name of the slot
    pub slot_name: String,
}

/// What a [`Slot`] says.
pub struct SlotView {
    pub raw_value: Seq<char>,
    pub value: Seq<char>,
    pub range: Option<(usize, usize)>,
    pub entity: Seq<char>,
    pub slot_name: Seq<char>,
}

impl View for Slot {
    type V = SlotView;

    open spec fn view(&self) -> SlotView {
        SlotView {
            raw_value: self.raw_value@,
            value: self.value@,
            range: self.range,
            entity: self.entity@,
            slot_name: self.slot_name@,
        }
    }
}

impl DeepView for Slot {
    type V = SlotView;

    open spec fn deep_view(&self) -> SlotView {
        self@
    }
}

#[derive(Debug, Clone, PartialEq)]
pub struct NluSlotMessage {
    /// The id of the `NluSlotQueryMessage` that was processed
    pub id: Option<String>,
    /// The input that was processed
    pub input: String,
    /// The intent used to find the slot
    pub intent: String,
    /// The resulting slot, if found
    pub slot: Option<Slot>,
}

impl HermesMessage for NluSlotMessage {

}

impl NluSlotMessage {
    /// The answer to a slot query: it carries the query's identifier, or
    /// none where the query had none, with the text and intent it was asked
    /// about and the slot that was found.
    pub fn reply_to(request: &NluSlotQueryMessage, slot: Option<Slot>) -> (reply: NluSlotMessage)
        ensures
            reply.id.deep_view() == request.id.deep_view(),
            reply.input@ == request.text@,
            reply.intent@ == request.intent_name@,
            reply.slot == slot,
    {
        NluSlotMessage {
            id: copy_optional_text(&request.id),
            input: request.text.clone(),
            intent: request.intent_name.clone(),
            slot,
        }
    }
}

#[derive(Debug, Clone, PartialEq, PartialOrd)]
pub struct NluIntentNotRecognizedMessage {
    /// The id of the `NluQueryMessage` that was processed
    pub id: Option<String>,
    /// The text that didn't match any intent
    pub input: String,
}

impl HermesMessage for NluIntentNotRecognizedMessage {

}

impl NluIntentNotRecognizedMessage {
    /// The answer to a query in which no intent was found: it carries the
    /// query's identifier, or none where the query had none.
    pub fn reply_to(request: &NluQueryMessage) -> (reply: NluIntentNotRecognizedMessage)
        ensures
            reply.id.deep_view() == request.id.deep_view(),
            reply.input@ == request.text@,
    {
        NluIntentNotRecognizedMessage {
            id: copy_optional_text(&request.id),
            input: request.text.clone(),
        }
    }
}

#[derive(Debug, Clone, PartialEq)]
pub struct NluIntentMessage {
    /// The id of the `NluQueryMessage` that was processed
    pub id: Option<String>,
    /// The input that was processed
    pub input: String,
    /// The result of the intent classification
    pub intent: IntentClassifierResult,
    /// The detected slots, if any
    pub slots: Option<Vec<Slot>>,
}

impl HermesMessage for NluIntentMessage {

}

/// What an [`NluIntentMessage`] says.
pub struct NluIntentView {
    pub id: Option<Seq<char>>,
    pub input: Seq<char>,
    pub intent: IntentClassifierView,
    pub slots: Option<Seq<SlotView>>,
}

impl View for NluIntentMessage {
    type V = NluIntentView;

    open spec fn view(&self) -> NluIntentView {
        NluIntentView {
            id: self.id.deep_view(),
            input: self.input@,
            intent: self.intent@,
            slots: self.slots.deep_view(),
        }
    }
}

impl NluIntentMessage {
    /// The answer to a query in which an intent was found: it carries the
    /// query's identifier, or none where the query had none.
    pub fn reply_to(
        request: &NluQueryMessage,
        intent: IntentClassifierResult,
        slots: Option<Vec<Slot>>,
    ) -> (reply: NluIntentMessage)
        ensures
            reply.id.deep_view() == request.id.deep_view(),
            reply.input@ == request.text@,
            reply.intent == intent,
            reply.slots == slots,
    {
        NluIntentMessage {
            id: copy_optional_text(&request.id),
            input: request.text.clone(),
            intent,
            slots,
        }
    }
}

#[derive(Debug, Clone, PartialEq)]
pub struct IntentMessage {
    /// The session in with this intent was detected
    pub session_id: String,
    /// The custom data that was given at the session creation
    pub custom_data: Option<String>,
    /// The input that generated this intent
    pub input: String,
    /// The result of the intent classification
    pub intent: IntentClassifierResult,
    /// The detected slots, if any
    pub slots: Option<Vec<Slot>>,
}

impl HermesMessage for IntentMessage {

}

/// What an [`IntentMessage`] says.
pub struct IntentView {
    pub session_id: Seq<char>,
    pub custom_data: Option<Seq<char>>,
    pub input: Seq<char>,
    pub intent: IntentClassifierView,
    pub slots: Option<Seq<SlotView>>,
}

impl View for IntentMessage {
    type V = IntentView;

    open spec fn view(&self) -> IntentView {
        IntentView {
            session_id: self.session_id@,
            custom_data: self.custom_data.deep_view(),
            input: self.input@,
            intent: self.intent@,
            slots: self.slots.deep_view(),
        }
    }
}

/// What the system does next in a session.
#[derive(Debug, Clone, PartialEq)]
pub struct SessionAction {
    /// The text to say to the user
    pub text: String,
    /// Whether of not the lambda expects the user to respond
    pub expect_response: bool,
    /// An optional list of intent name to restrict the parsing of the user response to. This will
    /// be ignored if `expect_response` is set to `false`
    pub intent_filter: Option<Vec<String>>,
}

/// What a [`SessionAction`] says.
pub struct SessionActionView {
    pub text: Seq<char>,
    pub expect_response: bool,
    pub intent_filter: Option<Seq<Seq<char>>>,
}

impl View for SessionAction {
    type V = SessionActionView;

    open spec fn view(&self) -> SessionActionView {
        SessionActionView {
            text: self.text@,
            expect_response: self.expect_response,
            intent_filter: self.intent_filter.deep_view(),
        }
    }
}

#[derive(Debug, Clone, PartialEq)]
pub enum SessionInit {
    /// Interaction was initiated by the user
    User,
    /// Interaction was initiated by a lambda
    Lambda { action: SessionAction },
}

/// What a [`SessionInit`] says.
pub enum SessionInitView {
    User,
    Lambda { action: SessionActionView },
}

impl View for SessionInit {
    type V = SessionInitView;

    open spec fn view(&self) -> SessionInitView {
        match self {
            SessionInit::User => SessionInitView::User,
            SessionInit::Lambda { action } => SessionInitView::Lambda { action: action@ },
        }
    }
}

#[derive(Debug, Clone, PartialEq)]
pub struct StartSessionMessage {
    /// The way this session was created
    pub init: SessionInit,
    /// The custom data that was given at the session creation
    pub custom_data: Option<String>,
    /// The site where the session should be started, a value of `None` will be interpreted as the
    /// default one
    pub site_id: Option<SiteId>,
}

impl HermesMessage for StartSessionMessage {

}

/// What a [`StartSessionMessage`] says.
pub struct StartSessionView {
    pub init: SessionInitView,
    pub custom_data: Option<Seq<char>>,
    pub site_id: Option<Seq<char>>,
}

impl View for StartSessionMessage {
    type V = StartSessionView;

    open spec fn view(&self) -> StartSessionView {
        StartSessionView {
            init: self.init@,
            custom_data: self.custom_data.deep_view(),
            site_id: self.site_id.deep_view(),
        }
    }
}

#[derive(Debug, Clone, PartialEq)]
pub struct SessionStartedMessage {
    /// The id of the session that was started
    pub session_id: String,
    /// An optional piece of data that will be given back in `IntentMessage` and
    /// `SessionEndedMessage` that are related to this session
    pub custom_data: Option<String>,
    /// The site on which this session was started
    pub site_id: SiteId,
}

impl HermesMessage for SessionStartedMessage {

}

/// What a [`SessionStartedMessage`] says.
pub struct SessionStartedView {
    pub session_id: Seq<char>,
    pub custom_data: Option<Seq<char>>,
    pub site_id: Seq<char>,
}

impl View for SessionStartedMessage {
    type V = SessionStartedView;

    open spec fn view(&self) -> SessionStartedView {
        SessionStartedView {
            session_id: self.session_id@,
            custom_data: self.custom_data.deep_view(),
            site_id: self.site_id@,
        }
    }
}

#[derive(Debug, Clone, PartialEq)]
pub struct ContinueSessionMessage {
    /// The id of the session this action applies to
    pub session_id: String,
    /// The action to perform
    pub action: SessionAction,
}

impl HermesMessage for ContinueSessionMessage {

}

/// What a [`ContinueSessionMessage`] says.
pub struct ContinueSessionView {
    pub session_id: Seq<char>,
    pub action: SessionActionView,
}

impl View for ContinueSessionMessage {
    type V = ContinueSessionView;

    open spec fn view(&self) -> ContinueSessionView {
        ContinueSessionView { session_id: self.session_id@, action: self.action@ }
    }
}

#[derive(Debug, Clone, PartialEq)]
pub struct EndSessionMessage {
    /// The id of the session to end
    pub session_id: String,
}

impl HermesMessage for EndSessionMessage {

}

#[derive(Debug, Clone, PartialEq)]
pub struct SessionEndedMessage {
    /// The id of the session that was terminated
    pub session_id: String,
    /// The custom data that was given at the session creation
    pub custom_data: Option<String>,
    /// Set to true if the session was aborted by the used
    pub aborted: Option<bool>,
}

impl HermesMessage for SessionEndedMessage {

}

/// What a [`SessionEndedMessage`] says.
pub struct SessionEndedView {
    pub session_id: Seq<char>,
    pub custom_data: Option<Seq<char>>,
    pub aborted: Option<bool>,
}

impl View for SessionEndedMessage {
    type V = SessionEndedView;

    open spec fn view(&self) -> SessionEndedView {
        SessionEndedView {
            session_id: self.session_id@,
            custom_data: self.custom_data.deep_view(),
            aborted: self.aborted,
        }
    }
}

} // verus!
