//! The topic addressing scheme: which stream a message belongs to, and which
//! subscriptions a published message reaches.
//!
//! A routing key names a component and a kind of message, and may narrow the
//! stream to one site, one session or one intent. A key that leaves a scope
//! out stands, in a subscription, for every value of that scope.

use vstd::prelude::*;
use crate::ontology::copy_optional_text;

verus! {

/// The components that messages are addressed to or come from.
#[derive(Debug, Clone, Copy, PartialEq, Eq, Hash, Structural)]
pub enum Component {
    Hotword,
    SoundFeedback,
    Asr,
    Tts,
    Nlu,
    AudioServer,
    Dialogue,
}

/// The kinds of message that the catalog knows.
#[derive(Debug, Clone, Copy, PartialEq, Eq, Hash, Structural)]
pub enum MessageKind {
    VersionRequest,
    Version,
    Error,
    ToggleOn,
    ToggleOff,
    Detected,
    TextCaptured,
    PartialTextCaptured,
    Say,
    SayFinished,
    Query,
    PartialQuery,
    SlotParsed,
    IntentParsed,
    IntentNotRecognized,
    PlayBytes,
    PlayFinished,
    AudioFrame,
    StartSession,
    ContinueSession,
    EndSession,
    SessionStarted,
    SessionEnded,
    Intent,
}

/// Whether a component can be switched on and off at a site.
pub open spec fn toggleable(component: Component) -> bool {
    component == Component::Hotword || component == Component::SoundFeedback || component
        == Component::Asr || component == Component::Dialogue
}

/// Whether a component reports its version and its errors. The sound
/// feedback can only be switched on and off.
pub open spec fn reports(component: Component) -> bool {
    component != Component::SoundFeedback
}

/// The message catalog: the kinds of message that each component exchanges.
pub open spec fn in_catalog(component: Component, kind: MessageKind) -> bool {
    match kind {
        MessageKind::VersionRequest | MessageKind::Version | MessageKind::Error => reports(
            component,
        ),
        MessageKind::ToggleOn | MessageKind::ToggleOff => toggleable(component),
        MessageKind::Detected => component == Component::Hotword,
        MessageKind::TextCaptured | MessageKind::PartialTextCaptured => component
            == Component::Asr,
        MessageKind::Say | MessageKind::SayFinished => component == Component::Tts,
        MessageKind::Query
        | MessageKind::PartialQuery
        | MessageKind::SlotParsed
        | MessageKind::IntentParsed
        | MessageKind::IntentNotRecognized => component == Component::Nlu,
        MessageKind::PlayBytes | MessageKind::PlayFinished | MessageKind::AudioFrame => component
            == Component::AudioServer,
        MessageKind::StartSession
        | MessageKind::ContinueSession
        | MessageKind::EndSession
        | MessageKind::SessionStarted
        | MessageKind::SessionEnded
        | MessageKind::Intent => component == Component::Dialogue,
    }
}

/// Tests whether the catalog holds a kind of message for a component.
pub fn is_in_catalog(component: Component, kind: MessageKind) -> (known: bool)
    ensures
        known == in_catalog(component, kind),
{
    match kind {
        MessageKind::VersionRequest | MessageKind::Version | MessageKind::Error => component
            != Component::SoundFeedback,
        MessageKind::ToggleOn | MessageKind::ToggleOff => component == Component::Hotword
            || component == Component::SoundFeedback || component == Component::Asr || component
            == Component::Dialogue,
        MessageKind::Detected => component == Component::Hotword,
        MessageKind::TextCaptured | MessageKind::PartialTextCaptured => component
            == Component::Asr,
        MessageKind::Say | MessageKind::SayFinished => component == Component::Tts,
        MessageKind::Query
        | MessageKind::PartialQuery
        | MessageKind::SlotParsed
        | MessageKind::IntentParsed
        | MessageKind::IntentNotRecognized => component == Component::Nlu,
        MessageKind::PlayBytes | MessageKind::PlayFinished | MessageKind::AudioFrame => component
            == Component::AudioServer,
        MessageKind::StartSession
        | MessageKind::ContinueSession
        | MessageKind::EndSession
        | MessageKind::SessionStarted
        | MessageKind::SessionEnded
        | MessageKind::Intent => component == Component::Dialogue,
    }
}

/// The address of a stream of messages.
#[derive(Debug, Clone, PartialEq, Eq, Hash)]
pub struct RoutingKey {
    component: Component,
    kind: MessageKind,
    site: Option<String>,
    session: Option<String>,
    intent: Option<String>,
}

/// What a [`RoutingKey`] says.
pub struct Route {
    pub component: Component,
    pub kind: MessageKind,
    pub site: Option<Seq<char>>,
    pub session: Option<Seq<char>>,
    pub intent: Option<Seq<char>>,
}

impl View for RoutingKey {
    type V = Route;

    closed spec fn view(&self) -> Route {
        Route {
            component: self.component,
            kind: self.kind,
            site: self.site.deep_view(),
            session: self.session.deep_view(),
            intent: self.intent.deep_view(),
        }
    }
}

/// Whether a subscription's scope lets a published scope through: a
/// subscription that names no value takes every message, one that names a
/// value takes the messages published with that very value.
pub open spec fn scope_admits(subscribed: Option<Seq<char>>, published: Option<Seq<char>>) -> bool {
    subscribed is None || subscribed == published
}

/// Whether a message published under `published` is delivered to a
/// subscription registered under `subscribed`.
pub open spec fn reaches(published: Route, subscribed: Route) -> bool {
    &&& published.component == subscribed.component
    &&& published.kind == subscribed.kind
    &&& scope_admits(subscribed.site, published.site)
    &&& scope_admits(subscribed.session, published.session)
    &&& scope_admits(subscribed.intent, published.intent)
}

/// Whether a key names a stream that the catalog knows. Intents are the
/// only messages that an intent's name can narrow.
pub open spec fn well_addressed(route: Route) -> bool {
    &&& in_catalog(route.component, route.kind)
    &&& route.intent is Some ==> route.kind == MessageKind::Intent
}

fn scope_lets_through(subscribed: &Option<String>, published: &Option<String>) -> (admits: bool)
    ensures
        admits == scope_admits(subscribed.deep_view(), published.deep_view()),
{
    match subscribed {
        None => true,
        Some(wanted) => match published {
            None => false,
            Some(given) => *wanted == *given,
        },
    }
}

/// The address of the stream of messages of one kind that a component
/// exchanges, narrowed to a site and a session where they are given.
pub open spec fn route_of(
    component: Component,
    kind: MessageKind,
    site: Option<Seq<char>>,
    session: Option<Seq<char>>,
) -> Route {
    Route { component, kind, site, session, intent: None }
}

/// The address of the intents that the dialogue manager publishes, narrowed
/// to one intent and one session where they are given.
pub open spec fn intent_route(intent: Option<Seq<char>>, session: Option<Seq<char>>) -> Route {
    Route {
        component: Component::Dialogue,
        kind: MessageKind::Intent,
        site: None,
        session,
        intent,
    }
}

/// The routing key of the stream of messages of one kind that a component
/// exchanges, narrowed to a site and a session where they are given.
///
/// The pair of component and kind has to be one of the catalog: to ask for
/// any other is a defect of the caller, which [`is_in_catalog`] lets it rule
/// out beforehand.
pub fn address(
    component: Component,
    kind: MessageKind,
    site: Option<String>,
    session: Option<String>,
) -> (key: RoutingKey)
    requires
        in_catalog(component, kind),
    ensures
        key@ == route_of(component, kind, site.deep_view(), session.deep_view()),
        well_addressed(key@),
{
    RoutingKey { component, kind, site, session, intent: None }
}

/// The routing key of the intents that the dialogue manager publishes,
/// narrowed to one intent and one session where they are given.
pub fn intent_address(intent: Option<String>, session: Option<String>) -> (key: RoutingKey)
    ensures
        key@ == intent_route(intent.deep_view(), session.deep_view()),
        well_addressed(key@),
{
    RoutingKey {
        component: Component::Dialogue,
        kind: MessageKind::Intent,
        site: None,
        session,
        intent,
    }
}

impl RoutingKey {
    /// The component of the stream.
    pub fn component(&self) -> (component: Component)
        ensures
            component == self@.component,
    {
        self.component
    }

    /// The kind of message of the stream.
    pub fn kind(&self) -> (kind: MessageKind)
        ensures
            kind == self@.kind,
    {
        self.kind
    }

    /// The site that the stream is narrowed to, if any.
    pub fn site(&self) -> (site: Option<String>)
        ensures
            site.deep_view() == self@.site,
    {
        copy_optional_text(&self.site)
    }

    /// The session that the stream is narrowed to, if any.
    pub fn session(&self) -> (session: Option<String>)
        ensures
            session.deep_view() == self@.session,
    {
        copy_optional_text(&self.session)
    }

    /// The intent that the stream is narrowed to, if any.
    pub fn intent(&self) -> (intent: Option<String>)
        ensures
            intent.deep_view() == self@.intent,
    {
        copy_optional_text(&self.intent)
    }

    /// A second copy of the key.
    pub fn duplicate(&self) -> (copy: RoutingKey)
        ensures
            copy@ == self@,
    {
        RoutingKey {
            component: self.component,
            kind: self.kind,
            site: copy_optional_text(&self.site),
            session: copy_optional_text(&self.session),
            intent: copy_optional_text(&self.intent),
        }
    }

    /// Whether two keys name the same stream.
    pub fn same_as(&self, other: &RoutingKey) -> (same: bool)
        ensures
            same == (self@ == other@),
    {
        self.component == other.component && self.kind == other.kind && same_scope(
            &self.site,
            &other.site,
        ) && same_scope(&self.session, &other.session) && same_scope(&self.intent, &other.intent)
    }

    /// Whether a message published under this key is delivered to a
    /// subscription registered under `subscribed`.
    pub fn delivers_to(&self, subscribed: &RoutingKey) -> (delivered: bool)
        ensures
            delivered == reaches(self@, subscribed@),
    {
        self.component == subscribed.component && self.kind == subscribed.kind
            && scope_lets_through(&subscribed.site, &self.site) && scope_lets_through(
            &subscribed.session,
            &self.session,
        ) && scope_lets_through(&subscribed.intent, &self.intent)
    }
}

fn same_scope(left: &Option<String>, right: &Option<String>) -> (same: bool)
    ensures
        same == (left.deep_view() == right.deep_view()),
{
    match left {
        None => right.is_none(),
        Some(a) => match right {
            None => false,
            Some(b) => *a == *b,
        },
    }
}

/// Two addresses are the same key only if they were made of the same
/// component, kind, site and session: distinct streams never collide.
pub proof fn lemma_address_injective(
    component: Component,
    kind: MessageKind,
    site: Option<Seq<char>>,
    session: Option<Seq<char>>,
    other_component: Component,
    other_kind: MessageKind,
    other_site: Option<Seq<char>>,
    other_session: Option<Seq<char>>,
)
    requires
        route_of(component, kind, site, session) == route_of(
            other_component,
            other_kind,
            other_site,
            other_session,
        ),
    ensures
        component == other_component,
        kind == other_kind,
        site == other_site,
        session == other_session,
{
}

/// A message published for one site never reaches a subscription that is
/// narrowed to another site.
pub proof fn lemma_no_cross_site_delivery(published: Route, subscribed: Route)
    requires
        subscribed.site is Some,
        published.site != subscribed.site,
    ensures
        !reaches(published, subscribed),
{
}

/// A message published for one session never reaches a subscription that is
/// narrowed to another session.
pub proof fn lemma_no_cross_session_delivery(published: Route, subscribed: Route)
    requires
        subscribed.session is Some,
        published.session != subscribed.session,
    ensures
        !reaches(published, subscribed),
{
}

/// A subscription that leaves out a scope takes the messages of every value
/// of that scope: it is reached whenever the fully narrowed subscription is.
pub proof fn lemma_wildcard_takes_all(published: Route, subscribed: Route)
    requires
        reaches(published, subscribed),
    ensures
        reaches(published, Route { site: None, ..subscribed }),
        reaches(published, Route { session: None, ..subscribed }),
        reaches(published, Route { intent: None, ..subscribed }),
{
}

/// Where the subscription names as many scopes as the published key, the
/// message is delivered exactly when the two keys are equal.
pub proof fn lemma_narrowed_delivery_is_equality(published: Route, subscribed: Route)
    requires
        subscribed.site is None ==> published.site is None,
        subscribed.session is None ==> published.session is None,
        subscribed.intent is None ==> published.intent is None,
    ensures
        reaches(published, subscribed) <==> published == subscribed,
{
}

} // verus!
