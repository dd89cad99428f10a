//! The dialogue manager's table of sessions: the executable form of the
//! state machine that [`crate::session`] defines.

use vstd::prelude::*;
use crate::ontology::{
    copy_optional_text, ContinueSessionMessage, EndSessionMessage, ErrorMessage, ErrorView,
    IntentMessage, IntentView, NluIntentMessage, SayMessage, SayView, SessionAction,
    SessionEndedMessage, SessionEndedView, SessionInit, SessionStartedMessage,
    StartSessionMessage,
};
use crate::serial::{lemma_decimal_text_injective, Serial};
use crate::session::{
    after_continue, after_end, after_intent, after_start, consistent, continue_outcome,
    empty_table, end_outcome, intent_accepted, intent_outcome, lemma_fresh_identifier,
    lemma_step_keeps, opening_state, session_id_text, start_announced, start_said, step,
    unknown_session, was_issued, EventView, RequestView, SessionState, SessionStatus,
    SessionTable,
};

verus! {

/// A request to the dialogue manager, as it arrives.
#[derive(Debug, Clone, PartialEq)]
pub enum DialogueRequest {
    /// Start a session.
    Start(StartSessionMessage),
    /// Continue a session.
    Continue(ContinueSessionMessage),
    /// End a session.
    End(EndSessionMessage),
    /// The user left the session that is named.
    Abort(String),
    /// An intent was found in what the user said.
    IntentParsed(NluIntentMessage),
}

impl View for DialogueRequest {
    type V = RequestView;

    open spec fn view(&self) -> RequestView {
        match self {
            DialogueRequest::Start(request) => RequestView::Start(request@),
            DialogueRequest::Continue(request) => RequestView::Continue(request@),
            DialogueRequest::End(request) => RequestView::End { session_id: request.session_id@ },
            DialogueRequest::Abort(session_id) => RequestView::Abort { session_id: session_id@ },
            DialogueRequest::IntentParsed(parsed) => RequestView::IntentParsed(parsed@),
        }
    }
}

/// An event for the dialogue manager to publish.
#[derive(Debug, Clone, PartialEq)]
pub enum DialogueEvent {
    /// A session has started.
    SessionStarted(SessionStartedMessage),
    /// A text is to be spoken.
    Say(SayMessage),
    /// An intent was recognized in a session.
    Intent(IntentMessage),
    /// A session has ended.
    SessionEnded(SessionEndedMessage),
    /// A request could not be followed.
    Error(ErrorMessage),
}

impl View for DialogueEvent {
    type V = EventView;

    open spec fn view(&self) -> EventView {
        match self {
            DialogueEvent::SessionStarted(started) => EventView::SessionStarted(started@),
            DialogueEvent::Say(say) => EventView::Say(say@),
            DialogueEvent::Intent(intent) => EventView::Intent(intent@),
            DialogueEvent::SessionEnded(ended) => EventView::SessionEnded(ended@),
            DialogueEvent::Error(error) => EventView::Error(error@),
        }
    }
}

/// What an optional order to speak says.
pub open spec fn said_view(said: Option<SayMessage>) -> Option<SayView> {
    match said {
        Some(say) => Some(say@),
        None => None,
    }
}

/// What an order to speak, or the error in its place, says.
pub open spec fn say_outcome_view(outcome: Result<SayMessage, ErrorMessage>) -> Result<
    SayView,
    ErrorView,
> {
    match outcome {
        Ok(say) => Ok(say@),
        Err(error) => Err(error@),
    }
}

/// What the announcement of an end, or the error in its place, says.
pub open spec fn end_outcome_view(outcome: Result<SessionEndedMessage, ErrorMessage>) -> Result<
    SessionEndedView,
    ErrorView,
> {
    match outcome {
        Ok(ended) => Ok(ended@),
        Err(error) => Err(error@),
    }
}

/// What an intent, or the error in its place, says.
pub open spec fn intent_outcome_view(outcome: Result<IntentMessage, ErrorMessage>) -> Result<
    IntentView,
    ErrorView,
> {
    match outcome {
        Ok(intent) => Ok(intent@),
        Err(error) => Err(error@),
    }
}

/// What a list of events says.
pub open spec fn events_view(events: Seq<DialogueEvent>) -> Seq<EventView> {
    Seq::new(events.len(), |i: int| events[i]@)
}

struct Session {
    number: Serial,
    id: String,
    site_id: String,
    custom_data: Option<String>,
    intent_filter: Option<Vec<String>>,
    status: SessionStatus,
}

impl Session {
    spec fn state(self) -> SessionState {
        SessionState {
            site_id: self.site_id@,
            custom_data: self.custom_data.deep_view(),
            intent_filter: self.intent_filter.deep_view(),
            status: self.status,
        }
    }
}

/// The sessions of a list, by their identifier.
spec fn table_of(sessions: Seq<Session>) -> Map<Seq<char>, SessionState>
    decreases sessions.len(),
{
    if sessions.len() == 0 {
        Map::empty()
    } else {
        table_of(sessions.drop_last()).insert(sessions.last().id@, sessions.last().state())
    }
}

spec fn distinct_ids(sessions: Seq<Session>) -> bool {
    forall|i: int, j: int|
        0 <= i < j < sessions.len() ==> (#[trigger] sessions[i]).id@ != (#[trigger] sessions[j]).id@
}

proof fn lemma_table_domain(sessions: Seq<Session>, session_id: Seq<char>)
    ensures
        table_of(sessions).dom().contains(session_id) <==> exists|i: int|
            0 <= i < sessions.len() && (#[trigger] sessions[i]).id@ == session_id,
    decreases sessions.len(),
{
    if sessions.len() > 0 {
        let earlier = sessions.drop_last();
        lemma_table_domain(earlier, session_id);
        if table_of(sessions).dom().contains(session_id) {
            if sessions.last().id@ == session_id {
                assert(sessions[sessions.len() - 1].id@ == session_id);
            } else {
                let i = choose|i: int| 0 <= i < earlier.len() && (#[trigger] earlier[i]).id@
                    == session_id;
                assert(sessions[i].id@ == session_id);
            }
        }
        if exists|i: int| 0 <= i < sessions.len() && (#[trigger] sessions[i]).id@ == session_id {
            let i = choose|i: int| 0 <= i < sessions.len() && (#[trigger] sessions[i]).id@
                == session_id;
            if i < earlier.len() {
                assert(earlier[i].id@ == session_id);
            }
        }
    }
}

proof fn lemma_table_lookup(sessions: Seq<Session>, i: int)
    requires
        distinct_ids(sessions),
        0 <= i < sessions.len(),
    ensures
        table_of(sessions).dom().contains(sessions[i].id@),
        table_of(sessions)[sessions[i].id@] == sessions[i].state(),
    decreases sessions.len(),
{
    let earlier = sessions.drop_last();
    if i < sessions.len() - 1 {
        assert(earlier[i] == sessions[i]);
        assert(sessions[i].id@ != sessions[sessions.len() - 1].id@);
        assert forall|a: int, b: int| 0 <= a < b < earlier.len() implies (#[trigger] earlier[a]).id@
            != (#[trigger] earlier[b]).id@ by {
            assert(sessions[a].id@ != sessions[b].id@);
        }
        lemma_table_lookup(earlier, i);
    }
}

proof fn lemma_table_push(sessions: Seq<Session>, session: Session)
    ensures
        table_of(sessions.push(session)) == table_of(sessions).insert(
            session.id@,
            session.state(),
        ),
{
    assert(sessions.push(session).drop_last() =~= sessions);
}

proof fn lemma_table_remove(sessions: Seq<Session>, i: int)
    requires
        distinct_ids(sessions),
        0 <= i < sessions.len(),
    ensures
        table_of(sessions.remove(i)) == table_of(sessions).remove(sessions[i].id@),
    decreases sessions.len(),
{
    let earlier = sessions.drop_last();
    let last = sessions.last();
    if i == sessions.len() - 1 {
        assert(sessions.remove(i) =~= earlier);
        lemma_table_domain(earlier, last.id@);
        if table_of(earlier).dom().contains(last.id@) {
            let a = choose|a: int| 0 <= a < earlier.len() && (#[trigger] earlier[a]).id@
                == last.id@;
            assert(sessions[a].id@ != sessions[i].id@);
        }
        assert(table_of(earlier) =~= table_of(sessions).remove(last.id@));
    } else {
        assert(earlier[i] == sessions[i]);
        assert(sessions[i].id@ != sessions[sessions.len() - 1].id@);
        assert forall|a: int, b: int| 0 <= a < b < earlier.len() implies (#[trigger] earlier[a]).id@
            != (#[trigger] earlier[b]).id@ by {
            assert(sessions[a].id@ != sessions[b].id@);
        }
        lemma_table_remove(earlier, i);
        assert(sessions.remove(i) =~= earlier.remove(i).push(last));
        lemma_table_push(earlier.remove(i), last);
        assert(table_of(sessions.remove(i)) =~= table_of(sessions).remove(sessions[i].id@));
    }
}

proof fn lemma_table_update(sessions: Seq<Session>, i: int, session: Session)
    requires
        distinct_ids(sessions),
        0 <= i < sessions.len(),
        session.id@ == sessions[i].id@,
    ensures
        table_of(sessions.update(i, session)) == table_of(sessions).insert(
            session.id@,
            session.state(),
        ),
    decreases sessions.len(),
{
    let earlier = sessions.drop_last();
    let last = sessions.last();
    if i == sessions.len() - 1 {
        assert(sessions.update(i, session) =~= earlier.push(session));
        lemma_table_push(earlier, session);
        assert(table_of(sessions.update(i, session)) =~= table_of(sessions).insert(
            session.id@,
            session.state(),
        ));
    } else {
        assert(earlier[i] == sessions[i]);
        assert(sessions[i].id@ != sessions[sessions.len() - 1].id@);
        assert forall|a: int, b: int| 0 <= a < b < earlier.len() implies (#[trigger] earlier[a]).id@
            != (#[trigger] earlier[b]).id@ by {
            assert(sessions[a].id@ != sessions[b].id@);
        }
        lemma_table_update(earlier, i, session);
        assert(sessions.update(i, session) =~= earlier.update(i, session).push(last));
        lemma_table_push(earlier.update(i, session), last);
        assert(table_of(sessions.update(i, session)) =~= table_of(sessions).insert(
            session.id@,
            session.state(),
        ));
    }
}

/// Whether a list of intent names holds a name.
fn names_hold(names: &Vec<String>, name: &String) -> (held: bool)
    ensures
        held == names.deep_view().contains(name@),
{
    let mut i: usize = 0;
    while i < names.len()
        invariant
            i <= names.len(),
            forall|j: int| 0 <= j < i ==> names@[j]@ != name@,
        decreases names.len() - i,
    {
        if names[i] == *name {
            assert(names.deep_view()[i as int] == name@);
            return true;
        }
        i += 1;
    }
    assert forall|j: int| 0 <= j < names.deep_view().len() implies names.deep_view()[j]
        != name@ by {
        assert(names.deep_view()[j] == names@[j]@);
    }
    false
}

fn unknown_session_error(session_id: String) -> (error: ErrorMessage)
    ensures
        error@ == unknown_session(session_id@),
{
    ErrorMessage {
        session_id: Some(session_id),
        error: "unknown or terminated session".to_owned(),
        context: None,
    }
}

/// The dialogue manager's table of sessions.
pub struct SessionManager {
    sessions: Vec<Session>,
    issued: Serial,
}

impl View for SessionManager {
    type V = SessionTable;

    closed spec fn view(&self) -> SessionTable {
        SessionTable { active: table_of(self.sessions@), issued: self.issued@ }
    }
}

impl SessionManager {
    #[verifier::type_invariant]
    spec fn well_formed(self) -> bool {
        &&& forall|i: int|
            0 <= i < self.sessions@.len() ==> (#[trigger] self.sessions@[i]).number@
                < self.issued@
        &&& forall|i: int|
            0 <= i < self.sessions@.len() ==> (#[trigger] self.sessions@[i]).id@
                == session_id_text(self.sessions@[i].number@)
        &&& forall|i: int, j: int|
            0 <= i < j < self.sessions@.len() ==> (#[trigger] self.sessions@[i]).number@ < (
            #[trigger] self.sessions@[j]).number@
    }

    proof fn lemma_shape(self)
        requires
            self.well_formed(),
        ensures
            distinct_ids(self.sessions@),
            consistent(self@),
    {
        assert forall|i: int, j: int| 0 <= i < j < self.sessions@.len() implies (
        #[trigger] self.sessions@[i]).id@ != (#[trigger] self.sessions@[j]).id@ by {
            if self.sessions@[i].id@ == self.sessions@[j].id@ {
                lemma_decimal_text_injective(
                    self.sessions@[i].number@,
                    self.sessions@[j].number@,
                );
            }
        }
        assert forall|session_id: Seq<char>| #[trigger]
            self@.active.dom().contains(session_id) implies was_issued(self@, session_id) by {
            lemma_table_domain(self.sessions@, session_id);
            let i = choose|i: int| 0 <= i < self.sessions@.len() && (
            #[trigger] self.sessions@[i]).id@ == session_id;
            let k = self.sessions@[i].number@;
            assert(k < self@.issued && session_id == session_id_text(k));
        }
    }

    /// A table in which no session has started yet.
    pub fn new() -> (manager: SessionManager)
        ensures
            manager@ == empty_table(),
            consistent(manager@),
    {
        let manager = SessionManager { sessions: Vec::new(), issued: Serial::zero() };
        assert(manager@.active =~= Map::empty());
        manager
    }

    fn position(&self, session_id: &String) -> (found: Option<usize>)
        ensures
            match found {
                Some(i) => i < self.sessions@.len() && self.sessions@[i as int].id@
                    == session_id@,
                None => !self@.active.dom().contains(session_id@),
            },
            found is Some <==> self@.active.dom().contains(session_id@),
    {
        proof {
            lemma_table_domain(self.sessions@, session_id@);
        }
        let mut i: usize = 0;
        while i < self.sessions.len()
            invariant
                i <= self.sessions@.len(),
                forall|j: int| 0 <= j < i ==> (#[trigger] self.sessions@[j]).id@ != session_id@,
                self@.active.dom().contains(session_id@) <==> exists|k: int|
                    0 <= k < self.sessions@.len() && (#[trigger] self.sessions@[k]).id@
                        == session_id@,
            decreases self.sessions@.len() - i,
        {
            if self.sessions[i].id == *session_id {
                return Some(i);
            }
            i += 1;
        }
        None
    }

    /// Whether a session is active: started and not ended.
    pub fn is_active(&self, session_id: &String) -> (active: bool)
        ensures
            active == self@.active.dom().contains(session_id@),
    {
        self.position(session_id).is_some()
    }

    /// The number of active sessions.
    pub fn active_count(&self) -> (count: usize)
        ensures
            count == self@.active.dom().len(),
            self@.active.dom().finite(),
    {
        proof {
            use_type_invariant(self);
            self.lemma_shape();
            lemma_table_size(self.sessions@);
        }
        self.sessions.len()
    }

    /// Where an active session stands; nothing for any other session.
    pub fn status_of(&self, session_id: &String) -> (status: Option<SessionStatus>)
        ensures
            status == if self@.active.dom().contains(session_id@) {
                Some(self@.active[session_id@].status)
            } else {
                None
            },
    {
        proof {
            use_type_invariant(self);
            self.lemma_shape();
        }
        match self.position(session_id) {
            Some(i) => {
                proof {
                    lemma_table_lookup(self.sessions@, i as int);
                }
                Some(self.sessions[i].status)
            },
            None => None,
        }
    }

    /// The site of an active session; nothing for any other session.
    pub fn site_of(&self, session_id: &String) -> (site: Option<String>)
        ensures
            site.deep_view() == if self@.active.dom().contains(session_id@) {
                Some(self@.active[session_id@].site_id)
            } else {
                None
            },
    {
        proof {
            use_type_invariant(self);
            self.lemma_shape();
        }
        match self.position(session_id) {
            Some(i) => {
                proof {
                    lemma_table_lookup(self.sessions@, i as int);
                }
                Some(self.sessions[i].site_id.clone())
            },
            None => None,
        }
    }

    /// The custom data of an active session; nothing for any other session.
    pub fn custom_data_of(&self, session_id: &String) -> (data: Option<Option<String>>)
        ensures
            data.deep_view() == if self@.active.dom().contains(session_id@) {
                Some(self@.active[session_id@].custom_data)
            } else {
                None
            },
    {
        proof {
            use_type_invariant(self);
            self.lemma_shape();
        }
        match self.position(session_id) {
            Some(i) => {
                proof {
                    lemma_table_lookup(self.sessions@, i as int);
                }
                Some(copy_optional_text(&self.sessions[i].custom_data))
            },
            None => None,
        }
    }

    /// Starts a session. The request is always accepted: the session gets an
    /// identifier that no session had before, is bound to the site asked
    /// for, or to the default site, and keeps the custom data. Returns the
    /// announcement of the start and, where a lambda started the session,
    /// the order to speak its text.
    pub fn start_session(&mut self, request: StartSessionMessage) -> (outcome: (
        SessionStartedMessage,
        Option<SayMessage>,
    ))
        ensures
            final(self)@ == after_start(old(self)@, request@),
            outcome.0@ == start_announced(old(self)@, request@),
            said_view(outcome.1) == start_said(old(self)@, request@),
            !was_issued(old(self)@, outcome.0.session_id@),
            consistent(final(self)@),
    {
        proof {
            use_type_invariant(&*self);
            self.lemma_shape();
            lemma_fresh_identifier(self@);
            lemma_step_keeps(self@, RequestView::Start(request@));
        }
        let ghost asked = request@;
        let number = self.issued.duplicate();
        let next = self.issued.successor();
        let id = number.to_text();
        let StartSessionMessage { init, custom_data, site_id } = request;
        let site = match site_id {
            Some(site) => site,
            None => "default".to_owned(),
        };
        let mut filter: Option<Vec<String>> = None;
        let mut status = SessionStatus::WaitingForIntent;
        let mut say: Option<SayMessage> = None;
        match init {
            SessionInit::User => {},
            SessionInit::Lambda { action } => {
                let SessionAction { text, expect_response, intent_filter } = action;
                if expect_response {
                    filter = intent_filter;
                } else {
                    status = SessionStatus::Started;
                }
                say = Some(
                    SayMessage { text, lang: None, id: Some(id.clone()), site_id: site.clone() },
                );
            },
        }
        let started = SessionStartedMessage {
            session_id: id.clone(),
            custom_data: copy_optional_text(&custom_data),
            site_id: site.clone(),
        };
        let session = Session {
            number,
            id,
            site_id: site,
            custom_data,
            intent_filter: filter,
            status,
        };
        assert(session.state() == opening_state(asked));
        let mut sessions: Vec<Session> = Vec::new();
        core::mem::swap(&mut self.sessions, &mut sessions);
        proof {
            lemma_table_push(sessions@, session);
        }
        sessions.push(session);
        self.issued = next;
        core::mem::swap(&mut self.sessions, &mut sessions);
        (started, say)
    }

    /// Continues a session. For an active session, sets what is expected of
    /// the user next, the action's list of intents where a response is
    /// expected, and returns the order to speak the action's text at the
    /// session's site. For any other session, changes nothing and returns
    /// the error to publish.
    pub fn continue_session(&mut self, request: ContinueSessionMessage) -> (outcome: Result<
        SayMessage,
        ErrorMessage,
    >)
        ensures
            final(self)@ == after_continue(old(self)@, request@),
            say_outcome_view(outcome) == continue_outcome(old(self)@, request@),
            outcome is Ok <==> old(self)@.active.dom().contains(request.session_id@),
            consistent(final(self)@),
    {
        proof {
            use_type_invariant(&*self);
            self.lemma_shape();
            lemma_step_keeps(self@, RequestView::Continue(request@));
        }
        let ContinueSessionMessage { session_id, action } = request;
        match self.position(&session_id) {
            None => Err(unknown_session_error(session_id)),
            Some(i) => {
                let SessionAction { text, expect_response, intent_filter } = action;
                let mut sessions: Vec<Session> = Vec::new();
                core::mem::swap(&mut self.sessions, &mut sessions);
                let ghost before = sessions@;
                let Session { number, id, site_id, custom_data, intent_filter: _, status: _ } =
                    sessions.remove(i);
                let say = SayMessage {
                    text,
                    lang: None,
                    id: Some(session_id),
                    site_id: site_id.clone(),
                };
                let session = if expect_response {
                    Session {
                        number,
                        id,
                        site_id,
                        custom_data,
                        intent_filter,
                        status: SessionStatus::WaitingForIntent,
                    }
                } else {
                    Session {
                        number,
                        id,
                        site_id,
                        custom_data,
                        intent_filter: None,
                        status: SessionStatus::Started,
                    }
                };
                proof {
                    lemma_table_lookup(before, i as int);
                    lemma_table_update(before, i as int, session);
                    assert(before.remove(i as int).insert(i as int, session) =~= before.update(
                        i as int,
                        session,
                    ));
                }
                sessions.insert(i, session);
                core::mem::swap(&mut self.sessions, &mut sessions);
                Ok(say)
            },
        }
    }

    fn close(&mut self, session_id: String, aborted: bool) -> (outcome: Result<
        SessionEndedMessage,
        ErrorMessage,
    >)
        ensures
            final(self)@ == after_end(old(self)@, session_id@),
            end_outcome_view(outcome) == end_outcome(old(self)@, session_id@, aborted),
            outcome is Ok <==> old(self)@.active.dom().contains(session_id@),
            outcome is Err ==> final(self)@ == old(self)@,
            !final(self)@.active.dom().contains(session_id@),
            consistent(final(self)@),
    {
        proof {
            use_type_invariant(&*self);
            self.lemma_shape();
            lemma_step_keeps(self@, RequestView::End { session_id: session_id@ });
            lemma_step_keeps(self@, RequestView::Abort { session_id: session_id@ });
        }
        match self.position(&session_id) {
            None => Err(unknown_session_error(session_id)),
            Some(i) => {
                let mut sessions: Vec<Session> = Vec::new();
                core::mem::swap(&mut self.sessions, &mut sessions);
                proof {
                    lemma_table_lookup(sessions@, i as int);
                    lemma_table_remove(sessions@, i as int);
                }
                let session = sessions.remove(i);
                core::mem::swap(&mut self.sessions, &mut sessions);
                Ok(
                    SessionEndedMessage {
                        session_id,
                        custom_data: session.custom_data,
                        aborted: Some(aborted),
                    },
                )
            },
        }
    }

    /// Ends a session at the request of a component. For an active session,
    /// takes it out of the table and returns the announcement of its end,
    /// with the session's custom data, marked as not aborted. For any other
    /// session, changes nothing and returns the error to publish.
    pub fn end_session(&mut self, request: EndSessionMessage) -> (outcome: Result<
        SessionEndedMessage,
        ErrorMessage,
    >)
        ensures
            final(self)@ == after_end(old(self)@, request.session_id@),
            end_outcome_view(outcome) == end_outcome(old(self)@, request.session_id@, false),
            outcome is Ok <==> old(self)@.active.dom().contains(request.session_id@),
            outcome is Err ==> final(self)@ == old(self)@,
            !final(self)@.active.dom().contains(request.session_id@),
            consistent(final(self)@),
    {
        self.close(request.session_id, false)
    }

    /// Ends a session because the user left it. For an active session,
    /// takes it out of the table and returns the announcement of its end,
    /// with the session's custom data, marked as aborted. For any other
    /// session, changes nothing and returns the error to publish.
    pub fn abort_session(&mut self, session_id: String) -> (outcome: Result<
        SessionEndedMessage,
        ErrorMessage,
    >)
        ensures
            final(self)@ == after_end(old(self)@, session_id@),
            end_outcome_view(outcome) == end_outcome(old(self)@, session_id@, true),
            outcome is Ok <==> old(self)@.active.dom().contains(session_id@),
            outcome is Err ==> final(self)@ == old(self)@,
            !final(self)@.active.dom().contains(session_id@),
            consistent(final(self)@),
    {
        self.close(session_id, true)
    }

    /// Takes an intent that was found in what the user said. Where the
    /// intent names an active session that awaits an intent and whose filter
    /// lets it through, returns the intent to publish, with the session's
    /// identifier and custom data; the session stays open and awaits nothing
    /// until it is continued. Otherwise changes nothing and returns the
    /// error to publish.
    pub fn intent_parsed(&mut self, parsed: NluIntentMessage) -> (outcome: Result<
        IntentMessage,
        ErrorMessage,
    >)
        ensures
            final(self)@ == after_intent(old(self)@, parsed@),
            intent_outcome_view(outcome) == intent_outcome(old(self)@, parsed@),
            outcome is Ok <==> intent_accepted(old(self)@, parsed@),
            consistent(final(self)@),
    {
        proof {
            use_type_invariant(&*self);
            self.lemma_shape();
            lemma_step_keeps(self@, RequestView::IntentParsed(parsed@));
        }
        let NluIntentMessage { id, input, intent, slots } = parsed;
        let session_id = match id {
            Some(session_id) => session_id,
            None => {
                return Err(
                    ErrorMessage {
                        session_id: None,
                        error: "intent without a session".to_owned(),
                        context: None,
                    },
                );
            },
        };
        let i = match self.position(&session_id) {
            Some(i) => i,
            None => {
                return Err(unknown_session_error(session_id));
            },
        };
        proof {
            lemma_table_lookup(self.sessions@, i as int);
        }
        if self.sessions[i].status != SessionStatus::WaitingForIntent {
            return Err(
                ErrorMessage {
                    session_id: Some(session_id),
                    error: "no intent is expected".to_owned(),
                    context: None,
                },
            );
        }
        let allowed = match &self.sessions[i].intent_filter {
            None => true,
            Some(names) => names_hold(names, &intent.intent_name),
        };
        if !allowed {
            return Err(
                ErrorMessage {
                    session_id: Some(session_id),
                    error: "intent is not in the session's filter".to_owned(),
                    context: Some(intent.intent_name),
                },
            );
        }
        let mut sessions: Vec<Session> = Vec::new();
        core::mem::swap(&mut self.sessions, &mut sessions);
        let ghost before = sessions@;
        let Session { number, id, site_id, custom_data, intent_filter: _, status: _ } =
            sessions.remove(i);
        let carried = copy_optional_text(&custom_data);
        let session = Session {
            number,
            id,
            site_id,
            custom_data,
            intent_filter: None,
            status: SessionStatus::Started,
        };
        proof {
            lemma_table_update(before, i as int, session);
            assert(before.remove(i as int).insert(i as int, session) =~= before.update(
                i as int,
                session,
            ));
        }
        sessions.insert(i, session);
        core::mem::swap(&mut self.sessions, &mut sessions);
        Ok(IntentMessage { session_id, custom_data: carried, input, intent, slots })
    }

    /// Takes a request, whatever its kind, and returns the events to
    /// publish, in order: the step of the state machine.
    pub fn handle(&mut self, request: DialogueRequest) -> (events: Vec<DialogueEvent>)
        ensures
            final(self)@ == step(old(self)@, request@).0,
            events_view(events@) == step(old(self)@, request@).1,
            consistent(final(self)@),
    {
        let mut events: Vec<DialogueEvent> = Vec::new();
        match request {
            DialogueRequest::Start(request) => {
                let (started, say) = self.start_session(request);
                events.push(DialogueEvent::SessionStarted(started));
                if let Some(say) = say {
                    events.push(DialogueEvent::Say(say));
                }
            },
            DialogueRequest::Continue(request) => {
                match self.continue_session(request) {
                    Ok(say) => events.push(DialogueEvent::Say(say)),
                    Err(error) => events.push(DialogueEvent::Error(error)),
                }
            },
            DialogueRequest::End(request) => {
                match self.end_session(request) {
                    Ok(ended) => events.push(DialogueEvent::SessionEnded(ended)),
                    Err(error) => events.push(DialogueEvent::Error(error)),
                }
            },
            DialogueRequest::Abort(session_id) => {
                match self.abort_session(session_id) {
                    Ok(ended) => events.push(DialogueEvent::SessionEnded(ended)),
                    Err(error) => events.push(DialogueEvent::Error(error)),
                }
            },
            DialogueRequest::IntentParsed(parsed) => {
                match self.intent_parsed(parsed) {
                    Ok(intent) => events.push(DialogueEvent::Intent(intent)),
                    Err(error) => events.push(DialogueEvent::Error(error)),
                }
            },
        }
        assert(events_view(events@) =~= step(old(self)@, request@).1);
        events
    }
}

proof fn lemma_table_size(sessions: Seq<Session>)
    requires
        distinct_ids(sessions),
    ensures
        table_of(sessions).dom().finite(),
        table_of(sessions).dom().len() == sessions.len(),
    decreases sessions.len(),
{
    if sessions.len() > 0 {
        let earlier = sessions.drop_last();
        let last = sessions.last();
        assert forall|a: int, b: int| 0 <= a < b < earlier.len() implies (#[trigger] earlier[a]).id@
            != (#[trigger] earlier[b]).id@ by {
            assert(sessions[a].id@ != sessions[b].id@);
        }
        lemma_table_size(earlier);
        lemma_table_domain(earlier, last.id@);
        if table_of(earlier).dom().contains(last.id@) {
            let a = choose|a: int| 0 <= a < earlier.len() && (#[trigger] earlier[a]).id@
                == last.id@;
            assert(sessions[a].id@ != sessions[sessions.len() - 1].id@);
        }
        assert(table_of(sessions).dom() =~= table_of(earlier).dom().insert(last.id@));
    }
}

} // verus!
