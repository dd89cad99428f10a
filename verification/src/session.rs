//! The dialogue session state machine: the life of a conversation between
//! the system and a user, from the request that starts it to the event that
//! ends it.
//!
//! [`step`] defines the machine: a function from the table of sessions and
//! a request to the next table and the events to publish. What holds of
//! every sequence of requests is proved here of [`run`], the repetition of
//! [`step`]. The executable table is [`crate::dialogue::SessionManager`],
//! each of whose methods is proved to take exactly that step.

use vstd::prelude::*;
use crate::ontology::{
    default_site, ContinueSessionView, ErrorView, IntentView, NluIntentView, SayView,
    SessionActionView, SessionEndedView, SessionInitView, SessionStartedView, StartSessionView,
};
use crate::serial::{decimal_text, lemma_decimal_text_injective};

verus! {

/// Where a session that has not ended stands.
#[derive(Debug, Clone, Copy, PartialEq, Eq, Structural)]
pub enum SessionStatus {
    /// The session is open and nothing is expected of the user.
    Started,
    /// The session is open and the user's next utterance is awaited.
    WaitingForIntent,
}

/// What the table keeps of a session.
pub struct SessionState {
    /// The site that the session is bound to, fixed when it starts.
    pub site_id: Seq<char>,
    /// The data given when the session started, never changed afterwards.
    pub custom_data: Option<Seq<char>>,
    /// The intents that may be recognized in the next turn; any intent
    /// where there is no list.
    pub intent_filter: Option<Seq<Seq<char>>>,
    /// Where the session stands.
    pub status: SessionStatus,
}

/// The table of sessions: the sessions that have started and not ended, by
/// their identifier, and the number of sessions ever started.
pub struct SessionTable {
    pub active: Map<Seq<char>, SessionState>,
    pub issued: nat,
}

/// A request to the dialogue manager.
pub enum RequestView {
    Start(StartSessionView),
    Continue(ContinueSessionView),
    End { session_id: Seq<char> },
    Abort { session_id: Seq<char> },
    IntentParsed(NluIntentView),
}

/// An event that the dialogue manager publishes.
pub enum EventView {
    SessionStarted(SessionStartedView),
    Say(SayView),
    Intent(IntentView),
    SessionEnded(SessionEndedView),
    Error(ErrorView),
}

/// The identifier of the session that is started when `issued` sessions
/// have been started before it.
pub open spec fn session_id_text(issued: nat) -> Seq<char> {
    decimal_text(issued)
}

/// Whether an identifier has been given to a session, now active or ended.
pub open spec fn was_issued(table: SessionTable, session_id: Seq<char>) -> bool {
    exists|k: nat| k < table.issued && session_id == #[trigger] session_id_text(k)
}

/// Every active session bears an identifier that was issued.
pub open spec fn consistent(table: SessionTable) -> bool {
    forall|session_id: Seq<char>| #[trigger]
        table.active.dom().contains(session_id) ==> was_issued(table, session_id)
}

/// Whether a session has started and has since ended.
pub open spec fn has_ended(table: SessionTable, session_id: Seq<char>) -> bool {
    was_issued(table, session_id) && !table.active.dom().contains(session_id)
}

/// The table before any session has started.
pub open spec fn empty_table() -> SessionTable {
    SessionTable { active: Map::empty(), issued: 0 }
}

/// The site of a request that may leave it out.
pub open spec fn site_or_default(site: Option<Seq<char>>) -> Seq<char> {
    match site {
        Some(site) => site,
        None => default_site(),
    }
}

/// Where a session stands once an action has been taken: waiting for the
/// user if a response is expected, and open otherwise.
pub open spec fn status_after(action: SessionActionView) -> SessionStatus {
    if action.expect_response {
        SessionStatus::WaitingForIntent
    } else {
        SessionStatus::Started
    }
}

/// The intents that may be recognized once an action has been taken. The
/// action's list counts only if a response is expected.
pub open spec fn filter_after(action: SessionActionView) -> Option<Seq<Seq<char>>> {
    if action.expect_response {
        action.intent_filter
    } else {
        None
    }
}

/// The state in which a session starts. A session that the user started
/// awaits what the user says next; one that a lambda started follows the
/// lambda's action.
pub open spec fn opening_state(request: StartSessionView) -> SessionState {
    SessionState {
        site_id: site_or_default(request.site_id),
        custom_data: request.custom_data,
        intent_filter: match request.init {
            SessionInitView::User => None,
            SessionInitView::Lambda { action } => filter_after(action),
        },
        status: match request.init {
            SessionInitView::User => SessionStatus::WaitingForIntent,
            SessionInitView::Lambda { action } => status_after(action),
        },
    }
}

/// The order to speak an action's text at a session's site. It carries the
/// session's identifier, so that the answer can be matched to the session.
pub open spec fn say_for(
    session_id: Seq<char>,
    site_id: Seq<char>,
    action: SessionActionView,
) -> SayView {
    SayView { text: action.text, lang: None, id: Some(session_id), site_id }
}

/// The error published for a request that names a session which is not
/// active: one that has ended, or one that never started.
pub open spec fn unknown_session(session_id: Seq<char>) -> ErrorView {
    ErrorView {
        session_id: Some(session_id),
        error: "unknown or terminated session"@,
        context: None,
    }
}

/// The error published for an intent that names no session.
pub open spec fn intent_without_session() -> ErrorView {
    ErrorView { session_id: None, error: "intent without a session"@, context: None }
}

/// The error published for an intent that comes while the session awaits
/// none.
pub open spec fn unexpected_intent(session_id: Seq<char>) -> ErrorView {
    ErrorView { session_id: Some(session_id), error: "no intent is expected"@, context: None }
}

/// The error published for an intent that the session's filter leaves out.
/// Its context names the intent.
pub open spec fn filtered_intent(session_id: Seq<char>, intent_name: Seq<char>) -> ErrorView {
    ErrorView {
        session_id: Some(session_id),
        error: "intent is not in the session's filter"@,
        context: Some(intent_name),
    }
}

/// Whether a filter lets an intent through.
pub open spec fn filter_allows(filter: Option<Seq<Seq<char>>>, intent_name: Seq<char>) -> bool {
    match filter {
        None => true,
        Some(names) => names.contains(intent_name),
    }
}

/// The table after a start request. The request is always accepted: a new
/// session is entered under the next identifier.
pub open spec fn after_start(table: SessionTable, request: StartSessionView) -> SessionTable {
    SessionTable {
        active: table.active.insert(session_id_text(table.issued), opening_state(request)),
        issued: table.issued + 1,
    }
}

/// The announcement of the start of a session: its identifier, its site
/// and the custom data it was given.
pub open spec fn start_announced(
    table: SessionTable,
    request: StartSessionView,
) -> SessionStartedView {
    SessionStartedView {
        session_id: session_id_text(table.issued),
        custom_data: request.custom_data,
        site_id: site_or_default(request.site_id),
    }
}

/// The order to speak that comes with the start of a session: the text of
/// the lambda that started it, and none where the user started it.
pub open spec fn start_said(table: SessionTable, request: StartSessionView) -> Option<SayView> {
    match request.init {
        SessionInitView::User => None,
        SessionInitView::Lambda { action } => Some(
            say_for(session_id_text(table.issued), site_or_default(request.site_id), action),
        ),
    }
}

/// The table after a request to continue a session. For an active session
/// it sets what is expected of the user next; for any other session it
/// changes nothing.
pub open spec fn after_continue(table: SessionTable, request: ContinueSessionView) -> SessionTable {
    if table.active.dom().contains(request.session_id) {
        SessionTable {
            active: table.active.insert(
                request.session_id,
                SessionState {
                    intent_filter: filter_after(request.action),
                    status: status_after(request.action),
                    ..table.active[request.session_id]
                },
            ),
            issued: table.issued,
        }
    } else {
        table
    }
}

/// The answer to a request to continue a session: for an active session
/// the order to speak the action's text at the session's site, for any
/// other session the error for an unknown session.
pub open spec fn continue_outcome(table: SessionTable, request: ContinueSessionView) -> Result<
    SayView,
    ErrorView,
> {
    if table.active.dom().contains(request.session_id) {
        Ok(say_for(request.session_id, table.active[request.session_id].site_id, request.action))
    } else {
        Err(unknown_session(request.session_id))
    }
}

/// The table after a request to end a session, or after the user's abort
/// of it: an active session is taken out, and for any other session
/// nothing changes.
pub open spec fn after_end(table: SessionTable, session_id: Seq<char>) -> SessionTable {
    if table.active.dom().contains(session_id) {
        SessionTable { active: table.active.remove(session_id), issued: table.issued }
    } else {
        table
    }
}

/// The answer to a request to end a session, or to the user's abort of it:
/// for an active session the announcement of its end, which says which of
/// the two it was, for any other session the error for an unknown session.
pub open spec fn end_outcome(table: SessionTable, session_id: Seq<char>, aborted: bool) -> Result<
    SessionEndedView,
    ErrorView,
> {
    if table.active.dom().contains(session_id) {
        Ok(
            SessionEndedView {
                session_id,
                custom_data: table.active[session_id].custom_data,
                aborted: Some(aborted),
            },
        )
    } else {
        Err(unknown_session(session_id))
    }
}

/// Whether an intent is taken: it names an active session that awaits an
/// intent and whose filter lets it through.
pub open spec fn intent_accepted(table: SessionTable, parsed: NluIntentView) -> bool {
    &&& parsed.id matches Some(session_id)
    &&& table.active.dom().contains(session_id)
    &&& table.active[session_id].status == SessionStatus::WaitingForIntent
    &&& filter_allows(table.active[session_id].intent_filter, parsed.intent.intent_name)
}

/// The table after an intent. Where the intent is taken, its session stays
/// open and awaits nothing until it is continued; otherwise nothing
/// changes.
pub open spec fn after_intent(table: SessionTable, parsed: NluIntentView) -> SessionTable {
    if intent_accepted(table, parsed) {
        let session_id = parsed.id->Some_0;
        SessionTable {
            active: table.active.insert(
                session_id,
                SessionState {
                    intent_filter: None,
                    status: SessionStatus::Started,
                    ..table.active[session_id]
                },
            ),
            issued: table.issued,
        }
    } else {
        table
    }
}

/// The answer to an intent. Where the intent is taken, it is published
/// with its session's identifier and custom data; otherwise the answer is
/// the error that says why it is not.
pub open spec fn intent_outcome(table: SessionTable, parsed: NluIntentView) -> Result<
    IntentView,
    ErrorView,
> {
    match parsed.id {
        None => Err(intent_without_session()),
        Some(session_id) => {
            if !table.active.dom().contains(session_id) {
                Err(unknown_session(session_id))
            } else if table.active[session_id].status != SessionStatus::WaitingForIntent {
                Err(unexpected_intent(session_id))
            } else if !filter_allows(
                table.active[session_id].intent_filter,
                parsed.intent.intent_name,
            ) {
                Err(filtered_intent(session_id, parsed.intent.intent_name))
            } else {
                Ok(
                    IntentView {
                        session_id,
                        custom_data: table.active[session_id].custom_data,
                        input: parsed.input,
                        intent: parsed.intent,
                        slots: parsed.slots,
                    },
                )
            }
        },
    }
}

/// The events of a start: the announcement, and the order to speak where
/// there is one.
pub open spec fn start_events(started: SessionStartedView, said: Option<SayView>) -> Seq<
    EventView,
> {
    match said {
        None => seq![EventView::SessionStarted(started)],
        Some(say) => seq![EventView::SessionStarted(started), EventView::Say(say)],
    }
}

/// The one event of an order to speak, or of the error in its place.
pub open spec fn say_events(outcome: Result<SayView, ErrorView>) -> Seq<EventView> {
    match outcome {
        Ok(say) => seq![EventView::Say(say)],
        Err(error) => seq![EventView::Error(error)],
    }
}

/// The one event of the end of a session, or of the error in its place.
pub open spec fn end_events(outcome: Result<SessionEndedView, ErrorView>) -> Seq<EventView> {
    match outcome {
        Ok(ended) => seq![EventView::SessionEnded(ended)],
        Err(error) => seq![EventView::Error(error)],
    }
}

/// The one event of an intent, or of the error in its place.
pub open spec fn intent_events(outcome: Result<IntentView, ErrorView>) -> Seq<EventView> {
    match outcome {
        Ok(intent) => seq![EventView::Intent(intent)],
        Err(error) => seq![EventView::Error(error)],
    }
}

/// What one request does: the table after it, and the events to publish.
pub open spec fn step(table: SessionTable, request: RequestView) -> (SessionTable, Seq<EventView>) {
    match request {
        RequestView::Start(request) => (
            after_start(table, request),
            start_events(start_announced(table, request), start_said(table, request)),
        ),
        RequestView::Continue(request) => (
            after_continue(table, request),
            say_events(continue_outcome(table, request)),
        ),
        RequestView::End { session_id } => (
            after_end(table, session_id),
            end_events(end_outcome(table, session_id, false)),
        ),
        RequestView::Abort { session_id } => (
            after_end(table, session_id),
            end_events(end_outcome(table, session_id, true)),
        ),
        RequestView::IntentParsed(parsed) => (
            after_intent(table, parsed),
            intent_events(intent_outcome(table, parsed)),
        ),
    }
}

/// The table after a sequence of requests, taken one after the other.
pub open spec fn run(table: SessionTable, requests: Seq<RequestView>) -> SessionTable
    decreases requests.len(),
{
    if requests.len() == 0 {
        table
    } else {
        step(run(table, requests.drop_last()), requests.last()).0
    }
}

/// The events that a sequence of requests gives rise to, in order.
pub open spec fn run_events(table: SessionTable, requests: Seq<RequestView>) -> Seq<EventView>
    decreases requests.len(),
{
    if requests.len() == 0 {
        Seq::empty()
    } else {
        run_events(table, requests.drop_last()) + step(
            run(table, requests.drop_last()),
            requests.last(),
        ).1
    }
}

/// The session that an event is about, where it is about one.
pub open spec fn session_of(event: EventView) -> Option<Seq<char>> {
    match event {
        EventView::SessionStarted(started) => Some(started.session_id),
        EventView::Say(say) => say.id,
        EventView::Intent(intent) => Some(intent.session_id),
        EventView::SessionEnded(ended) => Some(ended.session_id),
        EventView::Error(error) => error.session_id,
    }
}

/// The custom data that an event carries, where it is of a kind that
/// carries any.
pub open spec fn custom_data_of(event: EventView) -> Option<Option<Seq<char>>> {
    match event {
        EventView::SessionStarted(started) => Some(started.custom_data),
        EventView::Intent(intent) => Some(intent.custom_data),
        EventView::SessionEnded(ended) => Some(ended.custom_data),
        EventView::Say(_) => None,
        EventView::Error(_) => None,
    }
}

/// The identifier that a step gives to the session it starts differs from
/// every identifier issued before.
pub proof fn lemma_fresh_identifier(table: SessionTable)
    requires
        consistent(table),
    ensures
        !was_issued(table, session_id_text(table.issued)),
        !table.active.dom().contains(session_id_text(table.issued)),
{
    assert forall|k: nat| k < table.issued implies session_id_text(table.issued)
        != #[trigger] session_id_text(k) by {
        if session_id_text(table.issued) == session_id_text(k) {
            lemma_decimal_text_injective(table.issued, k);
        }
    }
}

/// A step keeps the table consistent, never takes back an identifier, and
/// never revives a session that has ended.
pub proof fn lemma_step_keeps(table: SessionTable, request: RequestView)
    requires
        consistent(table),
    ensures
        consistent(step(table, request).0),
        step(table, request).0.issued >= table.issued,
        request is Start ==> step(table, request).0.issued == table.issued + 1,
        forall|session_id: Seq<char>|
            was_issued(table, session_id) ==> was_issued(step(table, request).0, session_id),
        forall|session_id: Seq<char>| #[trigger]
            has_ended(table, session_id) ==> has_ended(step(table, request).0, session_id),
{
    let next = step(table, request).0;
    lemma_fresh_identifier(table);
    assert forall|session_id: Seq<char>| was_issued(table, session_id) implies was_issued(
        next,
        session_id,
    ) by {
        let k = choose|k: nat| k < table.issued && session_id == #[trigger] session_id_text(k);
        assert(k < next.issued && session_id == session_id_text(k));
    }
    assert forall|session_id: Seq<char>| #[trigger]
        next.active.dom().contains(session_id) implies was_issued(next, session_id) by {
        if table.active.dom().contains(session_id) {
            assert(was_issued(table, session_id));
        } else {
            assert(request is Start);
            assert(session_id == session_id_text(table.issued));
            assert(table.issued < next.issued);
        }
    }
}

/// A run keeps the table consistent, never takes back an identifier, and
/// never revives a session that has ended.
pub proof fn lemma_run_keeps(table: SessionTable, requests: Seq<RequestView>)
    requires
        consistent(table),
    ensures
        consistent(run(table, requests)),
        run(table, requests).issued >= table.issued,
        forall|session_id: Seq<char>|
            was_issued(table, session_id) ==> was_issued(run(table, requests), session_id),
        forall|session_id: Seq<char>| #[trigger]
            has_ended(table, session_id) ==> has_ended(run(table, requests), session_id),
    decreases requests.len(),
{
    if requests.len() > 0 {
        lemma_run_keeps(table, requests.drop_last());
        lemma_step_keeps(run(table, requests.drop_last()), requests.last());
    }
}

/// The table before any session has started is consistent, and so is every
/// table that a sequence of requests leads to from there.
pub proof fn lemma_reachable_consistent(requests: Seq<RequestView>)
    ensures
        consistent(empty_table()),
        consistent(run(empty_table(), requests)),
{
    lemma_run_keeps(empty_table(), requests);
}

/// The number of sessions started only grows along a run, and grows by at
/// least one over every start request.
proof fn lemma_issued_grows(table: SessionTable, requests: Seq<RequestView>, i: int, j: int)
    requires
        consistent(table),
        0 <= i <= j <= requests.len(),
    ensures
        run(table, requests.take(i)).issued <= run(table, requests.take(j)).issued,
        i < j && requests[i] is Start ==> run(table, requests.take(i)).issued < run(
            table,
            requests.take(j),
        ).issued,
    decreases j - i,
{
    if i < j {
        lemma_issued_grows(table, requests, i, j - 1);
        lemma_run_keeps(table, requests.take(j - 1));
        assert(requests.take(j).drop_last() =~= requests.take(j - 1));
        assert(requests.take(j).last() == requests[j - 1]);
        lemma_step_keeps(run(table, requests.take(j - 1)), requests[j - 1]);
    }
}

/// The identifier that the request at position `i` of a sequence gives to
/// the session it starts, where it is a start request.
pub open spec fn identifier_given(table: SessionTable, requests: Seq<RequestView>, i: int) -> Seq<
    char,
> {
    session_id_text(run(table, requests.take(i)).issued)
}

/// In every sequence of requests, no two start requests are given the same
/// session identifier.
pub proof fn lemma_session_identifiers_unique(
    table: SessionTable,
    requests: Seq<RequestView>,
    i: int,
    j: int,
)
    requires
        consistent(table),
        0 <= i < j < requests.len(),
        requests[i] is Start,
        requests[j] is Start,
    ensures
        identifier_given(table, requests, i) != identifier_given(table, requests, j),
        !was_issued(table, identifier_given(table, requests, i)),
{
    lemma_issued_grows(table, requests, i, j);
    let a = run(table, requests.take(i)).issued;
    let b = run(table, requests.take(j)).issued;
    if session_id_text(a) == session_id_text(b) {
        lemma_decimal_text_injective(a, b);
    }
    lemma_issued_grows(table, requests, 0, i);
    assert(requests.take(0) =~= Seq::<RequestView>::empty());
    assert forall|k: nat| k < table.issued implies session_id_text(a) != #[trigger] session_id_text(
        k,
    ) by {
        if session_id_text(a) == session_id_text(k) {
            lemma_decimal_text_injective(a, k);
        }
    }
}

/// Once a session has ended, it stays ended whatever is requested
/// afterwards, and every later request to continue or to end it leaves the
/// table as it is and is answered by the error for an unknown session.
pub proof fn lemma_terminal_is_sticky(
    table: SessionTable,
    requests: Seq<RequestView>,
    session_id: Seq<char>,
    action: SessionActionView,
)
    requires
        consistent(table),
        has_ended(table, session_id),
    ensures
        has_ended(run(table, requests), session_id),
        step(
            run(table, requests),
            RequestView::Continue(ContinueSessionView { session_id, action }),
        ) == (run(table, requests), seq![EventView::Error(unknown_session(session_id))]),
        step(run(table, requests), RequestView::End { session_id }) == (
            run(table, requests),
            seq![EventView::Error(unknown_session(session_id))],
        ),
        step(run(table, requests), RequestView::Abort { session_id }) == (
            run(table, requests),
            seq![EventView::Error(unknown_session(session_id))],
        ),
{
    lemma_run_keeps(table, requests);
}

/// A request to end a session, or its abort, always leaves the session
/// ended: the end takes precedence over whatever else was requested of it.
pub proof fn lemma_end_is_terminal(table: SessionTable, session_id: Seq<char>)
    requires
        consistent(table),
        table.active.dom().contains(session_id),
    ensures
        has_ended(after_end(table, session_id), session_id),
{
    let k = choose|k: nat| k < table.issued && session_id == #[trigger] session_id_text(k);
    assert(k < after_end(table, session_id).issued && session_id == session_id_text(k));
}

/// Where a request to continue a session and a request to end it come
/// together, the end wins in whichever order the two are taken: the
/// session has ended after both.
pub proof fn lemma_end_takes_precedence(table: SessionTable, request: ContinueSessionView)
    requires
        consistent(table),
        table.active.dom().contains(request.session_id),
    ensures
        has_ended(
            after_end(after_continue(table, request), request.session_id),
            request.session_id,
        ),
        has_ended(
            after_continue(after_end(table, request.session_id), request),
            request.session_id,
        ),
        continue_outcome(after_end(table, request.session_id), request) == Err::<
            SayView,
            ErrorView,
        >(unknown_session(request.session_id)),
{
    let session_id = request.session_id;
    let k = choose|k: nat| k < table.issued && session_id == #[trigger] session_id_text(k);
    assert(k < after_continue(table, request).issued && session_id == session_id_text(k));
    assert(k < after_end(table, session_id).issued && session_id == session_id_text(k));
}

/// Whether an event, if it is about the given session and of a kind that
/// carries custom data, carries the given data.
pub open spec fn carries(event: EventView, session_id: Seq<char>, data: Option<Seq<char>>) -> bool {
    session_of(event) == Some(session_id) ==> (custom_data_of(event) matches Some(carried)
        ==> carried == data)
}

/// While a session is active, the custom data in the table is the data it
/// started with, and every event about it carries that data.
proof fn lemma_custom_data_kept(
    table: SessionTable,
    requests: Seq<RequestView>,
    session_id: Seq<char>,
)
    requires
        consistent(table),
        table.active.dom().contains(session_id),
    ensures
        run(table, requests).active.dom().contains(session_id) ==> run(
            table,
            requests,
        ).active[session_id].custom_data == table.active[session_id].custom_data,
        forall|k: int|
            0 <= k < run_events(table, requests).len() ==> carries(
                #[trigger] run_events(table, requests)[k],
                session_id,
                table.active[session_id].custom_data,
            ),
    decreases requests.len(),
{
    if requests.len() > 0 {
        let earlier = requests.drop_last();
        let before = run(table, earlier);
        let data = table.active[session_id].custom_data;
        lemma_custom_data_kept(table, earlier, session_id);
        lemma_run_keeps(table, earlier);
        lemma_fresh_identifier(before);
        assert(was_issued(table, session_id));
        assert(was_issued(before, session_id));
        let (after, events) = step(before, requests.last());
        assert forall|e: int| 0 <= e < events.len() implies carries(
            #[trigger] events[e],
            session_id,
            data,
        ) by {}
        let all = run_events(table, requests);
        let old_events = run_events(table, earlier);
        assert forall|k: int| 0 <= k < all.len() implies carries(
            #[trigger] all[k],
            session_id,
            data,
        ) by {
            if k < old_events.len() {
                assert(all[k] == old_events[k]);
            } else {
                assert(all[k] == events[k - old_events.len()]);
            }
        }
    }
}

/// The custom data given when a session starts comes back unchanged in
/// every event about that session: in the announcement of its start, in
/// every intent and in the announcement of its end, whatever requests
/// follow the start.
pub proof fn lemma_custom_data_round_trip(
    table: SessionTable,
    start: StartSessionView,
    later: Seq<RequestView>,
    k: int,
)
    requires
        consistent(table),
        0 <= k < run_events(table, seq![RequestView::Start(start)] + later).len(),
    ensures
        carries(
            run_events(table, seq![RequestView::Start(start)] + later)[k],
            session_id_text(table.issued),
            start.custom_data,
        ),
{
    let first = seq![RequestView::Start(start)];
    let session_id = session_id_text(table.issued);
    let (opened, announced) = step(table, RequestView::Start(start));
    lemma_step_keeps(table, RequestView::Start(start));
    lemma_run_append(table, first, later);
    assert(first.drop_last() =~= Seq::<RequestView>::empty());
    assert(run(table, first) == opened);
    assert(run_events(table, first.drop_last()) =~= Seq::<EventView>::empty());
    assert(run_events(table, first) =~= announced);
    lemma_custom_data_kept(opened, later, session_id);
    let all = run_events(table, first + later);
    if k < announced.len() {
        assert(all[k] == announced[k]);
    } else {
        assert(all[k] == run_events(opened, later)[k - announced.len()]);
    }
}

/// Requests taken in two batches lead where the same requests lead when
/// taken in one.
pub proof fn lemma_run_append(
    table: SessionTable,
    first: Seq<RequestView>,
    second: Seq<RequestView>,
)
    ensures
        run(table, first + second) == run(run(table, first), second),
        run_events(table, first + second) == run_events(table, first) + run_events(
            run(table, first),
            second,
        ),
    decreases second.len(),
{
    if second.len() == 0 {
        assert(first + second =~= first);
        assert(run_events(table, first) + Seq::<EventView>::empty() =~= run_events(table, first));
    } else {
        lemma_run_append(table, first, second.drop_last());
        assert((first + second).drop_last() =~= first + second.drop_last());
        assert((first + second).last() == second.last());
        let a = run_events(table, first);
        let b = run_events(run(table, first), second.drop_last());
        let c = step(run(run(table, first), second.drop_last()), second.last()).1;
        assert((a + b) + c =~= a + (b + c));
    }
}

} // verus!
