//! The import of the routes of a feed, as a sequence of calls and answers.
//!
//! An `ImportRun` says which call comes next. Its caller makes the call and
//! hands the answer back, until no call is left. The run first finds the label
//! of the producer, then gets a token, then takes the routes one by one: it
//! asks which entities stand for the route already, and creates one only where
//! there is none.

use crate::api_structures::ApiResponseContentView;
use crate::client::{line_query, route_claims, route_entity, Client, ConfigView};
use crate::error::{unexpected_reply, ImportError, ImportErrorView};
use crate::exchange::{producer_label, producer_lookup, Reply, ReplyView, Request, RequestView};
use crate::feed::{Route, RouteView};
use crate::identifiers::is_item_id_text;
use crate::views::{lemma_views_push, views};
use vstd::prelude::*;

verus! {

/// How much a log line matters.
#[derive(Debug, Clone, Copy, PartialEq, Eq)]
pub enum Severity {
    Info,
    Warning,
    Error,
}

/// What became of a route.
#[derive(Debug, PartialEq, Eq)]
pub enum RouteOutcome {
    /// No entity stood for the route, and one was created.
    Inserted { id: String },
    /// No entity stood for the route, and the call to create one failed.
    InsertFailed { error: ImportError },
    /// One entity stands for the route already.
    SkippedExisting { id: String },
    /// Several entities stand for the route, which is not in order.
    SkippedAmbiguous { matches: usize },
}

/// A `RouteOutcome` as a mathematical value.
pub enum OutcomeView {
    Inserted { id: Seq<char> },
    InsertFailed { error: ImportErrorView },
    SkippedExisting { id: Seq<char> },
    SkippedAmbiguous { matches: nat },
}

impl OutcomeView {
    /// How much the log line of the outcome matters.
    pub open spec fn severity(self) -> Severity {
        match self {
            OutcomeView::Inserted { .. } => Severity::Info,
            OutcomeView::InsertFailed { .. } => Severity::Error,
            OutcomeView::SkippedExisting { .. } => Severity::Info,
            OutcomeView::SkippedAmbiguous { .. } => Severity::Warning,
        }
    }
}

/// How a log line names `route`.
pub open spec fn line_name(route: RouteView) -> Seq<char> {
    "Line “"@ + route.long_name + "” ("@ + route.short_name + ")"@
}

/// The log line that says that the entity of `route` is about to be created.
pub open spec fn insertion_notice(route: RouteView) -> Seq<char> {
    line_name(route) + " does not exist, inserting"@
}

impl OutcomeView {
    /// The log line that tells what became of `route`.
    pub open spec fn log_line(self, route: RouteView) -> Seq<char> {
        match self {
            OutcomeView::Inserted { id } => "Ok, new item id: "@ + id,
            OutcomeView::InsertFailed { error } => "Insertion failed: "@ + error.message(),
            OutcomeView::SkippedExisting { id } => line_name(route) + " already exists with id "@
                + id + ", skipping"@,
            OutcomeView::SkippedAmbiguous { .. } => line_name(route)
                + " exists many times. Something is not right"@,
        }
    }
}

impl View for RouteOutcome {
    type V = OutcomeView;

    open spec fn view(&self) -> OutcomeView {
        match self {
            RouteOutcome::Inserted { id } => OutcomeView::Inserted { id: id@ },
            RouteOutcome::InsertFailed { error } => OutcomeView::InsertFailed { error: error@ },
            RouteOutcome::SkippedExisting { id } => OutcomeView::SkippedExisting { id: id@ },
            RouteOutcome::SkippedAmbiguous { matches } => OutcomeView::SkippedAmbiguous {
                matches: *matches as nat,
            },
        }
    }
}

/// How a log line names `route`.
fn name_line(route: &Route) -> (name: String)
    ensures
        name@ == line_name(route@),
{
    let mut name = String::from_str("Line “");
    name.append(route.long_name.as_str());
    name.append("” (");
    name.append(route.short_name.as_str());
    name.append(")");
    name
}

impl RouteOutcome {
    /// The log line that tells what became of `route`.
    pub fn log_line(&self, route: &Route) -> (line: String)
        ensures
            line@ == self@.log_line(route@),
    {
        match self {
            RouteOutcome::Inserted { id } => {
                let mut line = String::from_str("Ok, new item id: ");
                line.append(id.as_str());
                line
            },
            RouteOutcome::InsertFailed { error } => {
                let mut line = String::from_str("Insertion failed: ");
                let message = error.message();
                line.append(message.as_str());
                line
            },
            RouteOutcome::SkippedExisting { id } => {
                let mut line = name_line(route);
                line.append(" already exists with id ");
                line.append(id.as_str());
                line.append(", skipping");
                line
            },
            RouteOutcome::SkippedAmbiguous { .. } => {
                let mut line = name_line(route);
                line.append(" exists many times. Something is not right");
                line
            },
        }
    }

    /// How much the log line of the outcome matters.
    pub fn severity(&self) -> (severity: Severity)
        ensures
            severity == self@.severity(),
    {
        match self {
            RouteOutcome::Inserted { .. } => Severity::Info,
            RouteOutcome::InsertFailed { .. } => Severity::Error,
            RouteOutcome::SkippedExisting { .. } => Severity::Info,
            RouteOutcome::SkippedAmbiguous { .. } => Severity::Warning,
        }
    }
}

/// What a run waits for.
#[derive(Debug, Clone, Copy, PartialEq, Eq)]
pub enum Phase {
    /// The label of the producer.
    Producer,
    /// The token that authorises writing.
    Token,
    /// The entities that stand for the current route.
    Lines,
    /// The answer to the creation of the entity of the current route.
    Write,
    /// Nothing: every route has its outcome.
    Completed,
    /// Nothing: the run has stopped on a failure.
    Aborted,
}

/// What a create call is recorded as, given its answer. Whatever went wrong,
/// it concerns this route only.
pub open spec fn write_outcome(reply: ReplyView) -> OutcomeView {
    match reply {
        ReplyView::Created(ApiResponseContentView::Entity(id)) => OutcomeView::Inserted { id },
        ReplyView::Created(ApiResponseContentView::Error(error)) => OutcomeView::InsertFailed {
            error: ImportErrorView::Api(error),
        },
        ReplyView::Failed(error) => OutcomeView::InsertFailed { error },
        _ => OutcomeView::InsertFailed { error: ImportErrorView::Schema(unexpected_reply()) },
    }
}

/// An `ImportRun` as a mathematical value.
pub struct RunView {
    pub config: ConfigView,
    /// The producer as the caller named it.
    pub producer: Seq<char>,
    pub routes: Seq<RouteView>,
    pub phase: Phase,
    /// How many routes have their outcome.
    pub position: nat,
    /// The label of the producer, once it is known.
    pub producer_label: Seq<char>,
    /// The token, once it is known.
    pub token: Seq<char>,
    /// The outcomes of the routes before `position`, in the order of the feed.
    pub outcomes: Seq<OutcomeView>,
    /// Why the run stopped, if it did.
    pub failure: Option<ImportErrorView>,
}

impl RunView {
    /// The run that has everything before it.
    pub open spec fn start(config: ConfigView, producer: Seq<char>, routes: Seq<RouteView>)
        -> RunView {
        RunView {
            config,
            producer,
            routes,
            phase: Phase::Producer,
            position: 0,
            producer_label: Seq::empty(),
            token: Seq::empty(),
            outcomes: Seq::empty(),
            failure: None,
        }
    }

    /// The run for a producer whose label is known.
    pub open spec fn start_with_label(
        config: ConfigView,
        producer: Seq<char>,
        producer_label: Seq<char>,
        routes: Seq<RouteView>,
    ) -> RunView {
        RunView { phase: Phase::Token, producer_label, ..RunView::start(config, producer, routes) }
    }

    /// What every run satisfies.
    pub open spec fn wf(self) -> bool {
        &&& self.position <= self.routes.len()
        &&& self.outcomes.len() == self.position
        &&& (self.phase is Aborted) == (self.failure is Some)
        &&& match self.phase {
            Phase::Producer | Phase::Token => self.position == 0,
            Phase::Lines | Phase::Write => self.position < self.routes.len(),
            Phase::Completed => self.position == self.routes.len(),
            Phase::Aborted => true,
        }
    }

    /// The phase of a run that is about to take the route at `position`.
    pub open spec fn phase_at(self, position: nat) -> Phase {
        if position < self.routes.len() {
            Phase::Lines
        } else {
            Phase::Completed
        }
    }

    /// The run, stopped on `error`.
    pub open spec fn abort(self, error: ImportErrorView) -> RunView {
        RunView { phase: Phase::Aborted, failure: Some(error), ..self }
    }

    /// The run after the current route has got `outcome`.
    pub open spec fn record(self, outcome: OutcomeView) -> RunView {
        RunView {
            phase: self.phase_at(self.position + 1),
            position: self.position + 1,
            outcomes: self.outcomes.push(outcome),
            ..self
        }
    }

    /// The call that the run waits for, if it waits for one.
    pub open spec fn request(self) -> Option<RequestView> {
        match self.phase {
            Phase::Producer => Some(producer_lookup(self.producer)),
            Phase::Token => Some(RequestView::Token),
            Phase::Lines => Some(
                RequestView::Lines(
                    line_query(self.config, self.producer, self.routes[self.position as int].id),
                ),
            ),
            Phase::Write => Some(
                RequestView::Create {
                    token: self.token,
                    entity: route_entity(
                        self.config,
                        self.producer,
                        self.producer_label,
                        self.routes[self.position as int],
                    ),
                },
            ),
            Phase::Completed | Phase::Aborted => None,
        }
    }

    /// The run after `reply` has answered its call.
    ///
    /// A failure stops the run while it waits for the label of the producer,
    /// for the token, or for the entities of a route. A failure to create an
    /// entity is recorded for its route, and the run goes on. A run that waits
    /// for nothing stays as it is.
    pub open spec fn receive(self, reply: ReplyView) -> RunView {
        match self.phase {
            Phase::Producer => match producer_label(self.producer, reply) {
                Ok(label) => RunView { phase: Phase::Token, producer_label: label, ..self },
                Err(error) => self.abort(error),
            },
            Phase::Token => match reply {
                ReplyView::Token(token) => RunView {
                    phase: self.phase_at(self.position),
                    token,
                    ..self
                },
                ReplyView::Failed(error) => self.abort(error),
                _ => self.abort(ImportErrorView::Schema(unexpected_reply())),
            },
            Phase::Lines => match reply {
                ReplyView::Lines(lines) => if lines.len() == 0 {
                    RunView { phase: Phase::Write, ..self }
                } else if lines.len() == 1 {
                    self.record(OutcomeView::SkippedExisting { id: lines[0] })
                } else {
                    self.record(OutcomeView::SkippedAmbiguous { matches: lines.len() })
                },
                ReplyView::Failed(error) => self.abort(error),
                _ => self.abort(ImportErrorView::Schema(unexpected_reply())),
            },
            Phase::Write => self.record(write_outcome(reply)),
            Phase::Completed | Phase::Aborted => self,
        }
    }
}

impl RunView {
    /// The calls that the run makes while `replies` answer them in turn. Where
    /// the replies run out first, the last call is the one left unanswered.
    pub open spec fn calls(self, replies: Seq<ReplyView>) -> Seq<RequestView>
        decreases replies.len(),
    {
        match self.request() {
            None => Seq::empty(),
            Some(request) => if replies.len() == 0 {
                seq![request]
            } else {
                seq![request] + self.receive(replies[0]).calls(replies.drop_first())
            },
        }
    }

    /// Whether the run waits for a call that creates an entity.
    pub open spec fn creates(self) -> bool {
        self.request() matches Some(RequestView::Create { .. })
    }
}

/// A run is well formed when it starts.
pub proof fn lemma_start_is_wf(
    config: ConfigView,
    producer: Seq<char>,
    producer_label: Seq<char>,
    routes: Seq<RouteView>,
)
    ensures
        RunView::start(config, producer, routes).wf(),
        RunView::start_with_label(config, producer, producer_label, routes).wf(),
{
}

/// A run stays well formed, whatever answers it.
pub proof fn lemma_receive_keeps_wf(run: RunView, reply: ReplyView)
    requires
        run.wf(),
    ensures
        run.receive(reply).wf(),
{
}

/// A run that has completed or stopped makes no call, whatever it is told.
pub proof fn lemma_finished_run_is_silent(run: RunView, replies: Seq<ReplyView>)
    requires
        run.phase is Completed || run.phase is Aborted,
    ensures
        run.calls(replies) == Seq::<RequestView>::empty(),
        replies.len() > 0 ==> run.receive(replies[0]) == run,
{
}

/// Where no entity stands for the current route, the run creates one, with one
/// call: it carries the token and the six claims of the route. Whatever answers
/// that call, the run records it for the route and turns to the next route.
pub proof fn lemma_new_line_is_created_once(run: RunView, answer: ReplyView, rest: Seq<ReplyView>)
    requires
        run.wf(),
        run.phase is Lines,
    ensures
        ({
            let route = run.routes[run.position as int];
            let query = line_query(run.config, run.producer, route.id);
            let entity = route_entity(run.config, run.producer, run.producer_label, route);
            let asked = run.receive(ReplyView::Lines(Seq::empty()));
            let next = asked.receive(answer);
            &&& asked.request() == Some(RequestView::Create { token: run.token, entity })
            &&& entity.claims == route_claims(run.config, run.producer, route)
            &&& next == run.record(write_outcome(answer))
            &&& next.position == run.position + 1
            &&& !(next.phase is Aborted)
            &&& !next.creates()
            &&& run.calls(seq![ReplyView::Lines(Seq::empty()), answer] + rest) == seq![
                RequestView::Lines(query),
                RequestView::Create { token: run.token, entity },
            ] + next.calls(rest)
        }),
{
    let asked = run.receive(ReplyView::Lines(Seq::empty()));
    let next = asked.receive(answer);
    let replies = seq![ReplyView::Lines(Seq::empty()), answer] + rest;
    assert(replies.drop_first().drop_first() =~= rest);
    assert(run.calls(replies) == seq![run.request().unwrap()] + asked.calls(
        replies.drop_first(),
    ));
    assert(run.calls(replies) =~= seq![run.request().unwrap(), asked.request().unwrap()]
        + next.calls(rest));
}

/// Where one entity stands for the current route, the run creates nothing: it
/// records the identifier of that entity as it came, and turns to the next
/// route.
pub proof fn lemma_existing_line_is_skipped(run: RunView, id: Seq<char>, rest: Seq<ReplyView>)
    requires
        run.wf(),
        run.phase is Lines,
    ensures
        ({
            let route = run.routes[run.position as int];
            let query = line_query(run.config, run.producer, route.id);
            let next = run.receive(ReplyView::Lines(seq![id]));
            &&& next == run.record(OutcomeView::SkippedExisting { id })
            &&& next.position == run.position + 1
            &&& !(next.phase is Aborted)
            &&& !next.creates()
            &&& run.calls(seq![ReplyView::Lines(seq![id])] + rest) == seq![
                RequestView::Lines(query),
            ] + next.calls(rest)
        }),
{
    let replies = seq![ReplyView::Lines(seq![id])] + rest;
    assert(replies.drop_first() =~= rest);
}

/// Where several entities stand for the current route, the run creates
/// nothing: it records the anomaly, which is worth a warning, and goes on with
/// the next route.
pub proof fn lemma_ambiguous_line_is_skipped(
    run: RunView,
    lines: Seq<Seq<char>>,
    rest: Seq<ReplyView>,
)
    requires
        run.wf(),
        run.phase is Lines,
        lines.len() >= 2,
    ensures
        ({
            let route = run.routes[run.position as int];
            let query = line_query(run.config, run.producer, route.id);
            let outcome = OutcomeView::SkippedAmbiguous { matches: lines.len() };
            let next = run.receive(ReplyView::Lines(lines));
            &&& next == run.record(outcome)
            &&& outcome.severity() == Severity::Warning
            &&& next.position == run.position + 1
            &&& !(next.phase is Aborted)
            &&& !next.creates()
            &&& run.calls(seq![ReplyView::Lines(lines)] + rest) == seq![RequestView::Lines(query)]
                + next.calls(rest)
        }),
{
    let replies = seq![ReplyView::Lines(lines)] + rest;
    assert(replies.drop_first() =~= rest);
}

/// What a knowledge base that knows no label for `producer` answers to the
/// call that looks for one: no row where the call was a query by identifier,
/// no result where it was a search by name.
pub open spec fn no_label(producer: Seq<char>) -> ReplyView {
    if is_item_id_text(producer) {
        ReplyView::Labels(Seq::empty())
    } else {
        ReplyView::Search(Seq::empty())
    }
}

/// Where no label is found for the producer, the run stops at once, for want
/// of the producer: the call that looks for the label is the only call that it
/// ever makes, whatever it is told after that.
pub proof fn lemma_unknown_producer_stops_the_run(
    config: ConfigView,
    producer: Seq<char>,
    routes: Seq<RouteView>,
    rest: Seq<ReplyView>,
)
    ensures
        ({
            let run = RunView::start(config, producer, routes);
            let next = run.receive(no_label(producer));
            &&& next.phase is Aborted
            &&& next.failure == Some(ImportErrorView::NotFound(producer))
            &&& next.outcomes == Seq::<OutcomeView>::empty()
            &&& run.calls(seq![no_label(producer)] + rest) == seq![producer_lookup(producer)]
        }),
{
    let run = RunView::start(config, producer, routes);
    let replies = seq![no_label(producer)] + rest;
    lemma_finished_run_is_silent(run.receive(replies[0]), replies.drop_first());
}

/// A failure to find the label of the producer, to get the token, or to ask
/// for the entities of a route stops the run. It makes no call after that.
pub proof fn lemma_failed_read_stops_the_run(
    run: RunView,
    error: ImportErrorView,
    rest: Seq<ReplyView>,
)
    requires
        run.phase is Producer || run.phase is Token || run.phase is Lines,
    ensures
        ({
            let next = run.receive(ReplyView::Failed(error));
            &&& next == run.abort(error)
            &&& next.failure == Some(error)
            &&& next.calls(rest) == Seq::<RequestView>::empty()
        }),
{
    lemma_finished_run_is_silent(run.receive(ReplyView::Failed(error)), rest);
}

/// Whether `create` creates the entity of the route of `run` at `i`, after
/// the question `asked` about that route was answered by `answer` with no
/// entity at all.
pub open spec fn creates_route_after_empty_answer(
    run: RunView,
    i: int,
    asked: RequestView,
    answer: ReplyView,
    create: RequestView,
) -> bool {
    &&& 0 <= i < run.routes.len()
    &&& asked == RequestView::Lines(line_query(run.config, run.producer, run.routes[i].id))
    &&& answer == ReplyView::Lines(Seq::empty())
    &&& create matches RequestView::Create { entity, .. }
    &&& entity.claims == route_claims(run.config, run.producer, run.routes[i])
}

/// Whether `create` creates the entity of a route of `run`, after the
/// question `asked` about the same route was answered by `answer` with no
/// entity at all.
pub open spec fn follows_empty_answer(
    run: RunView,
    asked: RequestView,
    answer: ReplyView,
    create: RequestView,
) -> bool {
    exists|i: int| creates_route_after_empty_answer(run, i, asked, answer, create)
}

/// A run creates an entity for a route only right after it has asked which
/// entities stand for that route, and was told that none does. This holds
/// whatever answers the run, and however long it goes on. (Of a run that is
/// taken up while it waits for a creation, it holds from the next call on.)
pub proof fn lemma_create_follows_empty_answer(run: RunView, replies: Seq<ReplyView>, k: int)
    requires
        run.wf(),
        0 <= k < run.calls(replies).len(),
        run.calls(replies)[k] is Create,
        k == 0 ==> !(run.phase is Write),
    ensures
        1 <= k <= replies.len(),
        follows_empty_answer(
            run,
            run.calls(replies)[k - 1],
            replies[k - 1],
            run.calls(replies)[k],
        ),
    decreases replies.len(),
{
    let calls = run.calls(replies);
    let next = run.receive(replies[0]);
    let rest = replies.drop_first();
    if k == 1 {
        assert(replies[0] matches ReplyView::Lines(lines) && lines =~= Seq::empty());
        assert(creates_route_after_empty_answer(
            run,
            run.position as int,
            calls[0],
            replies[0],
            calls[1],
        ));
    } else {
        lemma_create_follows_empty_answer(next, rest, k - 1);
        let asked = calls[k - 1];
        let answer = replies[k - 1];
        let create = calls[k];
        assert(follows_empty_answer(next, asked, answer, create));
        let i = choose|i: int| creates_route_after_empty_answer(next, i, asked, answer, create);
        assert(creates_route_after_empty_answer(run, i, asked, answer, create));
    }
}

/// An import in progress.
pub struct ImportRun {
    client: Client,
    producer: String,
    routes: Vec<Route>,
    phase: Phase,
    position: usize,
    producer_label: String,
    token: String,
    outcomes: Vec<RouteOutcome>,
    failure: Option<ImportError>,
}

impl View for ImportRun {
    type V = RunView;

    closed spec fn view(&self) -> RunView {
        RunView {
            config: self.client.config(),
            producer: self.producer@,
            routes: views(self.routes@),
            phase: self.phase,
            position: self.position as nat,
            producer_label: self.producer_label@,
            token: self.token@,
            outcomes: views(self.outcomes@),
            failure: match self.failure {
                Some(error) => Some(error@),
                None => None,
            },
        }
    }
}

impl Client {
    /// Starts the import of `routes` for `producer`, which is given by its
    /// identifier or by its name.
    pub fn import(&self, routes: Vec<Route>, producer: &str) -> (run: ImportRun)
        ensures
            run@ == RunView::start(self.config(), producer@, views(routes@)),
            run@.wf(),
    {
        let run = ImportRun {
            client: self.clone(),
            producer: String::from_str(producer),
            routes,
            phase: Phase::Producer,
            position: 0,
            producer_label: String::new(),
            token: String::new(),
            outcomes: Vec::new(),
            failure: None,
        };
        assert(run@.outcomes =~= Seq::empty());
        run
    }

    /// Starts the import of `routes` for the producer with the identifier
    /// `producer_id`, whose label is known to be `producer_name`.
    pub fn import_lines(&self, routes: Vec<Route>, producer_id: &str, producer_name: &str) -> (run:
        ImportRun)
        ensures
            run@ == RunView::start_with_label(
                self.config(),
                producer_id@,
                producer_name@,
                views(routes@),
            ),
            run@.wf(),
    {
        let run = ImportRun {
            client: self.clone(),
            producer: String::from_str(producer_id),
            routes,
            phase: Phase::Token,
            position: 0,
            producer_label: String::from_str(producer_name),
            token: String::new(),
            outcomes: Vec::new(),
            failure: None,
        };
        assert(run@.outcomes =~= Seq::empty());
        run
    }
}

impl ImportRun {
    #[verifier::type_invariant]
    spec fn well_formed(self) -> bool {
        self@.wf()
    }

    /// What the run waits for.
    pub fn phase(&self) -> (phase: Phase)
        ensures
            phase == self@.phase,
    {
        self.phase
    }

    /// Whether the run waits for nothing any more.
    pub fn is_finished(&self) -> (yes: bool)
        ensures
            yes == (self@.phase is Completed || self@.phase is Aborted),
    {
        match self.phase {
            Phase::Completed | Phase::Aborted => true,
            _ => false,
        }
    }

    /// The routes of the feed.
    pub fn routes(&self) -> (routes: &Vec<Route>)
        ensures
            views(routes@) == self@.routes,
    {
        &self.routes
    }

    /// How many routes have their outcome.
    pub fn position(&self) -> (position: usize)
        ensures
            position == self@.position,
    {
        self.position
    }

    /// The outcomes of the routes that have one, in the order of the feed.
    pub fn outcomes(&self) -> (outcomes: &Vec<RouteOutcome>)
        ensures
            views(outcomes@) == self@.outcomes,
    {
        &self.outcomes
    }

    /// Why the run stopped, if it did.
    pub fn failure(&self) -> (failure: Option<&ImportError>)
        ensures
            match failure {
                Some(error) => self@.failure == Some(error@),
                None => self@.failure is None,
            },
    {
        self.failure.as_ref()
    }

    /// The label of the producer. It is empty until the run has found it.
    pub fn producer_label(&self) -> (label: &String)
        ensures
            label@ == self@.producer_label,
    {
        &self.producer_label
    }

    /// The log line that announces the call, where the run waits for the
    /// creation of an entity.
    pub fn notice(&self) -> (notice: Option<String>)
        ensures
            notice is Some == (self@.phase is Write),
            notice matches Some(line) ==> line@ == insertion_notice(
                self@.routes[self@.position as int],
            ),
    {
        proof {
            use_type_invariant(self);
        }
        match self.phase {
            Phase::Write => {
                let mut line = name_line(&self.routes[self.position]);
                line.append(" does not exist, inserting");
                Some(line)
            },
            _ => None,
        }
    }

    /// The call that the run waits for, if it waits for one.
    pub fn request(&self) -> (call: Option<Request>)
        ensures
            match call {
                Some(request) => self@.request() == Some(request@),
                None => self@.request() is None,
            },
    {
        proof {
            use_type_invariant(self);
        }
        match self.phase {
            Phase::Producer => Some(
                self.client.sparql().get_producer_label(self.producer.as_str()),
            ),
            Phase::Token => Some(Request::Token),
            Phase::Lines => {
                let route = &self.routes[self.position];
                Some(
                    Request::Lines(
                        self.client.sparql().find_line(self.producer.as_str(), route.id.as_str()),
                    ),
                )
            },
            Phase::Write => {
                let route = &self.routes[self.position];
                Some(
                    Request::Create {
                        token: self.token.clone(),
                        entity: self.client.api().insert_route(
                            self.producer.as_str(),
                            self.producer_label.as_str(),
                            route,
                        ),
                    },
                )
            },
            Phase::Completed | Phase::Aborted => None,
        }
    }

    /// The run after `reply` has answered its call.
    pub fn receive(self, reply: Reply) -> (next: ImportRun)
        ensures
            next@ == self@.receive(reply@),
            next@.wf(),
    {
        proof {
            use_type_invariant(&self);
        }
        match self.phase {
            Phase::Producer => {
                match self.client.sparql().read_producer_label(self.producer.as_str(), reply) {
                    Ok(label) => ImportRun { phase: Phase::Token, producer_label: label, ..self },
                    Err(error) => self.abort(error),
                }
            },
            Phase::Token => match reply {
                Reply::Token(response) => {
                    let phase = self.phase_at(self.position);
                    ImportRun { phase, token: response.into_token(), ..self }
                },
                Reply::Failed(error) => self.abort(error),
                _ => self.abort(ImportError::unexpected()),
            },
            Phase::Lines => match reply {
                Reply::Lines(lines) => {
                    if lines.len() == 0 {
                        ImportRun { phase: Phase::Write, ..self }
                    } else if lines.len() == 1 {
                        self.record(RouteOutcome::SkippedExisting { id: lines[0].clone() })
                    } else {
                        self.record(RouteOutcome::SkippedAmbiguous { matches: lines.len() })
                    }
                },
                Reply::Failed(error) => self.abort(error),
                _ => self.abort(ImportError::unexpected()),
            },
            Phase::Write => {
                let outcome = match reply {
                    Reply::Created(response) => match response.into_result() {
                        Ok(id) => RouteOutcome::Inserted { id },
                        Err(error) => RouteOutcome::InsertFailed { error: ImportError::Api(error) },
                    },
                    Reply::Failed(error) => RouteOutcome::InsertFailed { error },
                    _ => RouteOutcome::InsertFailed { error: ImportError::unexpected() },
                };
                self.record(outcome)
            },
            Phase::Completed | Phase::Aborted => self,
        }
    }

    /// The phase of a run that is about to take the route at `position`.
    fn phase_at(&self, position: usize) -> (phase: Phase)
        ensures
            phase == self@.phase_at(position as nat),
    {
        if position < self.routes.len() {
            Phase::Lines
        } else {
            Phase::Completed
        }
    }

    /// The run, stopped on `error`.
    fn abort(self, error: ImportError) -> (next: ImportRun)
        ensures
            next@ == self@.abort(error@),
    {
        proof {
            use_type_invariant(&self);
        }
        ImportRun { phase: Phase::Aborted, failure: Some(error), ..self }
    }

    /// The run after the current route has got `outcome`.
    fn record(self, outcome: RouteOutcome) -> (next: ImportRun)
        requires
            self@.phase is Lines || self@.phase is Write,
        ensures
            next@ == self@.record(outcome@),
    {
        proof {
            use_type_invariant(&self);
            lemma_views_push(self.outcomes@, outcome);
            assert(self@.routes.len() == self.routes.len());
        }
        let phase = self.phase_at(self.position + 1);
        let position = self.position + 1;
        let ImportRun { client, producer, routes, producer_label, token, outcomes, failure, .. } =
            self;
        let mut outcomes = outcomes;
        outcomes.push(outcome);
        ImportRun {
            client,
            producer,
            routes,
            phase,
            position,
            producer_label,
            token,
            outcomes,
            failure,
        }
    }
}

} // verus!
