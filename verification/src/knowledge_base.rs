//! A model of the knowledge base, to say what an import does to it: it holds
//! entities, answers the question which of them stand for a line, and keeps
//! every entity that it is asked to create.

use crate::api_structures::{ApiResponseContentView, DatavalueView, EntityView};
use crate::api_structures::Entity;
use crate::client::{
    line_query, route_entity, ConfigView, LineQueryView, NewEntity, NewEntityView, StatementView,
};
use crate::exchange::{ReplyView, RequestView};
use crate::feed::RouteView;
use crate::import::{OutcomeView, Phase, RunView};
use vstd::prelude::*;

verus! {

impl NewEntityView {
    /// Whether the entity claims anything of `property`.
    pub open spec fn mentions(self, property: Seq<char>) -> bool {
        exists|i: int|
            0 <= i < self.claims.len() && (#[trigger] self.claims[i]).property == property
    }

    /// What the entity claims of `property`, in the order of its claims.
    pub open spec fn claims_of(self, property: Seq<char>) -> Seq<DatavalueView> {
        self.claims.filter(|claim: StatementView| claim.property == property).map_values(
            |claim: StatementView| claim.value,
        )
    }

    /// The entity as the knowledge base holds it under the identifier `id`.
    pub open spec fn stored(self, id: Seq<char>) -> EntityView {
        EntityView {
            id,
            missing: false,
            claims: Map::new(
                |property: Seq<char>| self.mentions(property),
                |property: Seq<char>| self.claims_of(property),
            ),
            labels: Map::empty(),
        }
    }
}

/// The entities that a knowledge base holds, the oldest first.
pub struct KnowledgeBase {
    pub entities: Seq<EntityView>,
}

/// A knowledge base, an import that it has served, and the calls that the
/// import made on the way.
pub struct Session {
    pub base: KnowledgeBase,
    pub run: RunView,
    pub calls: Seq<RequestView>,
}

impl RunView {
    /// The most calls that the routes without an outcome can still take.
    pub open spec fn route_calls_left(self) -> nat {
        match self.phase {
            Phase::Lines => (2 * (self.routes.len() - self.position)) as nat,
            Phase::Write => (2 * (self.routes.len() - self.position) - 1) as nat,
            _ => 0,
        }
    }
}

impl KnowledgeBase {
    /// The identifiers of the entities that `query` selects, the oldest first.
    pub open spec fn lines(self, query: LineQueryView) -> Seq<Seq<char>> {
        self.entities.filter(|entity: EntityView| query.selects(entity)).map_values(
            |entity: EntityView| entity.id,
        )
    }

    /// The knowledge base after it has created `entity` under the identifier
    /// `id`.
    pub open spec fn create(self, id: Seq<char>, entity: NewEntityView) -> KnowledgeBase {
        KnowledgeBase { entities: self.entities.push(entity.stored(id)) }
    }

    /// The routes of `run` imported into this knowledge base. The knowledge
    /// base answers each question about a line from what it holds, and creates
    /// each entity that it is asked for: the one that comes when it holds `n`
    /// entities gets the identifier `ids(n)`. The session ends where the run
    /// asks for something else, or for nothing.
    pub open spec fn import(self, run: RunView, ids: spec_fn(nat) -> Seq<char>) -> Session
        decreases run.route_calls_left(),
        when run.wf()
    {
        match run.request() {
            Some(RequestView::Lines(query)) => {
                let rest = self.import(run.receive(ReplyView::Lines(self.lines(query))), ids);
                Session { calls: seq![RequestView::Lines(query)] + rest.calls, ..rest }
            },
            Some(RequestView::Create { token, entity }) => {
                let id = ids(self.entities.len());
                let rest = self.create(id, entity).import(
                    run.receive(ReplyView::Created(ApiResponseContentView::Entity(id))),
                    ids,
                );
                Session { calls: seq![RequestView::Create { token, entity }] + rest.calls, ..rest }
            },
            _ => Session { base: self, run, calls: Seq::empty() },
        }
    }
}

/// Whether `calls` holds a call that creates an entity.
pub open spec fn creates_any(calls: Seq<RequestView>) -> bool {
    exists|i: int| 0 <= i < calls.len() && (#[trigger] calls[i]) is Create
}

/// Whether this knowledge base holds a line for each route of `run` from
/// `first` on.
pub open spec fn holds_lines_from(base: KnowledgeBase, run: RunView, first: int) -> bool {
    forall|i: int|
        first <= i < run.routes.len() ==> (#[trigger] base.lines(
            line_query(run.config, run.producer, run.routes[i].id),
        )).len() >= 1
}

/// An entity claims nothing of a property that it does not mention.
pub proof fn lemma_unmentioned_property_has_no_claims(entity: NewEntityView, property: Seq<char>)
    requires
        !entity.mentions(property),
    ensures
        entity.claims_of(property) == Seq::<DatavalueView>::empty(),
{
    let about = |claim: StatementView| claim.property == property;
    let kept = entity.claims.filter(about);
    if kept.len() > 0 {
        entity.claims.lemma_filter_pred(about, 0);
        entity.claims.lemma_filter_contains_rev(about, kept[0]);
    }
}

/// What one more claim does to the stored entity: it comes after the claims
/// that the entity makes of the same property already.
pub proof fn lemma_stored_with_one_more_claim(
    entity: NewEntityView,
    claim: StatementView,
    id: Seq<char>,
)
    ensures
        ({
            let before = entity.stored(id);
            let longer = NewEntityView { claims: entity.claims.push(claim), ..entity };
            longer.stored(id) == (EntityView {
                claims: before.claims.insert(
                    claim.property,
                    if before.claims.contains_key(claim.property) {
                        before.claims[claim.property].push(claim.value)
                    } else {
                        seq![claim.value]
                    },
                ),
                ..before
            })
        }),
{
    let before = entity.stored(id);
    let longer = NewEntityView { claims: entity.claims.push(claim), ..entity };
    let list = if before.claims.contains_key(claim.property) {
        before.claims[claim.property].push(claim.value)
    } else {
        seq![claim.value]
    };
    let expected = before.claims.insert(claim.property, list);
    let value_of = |claim: StatementView| claim.value;
    assert forall|property: Seq<char>|
        longer.mentions(property) == expected.contains_key(property) by {
        if entity.mentions(property) {
            let i = choose|i: int|
                0 <= i < entity.claims.len() && (#[trigger] entity.claims[i]).property == property;
            assert(longer.claims[i].property == property);
        }
        if property == claim.property {
            assert(longer.claims[entity.claims.len() as int].property == property);
        }
    }
    assert forall|property: Seq<char>| longer.mentions(property) implies longer.claims_of(property)
        == expected[property] by {
        let about = |claim: StatementView| claim.property == property;
        entity.claims.lemma_filter_push(claim, about);
        if property == claim.property {
            entity.claims.filter(about).lemma_push_map_commute(value_of, claim);
            if !entity.mentions(property) {
                lemma_unmentioned_property_has_no_claims(entity, property);
            }
        }
    }
    assert(longer.stored(id).claims =~= expected);
}

/// An entity, once stored, asserts each of its claims.
pub proof fn lemma_stored_entity_keeps_claims(entity: NewEntityView, id: Seq<char>, i: int)
    requires
        0 <= i < entity.claims.len(),
    ensures
        entity.stored(id).has_claim(entity.claims[i].property, entity.claims[i].value),
{
    let property = entity.claims[i].property;
    let about = |claim: StatementView| claim.property == property;
    let value_of = |claim: StatementView| claim.value;
    entity.claims.lemma_filter_contains(about, i);
    let kept = entity.claims.filter(about);
    let k = choose|k: int| 0 <= k < kept.len() && kept[k] == entity.claims[i];
    assert(kept.map_values(value_of)[k] == entity.claims[i].value);
}

/// The entity that an import creates for a route is one that the question
/// about that route selects.
pub proof fn lemma_created_line_is_selected(
    config: ConfigView,
    producer: Seq<char>,
    producer_label: Seq<char>,
    route: RouteView,
    id: Seq<char>,
)
    ensures
        line_query(config, producer, route.id).selects(
            route_entity(config, producer, producer_label, route).stored(id),
        ),
{
    let entity = route_entity(config, producer, producer_label, route);
    lemma_stored_entity_keeps_claims(entity, id, 0);
    lemma_stored_entity_keeps_claims(entity, id, 1);
    lemma_stored_entity_keeps_claims(entity, id, 5);
}

/// What a knowledge base answers after it has created an entity: what it
/// answered before, and the new entity after that where the query selects it.
pub proof fn lemma_lines_after_create(
    base: KnowledgeBase,
    id: Seq<char>,
    entity: NewEntityView,
    query: LineQueryView,
)
    ensures
        base.create(id, entity).lines(query) == if query.selects(entity.stored(id)) {
            base.lines(query).push(id)
        } else {
            base.lines(query)
        },
{
    let selected = |entity: EntityView| query.selects(entity);
    let id_of = |entity: EntityView| entity.id;
    base.entities.lemma_filter_push(entity.stored(id), selected);
    if query.selects(entity.stored(id)) {
        base.entities.filter(selected).lemma_push_map_commute(id_of, entity.stored(id));
    }
}

/// An import leaves a knowledge base that holds a line for each route that was
/// still to come, and has lost nothing: whatever a query selected before, it
/// selects as much after. The import completes.
pub proof fn lemma_import_fills_the_base(
    base: KnowledgeBase,
    run: RunView,
    ids: spec_fn(nat) -> Seq<char>,
)
    requires
        run.wf(),
        run.phase is Lines || run.phase is Write || run.phase is Completed,
    ensures
        base.import(run, ids).run.phase is Completed,
        holds_lines_from(base.import(run, ids).base, run, run.position as int),
        forall|query: LineQueryView| #[trigger]
            base.import(run, ids).base.lines(query).len() >= base.lines(query).len(),
    decreases run.route_calls_left(),
{
    let end = base.import(run, ids);
    match run.request() {
        Some(RequestView::Lines(query)) => {
            lemma_import_fills_the_base(
                base,
                run.receive(ReplyView::Lines(base.lines(query))),
                ids,
            );
        },
        Some(RequestView::Create { token, entity }) => {
            let id = ids(base.entities.len());
            let grown = base.create(id, entity);
            let next = run.receive(ReplyView::Created(ApiResponseContentView::Entity(id)));
            lemma_import_fills_the_base(grown, next, ids);
            let route = run.routes[run.position as int];
            let query = line_query(run.config, run.producer, route.id);
            lemma_created_line_is_selected(
                run.config,
                run.producer,
                run.producer_label,
                route,
                id,
            );
            lemma_lines_after_create(base, id, entity, query);
            assert forall|other: LineQueryView| #[trigger]
                end.base.lines(other).len() >= base.lines(other).len() by {
                lemma_lines_after_create(base, id, entity, other);
            }
        },
        _ => {},
    }
}

/// An import into a knowledge base that holds a line for each route that is
/// still to come creates nothing and changes nothing: it records each of those
/// routes as skipped, and completes.
pub proof fn lemma_import_of_known_lines_creates_nothing(
    base: KnowledgeBase,
    run: RunView,
    ids: spec_fn(nat) -> Seq<char>,
)
    requires
        run.wf(),
        run.phase is Lines || run.phase is Completed,
        holds_lines_from(base, run, run.position as int),
    ensures
        !creates_any(base.import(run, ids).calls),
        base.import(run, ids).base == base,
        base.import(run, ids).run.phase is Completed,
        base.import(run, ids).run.outcomes.len() == run.routes.len(),
        forall|i: int|
            run.position <= i < run.routes.len() ==> {
                let outcome = #[trigger] base.import(run, ids).run.outcomes[i];
                outcome is SkippedExisting || outcome is SkippedAmbiguous
            },
        forall|i: int|
            0 <= i < run.position ==> #[trigger] base.import(run, ids).run.outcomes[i]
                == run.outcomes[i],
    decreases run.route_calls_left(),
{
    let end = base.import(run, ids);
    match run.request() {
        Some(RequestView::Lines(query)) => {
            let next = run.receive(ReplyView::Lines(base.lines(query)));
            lemma_import_of_known_lines_creates_nothing(base, next, ids);
            assert(next.outcomes[run.position as int] is SkippedExisting
                || next.outcomes[run.position as int] is SkippedAmbiguous);
        },
        _ => {},
    }
}

/// Importing a feed a second time creates nothing.
///
/// Take a knowledge base in any state, a feed and a producer. Start an import
/// and let anything answer its calls for the label of the producer and for the
/// token. Import the routes. Then do the same again, with the same answers to
/// the first two calls, into the knowledge base that the first import left.
/// The second import makes no call that creates an entity and leaves the
/// knowledge base as it found it. Unless it stopped before the routes, it
/// records every route as skipped.
pub proof fn lemma_second_import_creates_nothing(
    base: KnowledgeBase,
    config: ConfigView,
    producer: Seq<char>,
    routes: Seq<RouteView>,
    label_answer: ReplyView,
    token_answer: ReplyView,
    ids: spec_fn(nat) -> Seq<char>,
)
    ensures
        ({
            let started = RunView::start(config, producer, routes);
            let labelled = started.receive(label_answer);
            let ready = labelled.receive(token_answer);
            let first = base.import(ready, ids);
            let second = first.base.import(ready, ids);
            &&& !started.creates()
            &&& !labelled.creates()
            &&& !creates_any(second.calls)
            &&& second.base == first.base
            &&& ready.phase is Aborted ==> second.run == ready
            &&& !(ready.phase is Aborted) ==> {
                &&& first.run.phase is Completed
                &&& second.run.phase is Completed
                &&& second.run.outcomes.len() == routes.len()
                &&& forall|i: int|
                    0 <= i < routes.len() ==> {
                        let outcome = #[trigger] second.run.outcomes[i];
                        outcome is SkippedExisting || outcome is SkippedAmbiguous
                    }
            }
        }),
{
    let started = RunView::start(config, producer, routes);
    let labelled = started.receive(label_answer);
    let ready = labelled.receive(token_answer);
    if ready.phase is Aborted {
    } else {
        lemma_import_fills_the_base(base, ready, ids);
        lemma_import_of_known_lines_creates_nothing(base.import(ready, ids).base, ready, ids);
    }
}

impl NewEntity {
    /// The entity as a knowledge base holds it once it has created it under
    /// the identifier `id`.
    pub fn stored(&self, id: String) -> (entity: Entity)
        ensures
            entity@ == self@.stored(id@),
    {
        let ghost name = id@;
        let mut entity = Entity::new(id);
        let mut i: usize = 0;
        assert(entity@.claims =~= (NewEntityView {
            claims: self@.claims.take(0),
            ..self@
        }).stored(name).claims);
        while i < self.claims.len()
            invariant
                i <= self.claims.len(),
                entity@ == (NewEntityView {
                    claims: self@.claims.take(i as int),
                    ..self@
                }).stored(name),
            decreases self.claims.len() - i,
        {
            let statement = &self.claims[i];
            proof {
                let so_far = NewEntityView { claims: self@.claims.take(i as int), ..self@ };
                lemma_stored_with_one_more_claim(so_far, statement@, name);
                assert(self@.claims.take(i as int).push(statement@) =~= self@.claims.take(i + 1));
            }
            entity = entity.with_claim(statement.property.clone(), statement.claim.clone());
            i = i + 1;
        }
        assert(self@.claims.take(self.claims.len() as int) =~= self@.claims);
        entity
    }
}

} // verus!
