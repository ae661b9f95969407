//! The shapes of what the knowledge base sends and receives: entities with
//! their claims and labels, search results, tokens, and the answer to a request
//! to create an entity.

use crate::views::{lemma_views_push, views};
use vstd::hash_map::StringHashMap;
use vstd::prelude::*;

verus! {

/// The typed value that a snak carries: a literal string, or a reference to
/// another entity by its identifier. There is no third kind.
#[derive(Debug, PartialEq, Eq)]
pub enum Datavalue {
    String(String),
    Item { id: String },
}

/// A `Datavalue` as a mathematical value.
pub enum DatavalueView {
    String(Seq<char>),
    Item { id: Seq<char> },
}

impl View for Datavalue {
    type V = DatavalueView;

    open spec fn view(&self) -> DatavalueView {
        match self {
            Datavalue::String(text) => DatavalueView::String(text@),
            Datavalue::Item { id } => DatavalueView::Item { id: id@ },
        }
    }
}

impl Clone for Datavalue {
    fn clone(&self) -> (copy: Self)
        ensures
            copy@ == self@,
    {
        match self {
            Datavalue::String(text) => Datavalue::String(text.clone()),
            Datavalue::Item { id } => Datavalue::Item { id: id.clone() },
        }
    }
}

impl Datavalue {
    /// Whether the two values are of the same kind and hold the same text.
    pub fn same(&self, other: &Datavalue) -> (yes: bool)
        ensures
            yes == (self@ == other@),
    {
        match (self, other) {
            (Datavalue::String(a), Datavalue::String(b)) => *a == *b,
            (Datavalue::Item { id: a }, Datavalue::Item { id: b }) => *a == *b,
            _ => false,
        }
    }
}

/// The part of a claim that bears the value.
#[derive(Debug, PartialEq, Eq)]
pub struct Snak {
    pub datavalue: Datavalue,
}

impl View for Snak {
    type V = DatavalueView;

    open spec fn view(&self) -> DatavalueView {
        self.datavalue@
    }
}

/// The assertion that a property has a value. Its one main snak carries it.
#[derive(Debug, PartialEq, Eq)]
pub struct Claim {
    pub mainsnak: Snak,
}

impl View for Claim {
    type V = DatavalueView;

    open spec fn view(&self) -> DatavalueView {
        self.mainsnak@
    }
}

impl Clone for Claim {
    fn clone(&self) -> (copy: Self)
        ensures
            copy@ == self@,
    {
        Claim { mainsnak: Snak { datavalue: self.mainsnak.datavalue.clone() } }
    }
}

impl Claim {
    /// The claim whose value is the literal `text`.
    pub fn string(text: String) -> (claim: Claim)
        ensures
            claim@ == DatavalueView::String(text@),
    {
        Claim { mainsnak: Snak { datavalue: Datavalue::String(text) } }
    }

    /// The claim whose value is the entity with identifier `id`.
    pub fn item(id: String) -> (claim: Claim)
        ensures
            claim@ == (DatavalueView::Item { id: id@ }),
    {
        Claim { mainsnak: Snak { datavalue: Datavalue::Item { id } } }
    }

    /// The value that the claim asserts.
    pub fn value(&self) -> (value: &Datavalue)
        ensures
            value@ == self@,
    {
        &self.mainsnak.datavalue
    }
}

/// The name of an entity in one language.
#[derive(Debug, PartialEq, Eq)]
pub struct Label {
    pub language: String,
    pub value: String,
}

/// A `Label` as a mathematical value.
pub struct LabelView {
    pub language: Seq<char>,
    pub value: Seq<char>,
}

impl View for Label {
    type V = LabelView;

    open spec fn view(&self) -> LabelView {
        LabelView { language: self.language@, value: self.value@ }
    }
}

/// A record of the knowledge base. Its claims are keyed by property, and a
/// property may be asserted several times. Where `missing` is present the
/// identifier names no entity, and whatever `claims` and `labels` hold counts
/// as absent.
pub struct Entity {
    pub id: String,
    pub claims: Option<StringHashMap<Vec<Claim>>>,
    pub labels: Option<StringHashMap<Label>>,
    pub missing: Option<String>,
}

/// An `Entity` as a mathematical value: what it asserts once the `missing`
/// marker has been taken into account.
pub struct EntityView {
    pub id: Seq<char>,
    pub missing: bool,
    pub claims: Map<Seq<char>, Seq<DatavalueView>>,
    pub labels: Map<Seq<char>, LabelView>,
}

impl EntityView {
    /// Whether the entity asserts `value` of `property`, once or more often.
    pub open spec fn has_claim(self, property: Seq<char>, value: DatavalueView) -> bool {
        self.claims.contains_key(property) && self.claims[property].contains(value)
    }
}

impl View for Entity {
    type V = EntityView;

    open spec fn view(&self) -> EntityView {
        EntityView {
            id: self.id@,
            missing: self.missing is Some,
            claims: match (self.missing, self.claims) {
                (None, Some(claims)) => claims@.map_values(|list: Vec<Claim>| views(list@)),
                _ => Map::empty(),
            },
            labels: match (self.missing, self.labels) {
                (None, Some(labels)) => labels@.map_values(|label: Label| label@),
                _ => Map::empty(),
            },
        }
    }
}

/// A copy of `claims`, claim by claim.
fn clone_claims(claims: &Vec<Claim>) -> (copy: Vec<Claim>)
    ensures
        views(copy@) == views(claims@),
{
    let mut copy: Vec<Claim> = Vec::new();
    let mut i: usize = 0;
    while i < claims.len()
        invariant
            i <= claims.len(),
            copy.len() == i,
            forall|j: int| 0 <= j < i ==> copy[j]@ == claims[j]@,
        decreases claims.len() - i,
    {
        copy.push(claims[i].clone());
        i = i + 1;
    }
    copy
}

impl Entity {
    /// An entity that exists and asserts nothing yet.
    pub fn new(id: String) -> (entity: Entity)
        ensures
            entity@ == (EntityView {
                id: id@,
                missing: false,
                claims: Map::empty(),
                labels: Map::empty(),
            }),
    {
        Entity { id, claims: None, labels: None, missing: None }
    }

    /// What the knowledge base answers for an identifier that names no entity.
    pub fn absent(id: String) -> (entity: Entity)
        ensures
            entity@ == (EntityView {
                id: id@,
                missing: true,
                claims: Map::empty(),
                labels: Map::empty(),
            }),
    {
        Entity { id, claims: None, labels: None, missing: Some(String::new()) }
    }

    /// Whether the identifier names no entity of the knowledge base.
    pub fn is_missing(&self) -> (yes: bool)
        ensures
            yes == self@.missing,
    {
        self.missing.is_some()
    }

    /// The claims that the entity makes of `property`, in their order, if it
    /// makes any.
    pub fn claims_of(&self, property: &str) -> (found: Option<&Vec<Claim>>)
        ensures
            found is Some == self@.claims.contains_key(property@),
            found matches Some(list) ==> views(list@) == self@.claims[property@],
    {
        if self.missing.is_some() {
            return None;
        }
        match &self.claims {
            Some(claims) => claims.get(property),
            None => None,
        }
    }

    /// The label of the entity in `language`, if it has one.
    pub fn label(&self, language: &str) -> (found: Option<&Label>)
        ensures
            found is Some == self@.labels.contains_key(language@),
            found matches Some(label) ==> label@ == self@.labels[language@],
    {
        if self.missing.is_some() {
            return None;
        }
        match &self.labels {
            Some(labels) => labels.get(language),
            None => None,
        }
    }

    /// Whether the entity asserts `value` of `property`.
    pub fn has_claim(&self, property: &str, value: &Datavalue) -> (yes: bool)
        ensures
            yes == self@.has_claim(property@, value@),
    {
        match self.claims_of(property) {
            None => false,
            Some(list) => {
                let mut i: usize = 0;
                while i < list.len()
                    invariant
                        i <= list.len(),
                        self@.claims.contains_key(property@),
                        views(list@) == self@.claims[property@],
                        forall|j: int| 0 <= j < i ==> list[j]@ != value@,
                    decreases list.len() - i,
                {
                    if list[i].value().same(value) {
                        assert(views(list@)[i as int] == value@);
                        return true;
                    }
                    i = i + 1;
                }
                false
            },
        }
    }

    /// The entity with one more claim: `claim` comes after the claims that it
    /// already makes of `property`. An entity that is marked missing stays as
    /// it is.
    pub fn with_claim(self, property: String, claim: Claim) -> (entity: Entity)
        ensures
            self@.missing ==> entity@ == self@,
            !self@.missing ==> entity@ == (EntityView {
                claims: self@.claims.insert(
                    property@,
                    if self@.claims.contains_key(property@) {
                        self@.claims[property@].push(claim@)
                    } else {
                        seq![claim@]
                    },
                ),
                ..self@
            }),
    {
        if self.missing.is_some() {
            return self;
        }
        let ghost before = self@;
        let Entity { id, claims, labels, missing } = self;
        let mut map = match claims {
            Some(map) => map,
            None => StringHashMap::new(),
        };
        let mut list = match map.get(property.as_str()) {
            Some(existing) => clone_claims(existing),
            None => Vec::new(),
        };
        let ghost old_list = list@;
        list.push(claim);
        proof {
            lemma_views_push(old_list, claim);
        }
        map.insert(property, list);
        let entity = Entity { id, claims: Some(map), labels, missing };
        proof {
            assert(entity@.claims =~= before.claims.insert(property@, views(list@)));
            if !before.claims.contains_key(property@) {
                assert(views(list@) =~= seq![claim@]);
            }
        }
        entity
    }

    /// The entity with `label` as its label in the language of `label`. An
    /// entity that is marked missing stays as it is.
    pub fn with_label(self, label: Label) -> (entity: Entity)
        ensures
            self@.missing ==> entity@ == self@,
            !self@.missing ==> entity@ == (EntityView {
                labels: self@.labels.insert(label.language@, label@),
                ..self@
            }),
    {
        if self.missing.is_some() {
            return self;
        }
        let ghost before = self@;
        let Entity { id, claims, labels, missing } = self;
        let mut map = match labels {
            Some(map) => map,
            None => StringHashMap::new(),
        };
        let ghost label_view = label@;
        let key = label.language.clone();
        map.insert(key, label);
        let entity = Entity { id, claims, labels: Some(map), missing };
        assert(entity@.labels =~= before.labels.insert(label_view.language, label_view));
        entity
    }
}

/// The answer to a request for entities, keyed by identifier.
pub struct EntityResponse {
    pub entities: StringHashMap<Entity>,
}

impl View for EntityResponse {
    type V = Map<Seq<char>, EntityView>;

    open spec fn view(&self) -> Map<Seq<char>, EntityView> {
        self.entities@.map_values(|entity: Entity| entity@)
    }
}

impl EntityResponse {
    /// The answer that holds no entity.
    pub fn new() -> (response: EntityResponse)
        ensures
            response@ == Map::<Seq<char>, EntityView>::empty(),
    {
        EntityResponse { entities: StringHashMap::new() }
    }

    /// The answer with `entity` under its own identifier.
    pub fn with_entity(self, entity: Entity) -> (response: EntityResponse)
        ensures
            response@ == self@.insert(entity.id@, entity@),
    {
        let EntityResponse { entities } = self;
        let mut entities = entities;
        let key = entity.id.clone();
        entities.insert(key, entity);
        EntityResponse { entities }
    }

    /// The entity that the answer holds under `id`, if any.
    pub fn entity(&self, id: &str) -> (found: Option<&Entity>)
        ensures
            found is Some == self@.contains_key(id@),
            found matches Some(entity) ==> entity@ == self@[id@],
    {
        self.entities.get(id)
    }
}

/// One result of a search by name.
#[derive(Debug, PartialEq, Eq)]
pub struct SearchResultItem {
    pub id: String,
    pub label: String,
    pub url: String,
}

/// A `SearchResultItem` as a mathematical value.
pub struct SearchResultItemView {
    pub id: Seq<char>,
    pub label: Seq<char>,
    pub url: Seq<char>,
}

impl View for SearchResultItem {
    type V = SearchResultItemView;

    open spec fn view(&self) -> SearchResultItemView {
        SearchResultItemView { id: self.id@, label: self.label@, url: self.url@ }
    }
}

/// The results of a search by name, the best match first.
#[derive(Debug, PartialEq, Eq)]
pub struct SearchResponse {
    pub search: Vec<SearchResultItem>,
}

impl View for SearchResponse {
    type V = Seq<SearchResultItemView>;

    open spec fn view(&self) -> Seq<SearchResultItemView> {
        views(self.search@)
    }
}

impl SearchResponse {
    /// The first result, if the search found anything.
    pub fn first(&self) -> (found: Option<&SearchResultItem>)
        ensures
            found is Some == (self@.len() > 0),
            found matches Some(item) ==> item@ == self@[0],
    {
        if self.search.len() > 0 {
            Some(&self.search[0])
        } else {
            None
        }
    }
}

/// The tokens that the knowledge base hands out.
#[derive(Debug, PartialEq, Eq)]
pub struct Tokens {
    pub csrftoken: String,
}

/// The part of a token answer that holds the tokens.
#[derive(Debug, PartialEq, Eq)]
pub struct TokenQuery {
    pub tokens: Tokens,
}

/// The answer to a request for a token.
#[derive(Debug, PartialEq, Eq)]
pub struct TokenResponse {
    pub query: TokenQuery,
}

impl View for TokenResponse {
    type V = Seq<char>;

    open spec fn view(&self) -> Seq<char> {
        self.query.tokens.csrftoken@
    }
}

impl TokenResponse {
    /// The token that authorises writing.
    pub fn into_token(self) -> (token: String)
        ensures
            token@ == self@,
    {
        self.query.tokens.csrftoken
    }
}

/// One machine-readable message of a rejection, with its parameters.
#[derive(Debug, PartialEq, Eq)]
pub struct Message {
    pub name: String,
    pub parameters: Vec<String>,
}

/// A `Message` as a mathematical value.
pub struct MessageView {
    pub name: Seq<char>,
    pub parameters: Seq<Seq<char>>,
}

impl View for Message {
    type V = MessageView;

    open spec fn view(&self) -> MessageView {
        MessageView { name: self.name@, parameters: views(self.parameters@) }
    }
}

/// A rejection by the knowledge base: its code, what it says to a human, and
/// its machine-readable messages.
#[derive(Debug, PartialEq, Eq)]
pub struct Error {
    pub code: String,
    pub info: String,
    pub messages: Vec<Message>,
}

/// An `Error` as a mathematical value.
pub struct ErrorView {
    pub code: Seq<char>,
    pub info: Seq<char>,
    pub messages: Seq<MessageView>,
}

impl View for Error {
    type V = ErrorView;

    open spec fn view(&self) -> ErrorView {
        ErrorView { code: self.code@, info: self.info@, messages: views(self.messages@) }
    }
}

/// The entity that a request to create one has made.
#[derive(Debug, PartialEq, Eq)]
pub struct InsertEntity {
    pub id: String,
}

/// What a request to create an entity is answered with: the entity, or a
/// rejection. There is no third answer.
#[derive(Debug, PartialEq, Eq)]
pub enum ApiResponseContent {
    Entity(InsertEntity),
    Error(Error),
}

/// An `ApiResponseContent` as a mathematical value.
pub enum ApiResponseContentView {
    Entity(Seq<char>),
    Error(ErrorView),
}

impl View for ApiResponseContent {
    type V = ApiResponseContentView;

    open spec fn view(&self) -> ApiResponseContentView {
        match self {
            ApiResponseContent::Entity(entity) => ApiResponseContentView::Entity(entity.id@),
            ApiResponseContent::Error(error) => ApiResponseContentView::Error(error@),
        }
    }
}

/// The answer to a request to create an entity.
#[derive(Debug, PartialEq, Eq)]
pub struct ApiResponse {
    pub content: ApiResponseContent,
}

impl View for ApiResponse {
    type V = ApiResponseContentView;

    open spec fn view(&self) -> ApiResponseContentView {
        self.content@
    }
}

impl ApiResponse {
    /// The identifier of the new entity, or the rejection as it came.
    pub fn into_result(self) -> (result: Result<String, Error>)
        ensures
            match self@ {
                ApiResponseContentView::Entity(id) => result is Ok && result->Ok_0@ == id,
                ApiResponseContentView::Error(error) => result is Err && result->Err_0@ == error,
            },
    {
        match self.content {
            ApiResponseContent::Entity(entity) => Ok(entity.id),
            ApiResponseContent::Error(error) => Err(error),
        }
    }
}

} // verus!
