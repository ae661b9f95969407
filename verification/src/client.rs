//! The configuration of an import, and the two sides of the knowledge base
//! that it talks to: the query service, which is read, and the API, which is
//! written to. Neither side performs a call: each states the call to make.

use crate::api_structures::{Claim, Datavalue, DatavalueView, Entity, EntityView};
use crate::feed::{Route, RouteType, RouteView};
use crate::identifiers::{item_id, item_id_text, lemma_item_id_is_injective};
use crate::views::views;
use vstd::prelude::*;

verus! {

/// The item that stands for every physical mode but the bus.
pub const FALLBACK_PHYSICAL_MODE: u64 = 6;

/// The properties of the knowledge base that describe a line, by identifier.
#[derive(Debug, PartialEq, Eq)]
pub struct Properties {
    pub produced_by: String,
    pub instance_of: String,
    pub physical_mode: String,
    pub gtfs_short_name: String,
    pub gtfs_long_name: String,
    pub gtfs_id: String,
}

/// `Properties` as a mathematical value.
pub struct PropertiesView {
    pub produced_by: Seq<char>,
    pub instance_of: Seq<char>,
    pub physical_mode: Seq<char>,
    pub gtfs_short_name: Seq<char>,
    pub gtfs_long_name: Seq<char>,
    pub gtfs_id: Seq<char>,
}

impl View for Properties {
    type V = PropertiesView;

    open spec fn view(&self) -> PropertiesView {
        PropertiesView {
            produced_by: self.produced_by@,
            instance_of: self.instance_of@,
            physical_mode: self.physical_mode@,
            gtfs_short_name: self.gtfs_short_name@,
            gtfs_long_name: self.gtfs_long_name@,
            gtfs_id: self.gtfs_id@,
        }
    }
}

impl Clone for Properties {
    fn clone(&self) -> (copy: Self)
        ensures
            copy@ == self@,
    {
        Properties {
            produced_by: self.produced_by.clone(),
            instance_of: self.instance_of.clone(),
            physical_mode: self.physical_mode.clone(),
            gtfs_short_name: self.gtfs_short_name.clone(),
            gtfs_long_name: self.gtfs_long_name.clone(),
            gtfs_id: self.gtfs_id.clone(),
        }
    }
}

impl Default for Properties {
    fn default() -> (properties: Self)
        ensures
            properties@ == (PropertiesView {
                produced_by: Seq::empty(),
                instance_of: Seq::empty(),
                physical_mode: Seq::empty(),
                gtfs_short_name: Seq::empty(),
                gtfs_long_name: Seq::empty(),
                gtfs_id: Seq::empty(),
            }),
    {
        Properties {
            produced_by: String::new(),
            instance_of: String::new(),
            physical_mode: String::new(),
            gtfs_short_name: String::new(),
            gtfs_long_name: String::new(),
            gtfs_id: String::new(),
        }
    }
}

/// The items of the knowledge base that the import refers to, by number: the
/// class of all lines, the class of all producers, and the bus.
#[derive(Debug, Clone, Copy, PartialEq, Eq)]
pub struct Items {
    pub line: u64,
    pub producer: u64,
    pub bus: u64,
}

impl Default for Items {
    fn default() -> (items: Self)
        ensures
            items == (Items { line: 0, producer: 0, bus: 0 }),
    {
        Items { line: 0, producer: 0, bus: 0 }
    }
}

/// Where the knowledge base is reached, and how its properties and items are
/// named.
#[derive(Debug, PartialEq, Eq)]
pub struct Config {
    pub api_endpoint: String,
    pub sparql_endpoint: String,
    pub properties: Properties,
    pub items: Items,
}

/// A `Config` as a mathematical value.
pub struct ConfigView {
    pub api_endpoint: Seq<char>,
    pub sparql_endpoint: Seq<char>,
    pub properties: PropertiesView,
    pub items: Items,
}

impl ConfigView {
    /// The item that describes the given transport mode: the configured bus
    /// item for a bus, one fixed item for every other mode.
    pub open spec fn physical_mode(self, route_type: RouteType) -> u64 {
        if route_type is Bus {
            self.items.bus
        } else {
            FALLBACK_PHYSICAL_MODE
        }
    }
}

impl View for Config {
    type V = ConfigView;

    open spec fn view(&self) -> ConfigView {
        ConfigView {
            api_endpoint: self.api_endpoint@,
            sparql_endpoint: self.sparql_endpoint@,
            properties: self.properties@,
            items: self.items,
        }
    }
}

impl Clone for Config {
    fn clone(&self) -> (copy: Self)
        ensures
            copy@ == self@,
    {
        Config {
            api_endpoint: self.api_endpoint.clone(),
            sparql_endpoint: self.sparql_endpoint.clone(),
            properties: self.properties.clone(),
            items: self.items,
        }
    }
}

impl Default for Config {
    fn default() -> (config: Self)
        ensures
            config@ == (ConfigView {
                api_endpoint: Seq::empty(),
                sparql_endpoint: Seq::empty(),
                properties: PropertiesView {
                    produced_by: Seq::empty(),
                    instance_of: Seq::empty(),
                    physical_mode: Seq::empty(),
                    gtfs_short_name: Seq::empty(),
                    gtfs_long_name: Seq::empty(),
                    gtfs_id: Seq::empty(),
                },
                items: Items { line: 0, producer: 0, bus: 0 },
            }),
    {
        Config {
            api_endpoint: String::new(),
            sparql_endpoint: String::new(),
            properties: Properties::default(),
            items: Items::default(),
        }
    }
}

impl Config {
    /// The item that describes the physical mode of `route`.
    pub fn physical_mode(&self, route: &Route) -> (item: u64)
        ensures
            item == self@.physical_mode(route.route_type),
    {
        match route.route_type {
            RouteType::Bus => self.items.bus,
            _ => FALLBACK_PHYSICAL_MODE,
        }
    }
}

/// A claim together with the property that it is made of.
#[derive(Debug, PartialEq, Eq)]
pub struct Statement {
    pub property: String,
    pub claim: Claim,
}

/// A `Statement` as a mathematical value.
pub struct StatementView {
    pub property: Seq<char>,
    pub value: DatavalueView,
}

impl View for Statement {
    type V = StatementView;

    open spec fn view(&self) -> StatementView {
        StatementView { property: self.property@, value: self.claim@ }
    }
}

/// The entity that is to be created for a route: what it claims, and the label
/// of the producer that it belongs to.
#[derive(Debug, PartialEq, Eq)]
pub struct NewEntity {
    pub producer_label: String,
    pub claims: Vec<Statement>,
}

/// A `NewEntity` as a mathematical value.
pub struct NewEntityView {
    pub producer_label: Seq<char>,
    pub claims: Seq<StatementView>,
}

impl View for NewEntity {
    type V = NewEntityView;

    open spec fn view(&self) -> NewEntityView {
        NewEntityView { producer_label: self.producer_label@, claims: views(self.claims@) }
    }
}

/// What the entity of `route` claims, in this order: that it is a line, who
/// produces it, its physical mode, its two names, and its identifier in the
/// feed.
pub open spec fn route_claims(config: ConfigView, producer: Seq<char>, route: RouteView) -> Seq<
    StatementView,
> {
    seq![
        StatementView {
            property: config.properties.instance_of,
            value: DatavalueView::Item { id: item_id_text(config.items.line as nat) },
        },
        StatementView {
            property: config.properties.produced_by,
            value: DatavalueView::Item { id: producer },
        },
        StatementView {
            property: config.properties.physical_mode,
            value: DatavalueView::Item {
                id: item_id_text(config.physical_mode(route.route_type) as nat),
            },
        },
        StatementView {
            property: config.properties.gtfs_short_name,
            value: DatavalueView::String(route.short_name),
        },
        StatementView {
            property: config.properties.gtfs_long_name,
            value: DatavalueView::String(route.long_name),
        },
        StatementView {
            property: config.properties.gtfs_id,
            value: DatavalueView::String(route.id),
        },
    ]
}

/// The entity of a route claims the configured bus item as its physical mode
/// where the route is a bus, and the fallback item where it is not. Unless the
/// two items are one, the claim tells the bus from the rest.
pub proof fn lemma_physical_mode_claim(config: ConfigView, producer: Seq<char>, route: RouteView)
    ensures
        ({
            let claim = route_claims(config, producer, route)[2];
            let bus = DatavalueView::Item { id: item_id_text(config.items.bus as nat) };
            let other = DatavalueView::Item { id: item_id_text(FALLBACK_PHYSICAL_MODE as nat) };
            &&& claim.property == config.properties.physical_mode
            &&& route.route_type is Bus ==> claim.value == bus
            &&& !(route.route_type is Bus) ==> claim.value == other
            &&& config.items.bus != FALLBACK_PHYSICAL_MODE ==> (claim.value == bus
                <==> route.route_type is Bus)
        }),
{
    if config.items.bus != FALLBACK_PHYSICAL_MODE && !(route.route_type is Bus) {
        if item_id_text(FALLBACK_PHYSICAL_MODE as nat) == item_id_text(config.items.bus as nat) {
            lemma_item_id_is_injective(FALLBACK_PHYSICAL_MODE as nat, config.items.bus as nat);
        }
    }
}

/// The entity that is to be created for `route`.
pub open spec fn route_entity(
    config: ConfigView,
    producer: Seq<char>,
    producer_label: Seq<char>,
    route: RouteView,
) -> NewEntityView {
    NewEntityView { producer_label, claims: route_claims(config, producer, route) }
}

/// The question whether the knowledge base holds the line of a producer that a
/// feed knows under `external_id`. Its answer binds `line` to the identifier of
/// each entity that it selects.
#[derive(Debug, PartialEq, Eq)]
pub struct LineQuery {
    /// The property that says what an entity is an instance of.
    pub instance_of: String,
    /// The identifier of the class of all lines.
    pub line: String,
    /// The property that names the producer of a line.
    pub produced_by: String,
    /// The identifier of the producer.
    pub producer: String,
    /// The property that holds the identifier of a line in the feed.
    pub gtfs_id: String,
    /// The identifier of the line in the feed.
    pub external_id: String,
}

/// A `LineQuery` as a mathematical value.
pub struct LineQueryView {
    pub instance_of: Seq<char>,
    pub line: Seq<char>,
    pub produced_by: Seq<char>,
    pub producer: Seq<char>,
    pub gtfs_id: Seq<char>,
    pub external_id: Seq<char>,
}

impl LineQueryView {
    /// Whether the query selects `entity`: it is a line, of that producer, with
    /// that identifier in the feed.
    pub open spec fn selects(self, entity: EntityView) -> bool {
        &&& entity.has_claim(self.instance_of, DatavalueView::Item { id: self.line })
        &&& entity.has_claim(self.produced_by, DatavalueView::Item { id: self.producer })
        &&& entity.has_claim(self.gtfs_id, DatavalueView::String(self.external_id))
    }
}

impl View for LineQuery {
    type V = LineQueryView;

    open spec fn view(&self) -> LineQueryView {
        LineQueryView {
            instance_of: self.instance_of@,
            line: self.line@,
            produced_by: self.produced_by@,
            producer: self.producer@,
            gtfs_id: self.gtfs_id@,
            external_id: self.external_id@,
        }
    }
}

/// The query for the line that `producer` runs and a feed knows as
/// `external_id`.
pub open spec fn line_query(config: ConfigView, producer: Seq<char>, external_id: Seq<char>)
    -> LineQueryView {
    LineQueryView {
        instance_of: config.properties.instance_of,
        line: item_id_text(config.items.line as nat),
        produced_by: config.properties.produced_by,
        producer,
        gtfs_id: config.properties.gtfs_id,
        external_id,
    }
}

impl LineQuery {
    /// Whether the query selects `entity`.
    pub fn selects(&self, entity: &Entity) -> (yes: bool)
        ensures
            yes == self@.selects(entity@),
    {
        let line = Datavalue::Item { id: self.line.clone() };
        let producer = Datavalue::Item { id: self.producer.clone() };
        let external_id = Datavalue::String(self.external_id.clone());
        entity.has_claim(self.instance_of.as_str(), &line) && entity.has_claim(
            self.produced_by.as_str(),
            &producer,
        ) && entity.has_claim(self.gtfs_id.as_str(), &external_id)
    }
}

/// The side of the knowledge base that is written to.
#[derive(Debug, PartialEq, Eq)]
pub struct ApiClient {
    pub config: Config,
}

impl ApiClient {
    /// The write side of the knowledge base that `config` describes.
    pub fn new(config: Config) -> (client: ApiClient)
        ensures
            client.config == config,
    {
        ApiClient { config }
    }

    /// The entity to create for `route`, which `producer_id` produces.
    pub fn insert_route(&self, producer_id: &str, producer_name: &str, route: &Route) -> (entity:
        NewEntity)
        ensures
            entity@ == route_entity(self.config@, producer_id@, producer_name@, route@),
    {
        let properties = &self.config.properties;
        let mut claims: Vec<Statement> = Vec::new();
        claims.push(
            Statement {
                property: properties.instance_of.clone(),
                claim: Claim::item(item_id(self.config.items.line)),
            },
        );
        claims.push(
            Statement {
                property: properties.produced_by.clone(),
                claim: Claim::item(String::from_str(producer_id)),
            },
        );
        claims.push(
            Statement {
                property: properties.physical_mode.clone(),
                claim: Claim::item(item_id(self.config.physical_mode(route))),
            },
        );
        claims.push(
            Statement {
                property: properties.gtfs_short_name.clone(),
                claim: Claim::string(route.short_name.clone()),
            },
        );
        claims.push(
            Statement {
                property: properties.gtfs_long_name.clone(),
                claim: Claim::string(route.long_name.clone()),
            },
        );
        claims.push(
            Statement {
                property: properties.gtfs_id.clone(),
                claim: Claim::string(route.id.clone()),
            },
        );
        assert(views(claims@) =~= route_claims(self.config@, producer_id@, route@));
        NewEntity { producer_label: String::from_str(producer_name), claims }
    }
}

/// The side of the knowledge base that is read.
#[derive(Debug, PartialEq, Eq)]
pub struct SparqlClient {
    pub config: Config,
}

impl SparqlClient {
    /// The read side of the knowledge base that `config` describes.
    pub fn new(config: Config) -> (client: SparqlClient)
        ensures
            client.config == config,
    {
        SparqlClient { config }
    }

    /// The query for the line that `producer_id` runs and the feed knows as
    /// `route_id`.
    pub fn find_line(&self, producer_id: &str, route_id: &str) -> (query: LineQuery)
        ensures
            query@ == line_query(self.config@, producer_id@, route_id@),
    {
        LineQuery {
            instance_of: self.config.properties.instance_of.clone(),
            line: item_id(self.config.items.line),
            produced_by: self.config.properties.produced_by.clone(),
            producer: String::from_str(producer_id),
            gtfs_id: self.config.properties.gtfs_id.clone(),
            external_id: String::from_str(route_id),
        }
    }
}

/// The two sides of one knowledge base, under one configuration.
pub struct Client {
    pub(crate) api: ApiClient,
    pub(crate) sparql: SparqlClient,
}

impl Client {
    #[verifier::type_invariant]
    spec fn same_config(self) -> bool {
        self.api.config@ == self.sparql.config@
    }

    /// The configuration that both sides work under.
    pub closed spec fn config(self) -> ConfigView {
        self.api.config@
    }

    /// The client of the knowledge base that `config` describes.
    pub fn new(config: Config) -> (client: Client)
        ensures
            client.config() == config@,
    {
        Client { api: ApiClient::new(config.clone()), sparql: SparqlClient::new(config) }
    }

    /// The side that is written to.
    pub fn api(&self) -> (api: &ApiClient)
        ensures
            api.config@ == self.config(),
    {
        &self.api
    }

    /// The side that is read.
    pub fn sparql(&self) -> (sparql: &SparqlClient)
        ensures
            sparql.config@ == self.config(),
    {
        proof {
            use_type_invariant(self);
        }
        &self.sparql
    }
}

impl Clone for Client {
    fn clone(&self) -> (copy: Self)
        ensures
            copy.config() == self.config(),
    {
        Client::new(self.api.config.clone())
    }
}

} // verus!
