use transit_topo::api_structures::{Claim, Entity, SearchResponse, SearchResultItem};
use transit_topo::client::{
    ApiClient, Client, Config, Items, LineQuery, NewEntity, Properties, SparqlClient, Statement,
    FALLBACK_PHYSICAL_MODE,
};
use transit_topo::error::ImportError;
use transit_topo::exchange::{Reply, Request};
use transit_topo::feed::{Route, RouteType};

fn config() -> Config {
    Config {
        api_endpoint: "http://kb.example/api.php".to_string(),
        sparql_endpoint: "http://kb.example/sparql".to_string(),
        properties: Properties {
            produced_by: "P40".to_string(),
            instance_of: "P31".to_string(),
            physical_mode: "P50".to_string(),
            gtfs_short_name: "P60".to_string(),
            gtfs_long_name: "P61".to_string(),
            gtfs_id: "P70".to_string(),
        },
        items: Items { line: 11, producer: 16, bus: 20 },
    }
}

fn route(id: &str, short_name: &str, long_name: &str, route_type: RouteType) -> Route {
    Route {
        id: id.to_string(),
        short_name: short_name.to_string(),
        long_name: long_name.to_string(),
        route_type,
    }
}

fn item(property: &str, id: &str) -> Statement {
    Statement { property: property.to_string(), claim: Claim::item(id.to_string()) }
}

fn text(property: &str, value: &str) -> Statement {
    Statement { property: property.to_string(), claim: Claim::string(value.to_string()) }
}

#[test]
fn default_config_is_empty() {
    let config = Config::default();
    assert_eq!(config.api_endpoint, "");
    assert_eq!(config.sparql_endpoint, "");
    assert_eq!(config.properties, Properties::default());
    assert_eq!(config.properties.gtfs_id, "");
    assert_eq!(config.items, Items { line: 0, producer: 0, bus: 0 });
    assert_eq!(Items::default(), Items { line: 0, producer: 0, bus: 0 });
}

#[test]
fn config_copy_is_equal() {
    assert_eq!(config().clone(), config());
    assert_eq!(config().properties.clone(), config().properties);
}

#[test]
fn physical_mode_of_a_bus_is_the_configured_item() {
    assert_eq!(config().physical_mode(&route("R1", "12", "Downtown Loop", RouteType::Bus)), 20);
}

#[test]
fn physical_mode_of_anything_else_is_the_fallback() {
    assert_eq!(FALLBACK_PHYSICAL_MODE, 6);
    let others = [
        RouteType::Tramway,
        RouteType::Subway,
        RouteType::Rail,
        RouteType::Ferry,
        RouteType::CableCar,
        RouteType::Gondola,
        RouteType::Funicular,
        RouteType::Other(700),
        RouteType::Other(3),
    ];
    for route_type in others {
        assert_eq!(config().physical_mode(&route("R1", "12", "Downtown Loop", route_type)), 6);
    }
}

#[test]
fn client_keeps_the_config_on_both_sides() {
    let client = Client::new(config());
    assert_eq!(client.api().config, config());
    assert_eq!(client.sparql().config, config());
    let copy = client.clone();
    assert_eq!(copy.api().config, config());
    assert_eq!(copy.sparql().config, config());
    assert_eq!(ApiClient::new(config()).config, config());
    assert_eq!(SparqlClient::new(config()).config, config());
}

#[test]
fn bus_route_gets_its_six_claims() {
    let api = ApiClient::new(config());
    let entity =
        api.insert_route("Q42", "Metro North", &route("R1", "12", "Downtown Loop", RouteType::Bus));
    assert_eq!(
        entity,
        NewEntity {
            producer_label: "Metro North".to_string(),
            claims: vec![
                item("P31", "Q11"),
                item("P40", "Q42"),
                item("P50", "Q20"),
                text("P60", "12"),
                text("P61", "Downtown Loop"),
                text("P70", "R1"),
            ],
        }
    );
}

#[test]
fn other_route_gets_the_fallback_mode() {
    let api = ApiClient::new(config());
    let entity = api.insert_route("Q42", "Metro North", &route("T3", "", "", RouteType::Tramway));
    assert_eq!(
        entity.claims,
        vec![
            item("P31", "Q11"),
            item("P40", "Q42"),
            item("P50", "Q6"),
            text("P60", ""),
            text("P61", ""),
            text("P70", "T3"),
        ]
    );
}

#[test]
fn line_query_names_class_producer_and_feed_id() {
    let sparql = SparqlClient::new(config());
    assert_eq!(
        sparql.find_line("Q42", "R1"),
        LineQuery {
            instance_of: "P31".to_string(),
            line: "Q11".to_string(),
            produced_by: "P40".to_string(),
            producer: "Q42".to_string(),
            gtfs_id: "P70".to_string(),
            external_id: "R1".to_string(),
        }
    );
}

#[test]
fn line_query_selects_what_answers_all_three() {
    let query = SparqlClient::new(config()).find_line("Q42", "R1");
    let line = || {
        Entity::new("Q999".to_string())
            .with_claim("P31".to_string(), Claim::item("Q11".to_string()))
            .with_claim("P40".to_string(), Claim::item("Q42".to_string()))
            .with_claim("P70".to_string(), Claim::string("R1".to_string()))
    };
    assert!(query.selects(&line()));
    assert!(query.selects(&line().with_claim("P70".to_string(), Claim::string("R2".to_string()))));
    let mut gone = line();
    gone.missing = Some(String::new());
    assert!(!query.selects(&gone));
    // not a line
    assert!(!query.selects(
        &Entity::new("Q1".to_string())
            .with_claim("P31".to_string(), Claim::item("Q16".to_string()))
            .with_claim("P40".to_string(), Claim::item("Q42".to_string()))
            .with_claim("P70".to_string(), Claim::string("R1".to_string()))
    ));
    // of another producer
    assert!(!query.selects(
        &Entity::new("Q1".to_string())
            .with_claim("P31".to_string(), Claim::item("Q11".to_string()))
            .with_claim("P40".to_string(), Claim::item("Q43".to_string()))
            .with_claim("P70".to_string(), Claim::string("R1".to_string()))
    ));
    // another line of the feed
    assert!(!query.selects(
        &Entity::new("Q1".to_string())
            .with_claim("P31".to_string(), Claim::item("Q11".to_string()))
            .with_claim("P40".to_string(), Claim::item("Q42".to_string()))
            .with_claim("P70".to_string(), Claim::string("R2".to_string()))
    ));
    // the feed id as an item, not as a string
    assert!(!query.selects(
        &Entity::new("Q1".to_string())
            .with_claim("P31".to_string(), Claim::item("Q11".to_string()))
            .with_claim("P40".to_string(), Claim::item("Q42".to_string()))
            .with_claim("P70".to_string(), Claim::item("R1".to_string()))
    ));
    assert!(!query.selects(&Entity::new("Q1".to_string())));
}

#[test]
fn created_entity_is_stored_with_its_claims() {
    let api = ApiClient::new(config());
    let stored = api
        .insert_route("Q42", "Metro North", &route("R1", "12", "Downtown Loop", RouteType::Bus))
        .stored("Q999".to_string());
    assert_eq!(stored.id, "Q999");
    assert!(!stored.is_missing());
    assert_eq!(stored.claims_of("P31"), Some(&vec![Claim::item("Q11".to_string())]));
    assert_eq!(stored.claims_of("P40"), Some(&vec![Claim::item("Q42".to_string())]));
    assert_eq!(stored.claims_of("P50"), Some(&vec![Claim::item("Q20".to_string())]));
    assert_eq!(stored.claims_of("P60"), Some(&vec![Claim::string("12".to_string())]));
    assert_eq!(stored.claims_of("P61"), Some(&vec![Claim::string("Downtown Loop".to_string())]));
    assert_eq!(stored.claims_of("P70"), Some(&vec![Claim::string("R1".to_string())]));
    assert!(stored.claims_of("P111").is_none());
    assert!(stored.label("en").is_none());
    assert!(SparqlClient::new(config()).find_line("Q42", "R1").selects(&stored));
    assert!(!SparqlClient::new(config()).find_line("Q42", "R2").selects(&stored));
    assert!(!SparqlClient::new(config()).find_line("Q43", "R1").selects(&stored));
}

#[test]
fn stored_entity_groups_claims_of_one_property() {
    let entity = NewEntity {
        producer_label: String::new(),
        claims: vec![text("P101", "a"), text("P102", "b"), text("P101", "c"), item("P101", "Q1")],
    };
    let stored = entity.stored("Q5".to_string());
    assert_eq!(
        stored.claims_of("P101"),
        Some(&vec![
            Claim::string("a".to_string()),
            Claim::string("c".to_string()),
            Claim::item("Q1".to_string())
        ])
    );
    assert_eq!(stored.claims_of("P102"), Some(&vec![Claim::string("b".to_string())]));
    let empty = NewEntity { producer_label: String::new(), claims: vec![] };
    assert!(empty.stored("Q6".to_string()).claims_of("P101").is_none());
}

#[test]
fn producer_is_looked_up_by_identifier_or_by_name() {
    let sparql = SparqlClient::new(config());
    assert_eq!(
        sparql.get_producer_label("Q42"),
        Request::ProducerLabel { item: "Q42".to_string() }
    );
    assert_eq!(
        sparql.get_producer_label("Metro North"),
        Request::Search { text: "Metro North".to_string() }
    );
    assert_eq!(sparql.get_producer_label("Q"), Request::Search { text: "Q".to_string() });
    assert_eq!(sparql.get_producer_label(""), Request::Search { text: String::new() });
}

fn results(labels: &[&str]) -> Reply {
    Reply::Search(SearchResponse {
        search: labels
            .iter()
            .enumerate()
            .map(|(i, label)| SearchResultItem {
                id: format!("Q{}", i + 1),
                label: label.to_string(),
                url: String::new(),
            })
            .collect(),
    })
}

#[test]
fn producer_label_is_the_first_that_comes() {
    let sparql = SparqlClient::new(config());
    assert_eq!(
        sparql.read_producer_label(
            "Q42",
            Reply::Labels(vec!["Metro North".to_string(), "Metro Nord".to_string()])
        ),
        Ok("Metro North".to_string())
    );
    assert_eq!(
        sparql.read_producer_label("Metro", results(&["Metro North", "Metro South"])),
        Ok("Metro North".to_string())
    );
}

#[test]
fn producer_without_label_is_not_found() {
    let sparql = SparqlClient::new(config());
    assert_eq!(
        sparql.read_producer_label("Q42", Reply::Labels(vec![])),
        Err(ImportError::NotFound("Q42".to_string()))
    );
    assert_eq!(
        sparql.read_producer_label("Metro", results(&[])),
        Err(ImportError::NotFound("Metro".to_string()))
    );
}

#[test]
fn producer_lookup_passes_failures_on() {
    let sparql = SparqlClient::new(config());
    assert_eq!(
        sparql.read_producer_label(
            "Q42",
            Reply::Failed(ImportError::Transport("connection refused".to_string()))
        ),
        Err(ImportError::Transport("connection refused".to_string()))
    );
    assert_eq!(
        sparql.read_producer_label(
            "Metro",
            Reply::Failed(ImportError::Schema("no search field".to_string()))
        ),
        Err(ImportError::Schema("no search field".to_string()))
    );
}

#[test]
fn producer_lookup_refuses_the_wrong_answer() {
    let sparql = SparqlClient::new(config());
    let unexpected =
        Err(ImportError::Schema("not the answer to the call that was made".to_string()));
    assert_eq!(
        ImportError::unexpected(),
        ImportError::Schema("not the answer to the call that was made".to_string())
    );
    assert_eq!(sparql.read_producer_label("Q42", results(&["Metro North"])), unexpected);
    assert_eq!(
        sparql.read_producer_label("Metro", Reply::Labels(vec!["Metro North".to_string()])),
        unexpected
    );
    assert_eq!(sparql.read_producer_label("Q42", Reply::Lines(vec!["Q1".to_string()])), unexpected);
    assert_eq!(sparql.read_producer_label("Metro", Reply::Lines(vec![])), unexpected);
}
