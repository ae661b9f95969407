use transit_topo::api_structures::{
    ApiResponse, ApiResponseContent, Claim, Datavalue, Entity, EntityResponse, Error, InsertEntity,
    Label, Message, SearchResponse, SearchResultItem, Snak, TokenQuery, TokenResponse, Tokens,
};

fn text(s: &str) -> Datavalue {
    Datavalue::String(s.to_string())
}

fn item(s: &str) -> Datavalue {
    Datavalue::Item { id: s.to_string() }
}

fn label(language: &str, value: &str) -> Label {
    Label { language: language.to_string(), value: value.to_string() }
}

#[test]
fn datavalues_are_the_same_by_kind_and_text() {
    assert!(text("12").same(&text("12")));
    assert!(item("Q12").same(&item("Q12")));
    assert!(!text("12").same(&text("13")));
    assert!(!item("Q12").same(&item("Q13")));
    assert!(!text("Q12").same(&item("Q12")));
    assert!(!item("Q12").same(&text("Q12")));
}

#[test]
fn datavalue_copy_is_the_same() {
    assert_eq!(text("12").clone(), text("12"));
    assert_eq!(item("Q12").clone(), item("Q12"));
}

#[test]
fn claim_carries_one_value() {
    assert_eq!(
        Claim::string("Downtown Loop".to_string()),
        Claim { mainsnak: Snak { datavalue: text("Downtown Loop") } }
    );
    assert_eq!(Claim::item("Q5".to_string()), Claim { mainsnak: Snak { datavalue: item("Q5") } });
    assert_eq!(Claim::item("Q5".to_string()).value(), &item("Q5"));
    assert_eq!(Claim::string("a".to_string()).clone(), Claim::string("a".to_string()));
}

#[test]
fn new_entity_asserts_nothing() {
    let entity = Entity::new("Q1".to_string());
    assert_eq!(entity.id, "Q1");
    assert!(!entity.is_missing());
    assert!(entity.claims_of("P101").is_none());
    assert!(entity.label("en").is_none());
    assert!(!entity.has_claim("P101", &item("Q5")));
}

#[test]
fn entity_keeps_claims_by_property_in_order() {
    let entity = Entity::new("Q1".to_string())
        .with_claim("P102".to_string(), Claim::item("Q5".to_string()))
        .with_claim("P103".to_string(), Claim::string("first".to_string()))
        .with_claim("P103".to_string(), Claim::string("second".to_string()));
    assert_eq!(entity.claims_of("P102"), Some(&vec![Claim::item("Q5".to_string())]));
    assert_eq!(
        entity.claims_of("P103"),
        Some(&vec![Claim::string("first".to_string()), Claim::string("second".to_string())])
    );
    assert!(entity.claims_of("P40").is_none());
    assert!(entity.has_claim("P102", &item("Q5")));
    assert!(entity.has_claim("P103", &text("first")));
    assert!(entity.has_claim("P103", &text("second")));
    assert!(!entity.has_claim("P103", &text("third")));
    assert!(!entity.has_claim("P103", &item("first")));
    assert!(!entity.has_claim("P102", &text("Q5")));
    assert!(!entity.has_claim("P40", &item("Q5")));
}

#[test]
fn entity_has_one_label_per_language() {
    let entity = Entity::new("Q1".to_string())
        .with_label(label("en", "Line 12"))
        .with_label(label("fr", "Ligne 12"))
        .with_label(label("en", "Route 12"));
    assert_eq!(entity.label("en"), Some(&label("en", "Route 12")));
    assert_eq!(entity.label("fr"), Some(&label("fr", "Ligne 12")));
    assert!(entity.label("de").is_none());
}

#[test]
fn missing_entity_asserts_nothing_whatever_it_holds() {
    let mut entity = Entity::new("Q1".to_string())
        .with_claim("P102".to_string(), Claim::item("Q5".to_string()))
        .with_label(label("en", "Line 12"));
    assert!(entity.has_claim("P102", &item("Q5")));
    entity.missing = Some(String::new());
    assert!(entity.is_missing());
    assert!(entity.claims.is_some());
    assert!(entity.labels.is_some());
    assert!(entity.claims_of("P102").is_none());
    assert!(entity.label("en").is_none());
    assert!(!entity.has_claim("P102", &item("Q5")));
}

#[test]
fn absent_entity_stays_as_it_is() {
    let entity = Entity::absent("Q404".to_string());
    assert!(entity.is_missing());
    let entity = entity
        .with_claim("P102".to_string(), Claim::item("Q5".to_string()))
        .with_label(label("en", "Line 12"));
    assert!(entity.is_missing());
    assert_eq!(entity.id, "Q404");
    assert!(entity.claims.is_none());
    assert!(entity.labels.is_none());
    assert!(entity.claims_of("P102").is_none());
    assert!(entity.label("en").is_none());
}

#[test]
fn entity_response_is_keyed_by_identifier() {
    let response = EntityResponse::new();
    assert!(response.entity("Q1").is_none());
    let response = response
        .with_entity(Entity::new("Q1".to_string()).with_label(label("en", "one")))
        .with_entity(Entity::absent("Q2".to_string()));
    let one = response.entity("Q1").expect("Q1 is there");
    assert_eq!(one.id, "Q1");
    assert_eq!(one.label("en"), Some(&label("en", "one")));
    assert!(response.entity("Q2").expect("Q2 is there").is_missing());
    assert!(response.entity("Q3").is_none());
}

#[test]
fn first_search_result_wins() {
    let found = SearchResponse {
        search: vec![
            SearchResultItem {
                id: "Q7".to_string(),
                label: "Metro North".to_string(),
                url: "//kb/Q7".to_string(),
            },
            SearchResultItem {
                id: "Q8".to_string(),
                label: "Metro South".to_string(),
                url: "//kb/Q8".to_string(),
            },
        ],
    };
    assert_eq!(found.first().map(|item| item.id.as_str()), Some("Q7"));
    assert_eq!(found.first().map(|item| item.label.as_str()), Some("Metro North"));
    assert_eq!(SearchResponse { search: vec![] }.first(), None);
}

#[test]
fn token_response_gives_the_token() {
    let response =
        TokenResponse { query: TokenQuery { tokens: Tokens { csrftoken: "abc+\\".to_string() } } };
    assert_eq!(response.into_token(), "abc+\\");
}

#[test]
fn created_entity_gives_its_identifier() {
    let response = ApiResponse {
        content: ApiResponseContent::Entity(InsertEntity { id: "Q999".to_string() }),
    };
    assert_eq!(response.into_result(), Ok("Q999".to_string()));
}

#[test]
fn rejection_comes_as_it_was_sent() {
    let error = Error {
        code: "modification-failed".to_string(),
        info: "Malformed input: 12".to_string(),
        messages: vec![
            Message {
                name: "wikibase-validator-malformed-value".to_string(),
                parameters: vec!["12".to_string(), "P103".to_string()],
            },
            Message { name: "other".to_string(), parameters: vec![] },
        ],
    };
    let expected = Error {
        code: "modification-failed".to_string(),
        info: "Malformed input: 12".to_string(),
        messages: vec![
            Message {
                name: "wikibase-validator-malformed-value".to_string(),
                parameters: vec!["12".to_string(), "P103".to_string()],
            },
            Message { name: "other".to_string(), parameters: vec![] },
        ],
    };
    let response = ApiResponse { content: ApiResponseContent::Error(error) };
    assert_eq!(response.into_result(), Err(expected));
}
