use transit_topo::api_structures::{Error, Message};
use transit_topo::error::ImportError;
use transit_topo::feed::{Route, RouteType};
use transit_topo::import::{RouteOutcome, Severity};

fn route() -> Route {
    Route {
        id: "R1".to_string(),
        short_name: "12".to_string(),
        long_name: "Downtown Loop".to_string(),
        route_type: RouteType::Bus,
    }
}

#[test]
fn schema_error_says_what_was_unexpected() {
    assert_eq!(
        ImportError::Schema("unknown type `quantity`".to_string()).message(),
        "malformed answer: unknown type `quantity`"
    );
}

#[test]
fn transport_error_says_how_it_failed() {
    assert_eq!(
        ImportError::Transport("connection refused".to_string()).message(),
        "transport failure: connection refused"
    );
}

#[test]
fn api_error_gives_code_and_words() {
    let error = Error {
        code: "permissiondenied".to_string(),
        info: "You do not have the permissions needed".to_string(),
        messages: vec![Message { name: "badaccess".to_string(), parameters: vec![] }],
    };
    assert_eq!(
        ImportError::Api(error).message(),
        "rejected by the knowledge base: permissiondenied: You do not have the permissions needed"
    );
}

#[test]
fn not_found_error_names_the_producer() {
    assert_eq!(
        ImportError::NotFound("Metro North".to_string()).message(),
        "no producer found for Metro North"
    );
}

#[test]
fn each_outcome_has_its_line_and_its_severity() {
    let inserted = RouteOutcome::Inserted { id: "Q999".to_string() };
    assert_eq!(inserted.log_line(&route()), "Ok, new item id: Q999");
    assert_eq!(inserted.severity(), Severity::Info);

    let failed = RouteOutcome::InsertFailed { error: ImportError::NotFound("x".to_string()) };
    assert_eq!(failed.log_line(&route()), "Insertion failed: no producer found for x");
    assert_eq!(failed.severity(), Severity::Error);

    let existing = RouteOutcome::SkippedExisting { id: "Q999".to_string() };
    assert_eq!(
        existing.log_line(&route()),
        "Line “Downtown Loop” (12) already exists with id Q999, skipping"
    );
    assert_eq!(existing.severity(), Severity::Info);

    let ambiguous = RouteOutcome::SkippedAmbiguous { matches: 4 };
    assert_eq!(
        ambiguous.log_line(&route()),
        "Line “Downtown Loop” (12) exists many times. Something is not right"
    );
    assert_eq!(ambiguous.severity(), Severity::Warning);
}

#[test]
fn route_without_names_still_has_a_line() {
    let bare = Route {
        id: "R9".to_string(),
        short_name: String::new(),
        long_name: String::new(),
        route_type: RouteType::Other(1700),
    };
    assert_eq!(
        RouteOutcome::SkippedExisting { id: "Q1".to_string() }.log_line(&bare),
        "Line “” () already exists with id Q1, skipping"
    );
    assert_eq!(bare.clone(), bare);
}
