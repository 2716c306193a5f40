use ypdddns::failure::{Failure, Fault};
use ypdddns::record::{find_all_records, find_record, ListResponse, Record};

fn record(id: i64, content: &str, subdomain: &str) -> Record {
    Record { id, content: content.to_string(), subdomain: subdomain.to_string() }
}

fn listing(records: Vec<Record>) -> ListResponse {
    ListResponse::Success { records }
}

fn refusal(text: &str) -> ListResponse {
    ListResponse::Error { error: text.to_string() }
}

#[test]
fn all_records_come_in_listing_order() {
    let records = vec![record(1, "10.0.0.1", "a"), record(2, "10.0.0.2", "b")];
    assert_eq!(find_all_records(listing(records.clone())), Ok(records));
}

#[test]
fn all_records_of_an_empty_listing() {
    assert_eq!(find_all_records(listing(vec![])), Ok(vec![]));
}

#[test]
fn all_records_of_an_error_is_the_registrar_failure() {
    assert_eq!(
        find_all_records(refusal("bad_token")),
        Err(Failure::Registrar { message: "bad_token".to_string() })
    );
}

#[test]
fn find_gives_the_matching_record() {
    let records = vec![record(1, "10.0.0.1", "www"), record(7, "10.0.0.9", "home")];
    assert_eq!(find_record(listing(records), "home"), Ok(record(7, "10.0.0.9", "home")));
}

#[test]
fn find_gives_the_first_of_several_matches() {
    let records = vec![
        record(1, "10.0.0.1", "www"),
        record(2, "first", "home"),
        record(3, "second", "home"),
    ];
    assert_eq!(find_record(listing(records), "home"), Ok(record(2, "first", "home")));
}

#[test]
fn find_in_an_empty_listing_is_not_found() {
    assert_eq!(find_record(listing(vec![]), "home"), Err(Failure::NotFound));
}

#[test]
fn find_without_a_match_is_not_found() {
    let records = vec![record(1, "10.0.0.1", "www"), record(2, "10.0.0.2", "mail")];
    assert_eq!(find_record(listing(records), "home"), Err(Failure::NotFound));
}

#[test]
fn find_compares_labels_exactly() {
    let records = vec![record(1, "10.0.0.1", "Home"), record(2, "10.0.0.2", "home ")];
    assert_eq!(find_record(listing(records), "home"), Err(Failure::NotFound));
}

#[test]
fn find_does_not_match_a_prefix() {
    let records = vec![record(1, "10.0.0.1", "homes"), record(2, "10.0.0.2", "hom")];
    assert_eq!(find_record(listing(records), "home"), Err(Failure::NotFound));
}

#[test]
fn find_matches_the_empty_label() {
    let records = vec![record(1, "10.0.0.1", "www"), record(2, "10.0.0.2", "")];
    assert_eq!(find_record(listing(records), ""), Ok(record(2, "10.0.0.2", "")));
}

#[test]
fn find_in_an_error_is_the_registrar_failure() {
    assert_eq!(
        find_record(refusal("no_auth"), "home"),
        Err(Failure::Registrar { message: "no_auth".to_string() })
    );
}

#[test]
fn faults_map_to_failures() {
    assert_eq!(Fault::Network.failure(), Failure::Network);
    assert_eq!(Fault::Http.failure(), Failure::Http);
    assert_eq!(Fault::Malformed.failure(), Failure::Parse);
}
