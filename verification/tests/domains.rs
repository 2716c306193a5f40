use ypdddns::domain::{split_domain, DomainSpec};
use ypdddns::failure::Failure;

fn parts(subdomain: &str, domain: &str) -> DomainSpec {
    DomainSpec { subdomain: subdomain.to_string(), domain: domain.to_string() }
}

#[test]
fn split_cuts_at_the_first_dot() {
    assert_eq!(split_domain("home.example.com"), Ok(parts("home", "example.com")));
}

#[test]
fn split_of_two_labels() {
    assert_eq!(split_domain("example.com"), Ok(parts("example", "com")));
}

#[test]
fn split_without_a_dot_is_a_config_failure() {
    assert_eq!(split_domain("examplecom"), Err(Failure::Config));
}

#[test]
fn split_of_the_empty_text_is_a_config_failure() {
    assert_eq!(split_domain(""), Err(Failure::Config));
}

#[test]
fn split_with_a_leading_dot_gives_an_empty_subdomain() {
    assert_eq!(split_domain(".example.com"), Ok(parts("", "example.com")));
}

#[test]
fn split_with_a_trailing_dot_gives_an_empty_domain() {
    assert_eq!(split_domain("home."), Ok(parts("home", "")));
}

#[test]
fn split_of_a_single_dot() {
    assert_eq!(split_domain("."), Ok(parts("", "")));
}

#[test]
fn split_keeps_later_dots_in_the_domain() {
    assert_eq!(split_domain("a..b.c"), Ok(parts("a", ".b.c")));
}

#[test]
fn split_counts_characters_not_bytes() {
    assert_eq!(split_domain("дом.пример.рф"), Ok(parts("дом", "пример.рф")));
}

#[test]
fn split_rejoins_to_the_name() {
    let name = "www.home.example.com";
    let cut = split_domain(name).unwrap();
    assert!(!cut.subdomain.contains('.'));
    assert_eq!(format!("{}.{}", cut.subdomain, cut.domain), name);
}
