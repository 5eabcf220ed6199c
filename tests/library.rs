use dapp_scraper::enrich::{
    contains_title_locator, diagnostics_enabled, exact_title_locator, EnrichAction, EnrichEvent,
    Enricher, Field, MatchMode, Phase,
};
use dapp_scraper::extract::{
    categories_from_results, socials_from_results, text_or_default, url_or_default,
};
use dapp_scraper::pagination::{PaginationAction, PaginationLoader};
use dapp_scraper::registry::{Dapp, FieldValue, Registry};
use dapp_scraper::social::{json_to_social, Social, SocialError};

fn titles(list: &[&str]) -> Vec<String> {
    list.iter().map(|s| s.to_string()).collect()
}

fn social(name: &str, url: &str) -> Social {
    Social { name: name.to_string(), url: url.to_string() }
}

fn is_default(d: &Dapp, name: &str) -> bool {
    d.project_name == name
        && d.logo_url.is_empty()
        && d.data_social.is_empty()
        && d.category_list.is_empty()
        && d.description.is_empty()
}

fn run_pagination(enabled: bool, outcomes: &[bool]) -> u64 {
    let mut loader = PaginationLoader::new(enabled);
    let mut next = outcomes.iter();
    while loader.next_action() == PaginationAction::ScrollAndProbe {
        let found = *next.next().unwrap_or(&false);
        loader.on_probe(found);
    }
    loader.iterations()
}

#[test]
fn discovery_keeps_positions_and_skips_empty_titles() {
    let reg = Registry::discover(&titles(&["A", "", "B Project "]));
    assert_eq!(reg.len(), 3);
    assert!(is_default(reg.get(0).unwrap(), "A"));
    assert!(reg.get(1).is_none());
    assert!(is_default(reg.get(2).unwrap(), "B Project "));
    assert!(reg.get(3).is_none());
}

#[test]
fn discovery_of_empty_listing_is_empty() {
    let reg = Registry::discover(&Vec::new());
    assert_eq!(reg.len(), 0);
    assert!(reg.get(0).is_none());
}

#[test]
fn pagination_counts_clicks_before_first_timeout() {
    assert_eq!(run_pagination(true, &[true, true, false, true]), 2);
    assert_eq!(run_pagination(true, &[false]), 0);
    assert_eq!(run_pagination(false, &[true, true]), 0);
}

#[test]
fn pagination_actions() {
    let mut loader = PaginationLoader::new(true);
    assert!(!loader.is_done());
    assert_eq!(loader.on_probe(true), PaginationAction::ClickLoadMore);
    assert_eq!(loader.on_probe(false), PaginationAction::Finish);
    assert!(loader.is_done());
    assert_eq!(loader.on_probe(true), PaginationAction::Finish);
    assert_eq!(loader.iterations(), 1);
    assert_eq!(PaginationLoader::new(false).next_action(), PaginationAction::Finish);
}

#[test]
fn json_to_social_reads_name_and_url() {
    let s = json_to_social(r#"{"name":"Twitter","url":"https://t.example/x"}"#).unwrap();
    assert_eq!(s, social("Twitter", "https://t.example/x"));
}

#[test]
fn json_to_social_errors() {
    assert!(matches!(json_to_social("not json"), Err(SocialError::Json(_))));
    assert!(matches!(json_to_social(r#"["a"]"#), Err(SocialError::Json(_))));
    assert!(matches!(json_to_social(r#"{"url":"u"}"#), Err(SocialError::MissingName)));
    assert!(matches!(json_to_social(r#"{"name":"n"}"#), Err(SocialError::MissingUrl)));
}

#[test]
fn socials_keep_anchor_order_and_drop_malformed() {
    let values = vec![
        Some(r#"{"name":"a","url":"1"}"#.to_string()),
        Some("{broken".to_string()),
        None,
        Some(r#"{"name":"b","url":"2"}"#.to_string()),
    ];
    assert_eq!(socials_from_results(&values), vec![social("a", "1"), social("b", "2")]);
    assert!(socials_from_results(&Vec::new()).is_empty());
}

#[test]
fn text_extractor_trims_and_defaults() {
    assert_eq!(text_or_default(Some("  Hello world \n".to_string())), "Hello world");
    assert_eq!(text_or_default(None), "");
}

#[test]
fn url_extractor_defaults() {
    assert_eq!(url_or_default(Some("https://x/logo.png".to_string())), "https://x/logo.png");
    assert_eq!(url_or_default(None), "");
}

#[test]
fn categories_keep_positions() {
    let values = vec![Some(" DeFi ".to_string()), None, Some("".to_string()), Some("NFT".to_string())];
    assert_eq!(categories_from_results(&values), vec!["DeFi", "", "", "NFT"]);
}

#[test]
fn title_locators() {
    assert_eq!(exact_title_locator("Foo"), "//h3[text()='Foo']");
    assert_eq!(contains_title_locator("Foo"), "//h3[contains(text(),'Foo')]");
}

#[test]
fn diagnostics_outside_production() {
    assert!(!diagnostics_enabled("prod"));
    assert!(diagnostics_enabled("dev"));
    assert!(diagnostics_enabled(""));
}

#[test]
fn enrichment_stops_at_first_missed_probe() {
    let reg = Registry::discover(&titles(&["", "A"]));
    let (mut e, a) = Enricher::new(reg, true);
    assert!(matches!(a, EnrichAction::Locate { index: 1, mode: MatchMode::Exact, .. }));
    assert!(matches!(e.step(EnrichEvent::Located), EnrichAction::Open));
    assert!(matches!(e.step(EnrichEvent::Opened), EnrichAction::Probe(Field::Logo)));
    let a = e.step(EnrichEvent::Resolved(FieldValue::Logo("https://x/a.png".to_string())));
    assert!(matches!(a, EnrichAction::Probe(Field::Social)));
    assert!(matches!(e.step(EnrichEvent::Missed), EnrichAction::Return { index: 1, capture: true }));
    assert!(matches!(e.step(EnrichEvent::Returned), EnrichAction::Finished));
    let reg = e.into_registry();
    let d = reg.get(1).unwrap();
    assert_eq!(d.logo_url, "https://x/a.png");
    assert!(d.data_social.is_empty());
    assert!(d.category_list.is_empty());
    assert!(d.description.is_empty());
}

#[test]
fn enrichment_falls_back_to_substring_match() {
    let reg = Registry::discover(&titles(&["B Project "]));
    let (mut e, a) = Enricher::new(reg, false);
    match a {
        EnrichAction::Locate { index, locator, mode } => {
            assert_eq!(index, 0);
            assert_eq!(mode, MatchMode::Exact);
            assert_eq!(locator, "//h3[text()='B Project ']");
        }
        _ => panic!("expected a locate action"),
    }
    match e.step(EnrichEvent::NotLocated) {
        EnrichAction::Locate { index, locator, mode } => {
            assert_eq!(index, 0);
            assert_eq!(mode, MatchMode::Contains);
            assert_eq!(locator, "//h3[contains(text(),'B Project ')]");
        }
        _ => panic!("expected a locate action"),
    }
    assert!(matches!(e.step(EnrichEvent::Located), EnrichAction::Open));
    e.step(EnrichEvent::Opened);
    e.step(EnrichEvent::Resolved(FieldValue::Logo("l".to_string())));
    e.step(EnrichEvent::Resolved(FieldValue::Social(vec![social("s", "u")])));
    e.step(EnrichEvent::Resolved(FieldValue::Category(vec!["c".to_string()])));
    let a = e.step(EnrichEvent::Resolved(FieldValue::Description("d".to_string())));
    assert!(matches!(a, EnrichAction::Return { index: 0, capture: false }));
    assert!(matches!(e.step(EnrichEvent::Returned), EnrichAction::Finished));
    let reg = e.into_registry();
    let d = reg.get(0).unwrap();
    assert_eq!(d.logo_url, "l");
    assert_eq!(d.data_social, vec![social("s", "u")]);
    assert_eq!(d.category_list, vec!["c"]);
    assert_eq!(d.description, "d");
}

#[test]
fn unlocated_record_keeps_defaults() {
    let reg = Registry::discover(&titles(&["A", "B"]));
    let (mut e, _) = Enricher::new(reg, false);
    e.step(EnrichEvent::NotLocated);
    let a = e.step(EnrichEvent::NotLocated);
    assert!(matches!(a, EnrichAction::Locate { index: 1, mode: MatchMode::Exact, .. }));
    e.step(EnrichEvent::Located);
    e.step(EnrichEvent::Opened);
    e.step(EnrichEvent::Resolved(FieldValue::Logo("b".to_string())));
    e.step(EnrichEvent::Missed);
    e.step(EnrichEvent::Returned);
    assert_eq!(e.phase(), Phase::Finished);
    let reg = e.into_registry();
    assert!(is_default(reg.get(0).unwrap(), "A"));
    assert_eq!(reg.get(1).unwrap().logo_url, "b");
}

#[test]
fn mismatched_event_changes_nothing() {
    let reg = Registry::discover(&titles(&["A"]));
    let (mut e, _) = Enricher::new(reg, false);
    e.step(EnrichEvent::Located);
    e.step(EnrichEvent::Opened);
    let a = e.step(EnrichEvent::Resolved(FieldValue::Description("x".to_string())));
    assert!(matches!(a, EnrichAction::Probe(Field::Logo)));
    assert!(e.registry().get(0).unwrap().description.is_empty());
}

#[test]
fn enrichment_of_empty_registry_finishes() {
    let reg = Registry::discover(&titles(&["", ""]));
    let (e, a) = Enricher::new(reg, true);
    assert!(matches!(a, EnrichAction::Finished));
    assert_eq!(e.phase(), Phase::Finished);
}
