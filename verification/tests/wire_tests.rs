use iptmnet::params::SearchParameters;
use iptmnet::values::{ItemType, PtmType, Role};

#[test]
fn wire_form_of_the_default_request() {
    let d = SearchParameters::default();
    assert_eq!(
        d.to_wire(),
        "{\"search_term\":\"\",\"term_type\":\"All\",\"role\":\"Both\",\"ptm_type\":null,\"organism\":null}"
    );
}

#[test]
fn wire_form_of_a_full_request() {
    let p = SearchParameters::new(
        "p53".into(),
        ItemType::ProteinGeneName,
        Role::Substrate,
        Some(PtmType::Phosphorylation),
        Some("human".into()),
    );
    assert_eq!(
        p.to_wire(),
        "{\"search_term\":\"p53\",\"term_type\":\"ProteinGeneName\",\"role\":\"Substrate\",\"ptm_type\":\"Phosphorylation\",\"organism\":\"human\"}"
    );
}

#[test]
fn full_request_round_trips() {
    let p = SearchParameters::new(
        "p53".into(),
        ItemType::ProteinGeneName,
        Role::Substrate,
        Some(PtmType::Phosphorylation),
        Some("human".into()),
    );
    let wire = p.to_wire();
    let q = SearchParameters::from_wire(wire.as_str()).unwrap();
    assert_eq!(q, p);
}

#[test]
fn default_request_round_trips() {
    let p = SearchParameters::default();
    let q = SearchParameters::from_wire(p.to_wire().as_str()).unwrap();
    assert_eq!(q, p);
}

#[test]
fn search_term_with_quotes_and_backslashes_round_trips() {
    let p = SearchParameters::new(
        "a \"quoted\" \\ term".into(),
        ItemType::All,
        Role::Both,
        None,
        Some("weird \\\" organism".into()),
    );
    let wire = p.to_wire();
    assert_eq!(
        wire,
        "{\"search_term\":\"a \\\"quoted\\\" \\\\ term\",\"term_type\":\"All\",\"role\":\"Both\",\"ptm_type\":null,\"organism\":\"weird \\\\\\\" organism\"}"
    );
    let q = SearchParameters::from_wire(wire.as_str()).unwrap();
    assert_eq!(q, p);
}

#[test]
fn every_ptm_type_round_trips_through_the_wire() {
    let all = [
        PtmType::Acetylation,
        PtmType::CGlycosylation,
        PtmType::NGlycosylation,
        PtmType::OGlycosylation,
        PtmType::SGlycosylation,
        PtmType::Methylation,
        PtmType::Myristoylation,
        PtmType::SNitrosylation,
        PtmType::Phosphorylation,
        PtmType::Sumoylation,
        PtmType::Ubiquitination,
    ];
    for variant in all {
        let p = SearchParameters::new("x".into(), ItemType::All, Role::Both, Some(variant), None);
        let q = SearchParameters::from_wire(p.to_wire().as_str()).unwrap();
        assert_eq!(q, p);
        assert_eq!(q.ptm_type(), Some(variant));
    }
}

#[test]
fn malformed_wire_texts_are_rejected() {
    assert!(SearchParameters::from_wire("").is_none());
    assert!(SearchParameters::from_wire("{}").is_none());
    assert!(SearchParameters::from_wire("{\"search_term\":\"x\"}").is_none());
    // An unknown variant name is not a value.
    assert!(SearchParameters::from_wire(
        "{\"search_term\":\"\",\"term_type\":\"Bogus\",\"role\":\"Both\",\"ptm_type\":null,\"organism\":null}"
    )
    .is_none());
    // Trailing characters after the closing brace are not accepted.
    assert!(SearchParameters::from_wire(
        "{\"search_term\":\"\",\"term_type\":\"All\",\"role\":\"Both\",\"ptm_type\":null,\"organism\":null} "
    )
    .is_none());
    // An unterminated string is not a value.
    assert!(SearchParameters::from_wire("{\"search_term\":\"abc").is_none());
}
