use iptmnet::params::SearchParameters;
use iptmnet::values::{ItemType, PtmType, Role};

#[test]
fn item_type_tokens_parse_to_their_variants() {
    assert_eq!(ItemType::from_token("all").unwrap(), ItemType::All);
    assert_eq!(ItemType::from_token("uniprot-id").unwrap(), ItemType::UniProtID);
    assert_eq!(
        ItemType::from_token("protein-gene-name").unwrap(),
        ItemType::ProteinGeneName
    );
    assert_eq!(ItemType::from_token("pmid").unwrap(), ItemType::PMID);
    assert_eq!(ItemType::All.token(), "all");
    assert_eq!(ItemType::UniProtID.token(), "uniprot-id");
    assert_eq!(ItemType::ProteinGeneName.token(), "protein-gene-name");
    assert_eq!(ItemType::PMID.token(), "pmid");
}

#[test]
fn item_type_bogus_token_is_rejected() {
    let err = ItemType::from_token("bogus").unwrap_err();
    assert_eq!(err.token, "bogus");
    assert_eq!(
        err.expected,
        vec!["all", "uniprot-id", "protein-gene-name", "pmid"]
    );
}

#[test]
fn role_tokens_parse_to_their_variants() {
    assert_eq!(Role::from_token("enzyme").unwrap(), Role::Enzyme);
    assert_eq!(Role::from_token("substrate").unwrap(), Role::Substrate);
    assert_eq!(Role::from_token("both").unwrap(), Role::Both);
    assert_eq!(Role::Enzyme.token(), "enzyme");
    assert_eq!(Role::Substrate.token(), "substrate");
    assert_eq!(Role::Both.token(), "both");
    let err = Role::from_token("bogus").unwrap_err();
    assert_eq!(err.token, "bogus");
    assert_eq!(err.expected, vec!["enzyme", "substrate", "both"]);
}

#[test]
fn ptm_type_tokens_parse_to_their_variants() {
    let cases = [
        ("acetylation", PtmType::Acetylation),
        ("c-glycosylation", PtmType::CGlycosylation),
        ("n-glycosylation", PtmType::NGlycosylation),
        ("o-glycosylation", PtmType::OGlycosylation),
        ("s-glycosylation", PtmType::SGlycosylation),
        ("methylation", PtmType::Methylation),
        ("myristoylation", PtmType::Myristoylation),
        ("s-nitrosylation", PtmType::SNitrosylation),
        ("phosphorylation", PtmType::Phosphorylation),
        ("sumoylation", PtmType::Sumoylation),
        ("ubiquitination", PtmType::Ubiquitination),
    ];
    for (token, variant) in cases {
        assert_eq!(PtmType::from_token(token).unwrap(), variant);
        assert_eq!(variant.token(), token);
    }
    assert!(PtmType::from_token("bogus").is_err());
}

#[test]
fn ptm_type_wire_names_round_trip() {
    let all = [
        PtmType::Acetylation,
        PtmType::CGlycosylation,
        PtmType::NGlycosylation,
        PtmType::OGlycosylation,
        PtmType::SGlycosylation,
        PtmType::Methylation,
        PtmType::Myristoylation,
        PtmType::SNitrosylation,
        PtmType::Phosphorylation,
        PtmType::Sumoylation,
        PtmType::Ubiquitination,
    ];
    for variant in all {
        let name = variant.wire_name();
        assert_eq!(PtmType::from_wire_name(name.as_str()).unwrap(), variant);
    }
}

#[test]
fn ptm_type_display_labels() {
    assert_eq!(PtmType::CGlycosylation.display(), "C-Glycosylation");
    assert_eq!(PtmType::NGlycosylation.display(), "N-Glycosylation");
    assert_eq!(PtmType::OGlycosylation.display(), "O-Glycosylation");
    assert_eq!(PtmType::SGlycosylation.display(), "S-Glycosylation");
    assert_eq!(PtmType::SNitrosylation.display(), "S-Nitrosylation");
    assert_eq!(PtmType::Methylation.display(), "Methylation");
    assert_eq!(PtmType::Phosphorylation.display(), "Phosphorylation");
}

#[test]
fn role_display_labels() {
    assert_eq!(Role::Both.display(), "Enzyme or Substrate");
    assert_eq!(Role::Enzyme.display(), "Enzyme");
    assert_eq!(Role::Substrate.display(), "Substrate");
}

#[test]
fn item_type_display_labels() {
    assert_eq!(ItemType::All.display(), "All");
    assert_eq!(ItemType::UniProtID.display(), "UniProtID");
    assert_eq!(ItemType::ProteinGeneName.display(), "ProteinGeneName");
    assert_eq!(ItemType::PMID.display(), "PMID");
}

#[test]
fn default_is_match_everything() {
    let d = SearchParameters::default();
    let n = SearchParameters::new(String::new(), ItemType::All, Role::Both, None, None);
    assert_eq!(d, n);
    assert_eq!(d.search_term().as_str(), "");
    assert_eq!(d.term_type(), ItemType::All);
    assert_eq!(d.role(), Role::Both);
    assert_eq!(d.ptm_type(), None);
    assert_eq!(*d.organism(), None);
}

#[test]
fn equality_is_fieldwise() {
    let a = SearchParameters::new(
        "p53".into(),
        ItemType::ProteinGeneName,
        Role::Substrate,
        Some(PtmType::Phosphorylation),
        Some("human".into()),
    );
    let b = SearchParameters::new(
        "p53".into(),
        ItemType::ProteinGeneName,
        Role::Substrate,
        Some(PtmType::Phosphorylation),
        Some("human".into()),
    );
    assert_eq!(a, b);
    let c = SearchParameters::new(
        "p53".into(),
        ItemType::ProteinGeneName,
        Role::Substrate,
        Some(PtmType::Phosphorylation),
        Some("mouse".into()),
    );
    assert_ne!(a, c);
    let d = SearchParameters::new(
        "p54".into(),
        ItemType::ProteinGeneName,
        Role::Substrate,
        Some(PtmType::Phosphorylation),
        Some("human".into()),
    );
    assert_ne!(a, d);
    let e = SearchParameters::new(
        "p53".into(),
        ItemType::All,
        Role::Substrate,
        Some(PtmType::Phosphorylation),
        Some("human".into()),
    );
    assert_ne!(a, e);
    let f = SearchParameters::new(
        "p53".into(),
        ItemType::ProteinGeneName,
        Role::Both,
        Some(PtmType::Phosphorylation),
        Some("human".into()),
    );
    assert_ne!(a, f);
    let g = SearchParameters::new(
        "p53".into(),
        ItemType::ProteinGeneName,
        Role::Substrate,
        None,
        Some("human".into()),
    );
    assert_ne!(a, g);
}

#[test]
fn clone_preserves_the_value() {
    let a = SearchParameters::new(
        "brca1".into(),
        ItemType::UniProtID,
        Role::Enzyme,
        Some(PtmType::Ubiquitination),
        None,
    );
    assert_eq!(a.clone(), a);
}
