use epo_ops::ident::{
    Date, PatentDetails, PatentReferenceType, PublicationConstituents, RegisterConstituents,
};

fn plain_details() -> PatentDetails {
    PatentDetails {
        country_code: "EP".to_string(),
        number: "4451611".to_string(),
        kind_code: None,
        date: None,
        reference_type: PatentReferenceType::Publication,
    }
}

#[test]
fn epodoc_country_and_number_only() {
    assert_eq!("EP4451611", plain_details().to_epodoc());
}

#[test]
fn epodoc_with_date_appends_dot_and_yyyymmdd() {
    let mut details = plain_details();
    details.date = Some(Date { year: 2024, month: 9, day: 9 });
    assert_eq!("EP4451611.20240909", details.to_epodoc());
}

#[test]
fn epodoc_with_kind_code() {
    let mut details = plain_details();
    details.kind_code = Some("B1".to_string());
    assert_eq!("EP4451611B1", details.to_epodoc());
}

#[test]
fn epodoc_date_is_zero_padded() {
    let mut details = plain_details();
    details.date = Some(Date { year: 987, month: 1, day: 2 });
    assert_eq!("EP4451611.09870102", details.to_epodoc());
}

#[test]
fn register_constituent_names() {
    assert_eq!("biblio", RegisterConstituents::Biblio.name());
    assert_eq!("procedural-steps", RegisterConstituents::ProceduralSteps.name());
    assert_eq!("events", RegisterConstituents::Events.name());
    assert_eq!("upp", RegisterConstituents::Upp.name());
}

#[test]
fn publication_constituent_names() {
    assert_eq!("biblio", PublicationConstituents::Biblio.name());
    assert_eq!("abstract", PublicationConstituents::Abstract.name());
    assert_eq!("full-cycle", PublicationConstituents::FullCycle.name());
}

#[test]
fn empty_constituent_list_defaults_to_biblio() {
    assert_eq!("biblio", epo_ops::ident::register_segment_string(&Vec::new()));
    assert_eq!("biblio", epo_ops::ident::publication_segment_string(&Vec::new()));
}

#[test]
fn constituent_lists_are_comma_joined_in_order() {
    let segment = epo_ops::ident::register_segment_string(&vec![
        RegisterConstituents::Upp,
        RegisterConstituents::Biblio,
        RegisterConstituents::Events,
    ]);
    assert_eq!("upp,biblio,events", segment);
    let segment = epo_ops::ident::publication_segment_string(&vec![
        PublicationConstituents::Biblio,
        PublicationConstituents::Abstract,
        PublicationConstituents::FullCycle,
    ]);
    assert_eq!("biblio,abstract,full-cycle", segment);
}
