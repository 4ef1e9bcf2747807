use portfolio::error::ContentError;
use portfolio::project::{Link, ProjectData};
use portfolio::tags::{lookup_tag, resolve_tags, TagData};
use portfolio::date::Date;

fn catalog() -> Vec<TagData> {
    vec![
        TagData::Text { id: "commercial".to_string(), value: "Commercial Experience".to_string() },
        TagData::Text { id: "personal".to_string(), value: "Personal Project".to_string() },
        TagData::Icon { id: "rust".to_string(), icon_url: "images/rust.svg".to_string() },
    ]
}

fn source(tags: Vec<&str>) -> ProjectData {
    ProjectData {
        name: "Password Generator".to_string(),
        description: "A *small* tool.".to_string(),
        image_url: Some("images/pw.png".to_string()),
        tags: tags.into_iter().map(|t| t.to_string()).collect(),
        links: vec![Link {
            url: "https://example.com/pw".to_string(),
            icon_name: Some("github".to_string()),
            text: "GitHub".to_string(),
        }],
        start_date: Date::new(2024, 11, 23).unwrap(),
        end_date: Some(Date::new(2024, 12, 7).unwrap()),
    }
}

#[test]
fn resolution_keeps_request_order() {
    let ids = vec!["rust".to_string(), "personal".to_string(), "commercial".to_string()];
    let tags = resolve_tags(&ids, &catalog()).unwrap();
    assert_eq!(tags.len(), 3);
    assert_eq!(tags[0], catalog()[2]);
    assert_eq!(tags[1], catalog()[1]);
    assert_eq!(tags[2], catalog()[0]);
    for (t, id) in tags.iter().zip(ids.iter()) {
        assert_eq!(t.id(), id);
    }
}

#[test]
fn resolution_of_no_ids_is_empty() {
    let tags = resolve_tags(&vec![], &catalog()).unwrap();
    assert!(tags.is_empty());
}

#[test]
fn resolution_allows_repeated_ids() {
    let ids = vec!["personal".to_string(), "personal".to_string()];
    let tags = resolve_tags(&ids, &catalog()).unwrap();
    assert_eq!(tags, vec![catalog()[1].clone(), catalog()[1].clone()]);
}

#[test]
fn unknown_tag_is_reported_by_id() {
    let ids = vec!["personal".to_string(), "hobby".to_string(), "other".to_string()];
    let err = resolve_tags(&ids, &catalog()).unwrap_err();
    assert_eq!(err, ContentError::UnknownTag("hobby".to_string()));
    assert_eq!(err.message(), "tag not found: hobby");
}

#[test]
fn unknown_tag_in_empty_catalog() {
    let err = resolve_tags(&vec!["personal".to_string()], &vec![]).unwrap_err();
    assert_eq!(err, ContentError::UnknownTag("personal".to_string()));
}

#[test]
fn later_duplicate_catalog_entry_wins() {
    let mut c = catalog();
    c.push(TagData::Text { id: "personal".to_string(), value: "Side Project".to_string() });
    let t = lookup_tag(&c, &"personal".to_string()).unwrap();
    assert_eq!(t, TagData::Text { id: "personal".to_string(), value: "Side Project".to_string() });
    assert_eq!(lookup_tag(&c, &"missing".to_string()), None);
}

#[test]
fn single_personal_tag_round_trip() {
    let catalog = vec![TagData::Text { id: "personal".to_string(), value: "Personal Project".to_string() }];
    let project = source(vec!["personal"]).to_project(&catalog).unwrap();
    assert_eq!(project.tags.len(), 1);
    match &project.tags[0] {
        TagData::Text { value, .. } => assert_eq!(value, "Personal Project"),
        TagData::Icon { .. } => panic!("expected a text tag"),
    }
}

#[test]
fn to_project_keeps_authored_fields() {
    let src = source(vec!["commercial", "rust"]);
    let p = src.to_project(&catalog()).unwrap();
    assert_eq!(p.name, src.name);
    assert_eq!(p.description, src.description);
    assert_eq!(p.image_url, src.image_url);
    assert_eq!(p.links, src.links);
    assert_eq!(p.start_date, src.start_date);
    assert_eq!(p.end_date, src.end_date);
    assert_eq!(p.tags, vec![catalog()[0].clone(), catalog()[2].clone()]);
}

#[test]
fn to_project_fails_on_unknown_tag() {
    let err = source(vec!["personal", "open-source"]).to_project(&catalog()).err().unwrap();
    assert_eq!(err, ContentError::UnknownTag("open-source".to_string()));
}

#[test]
fn tag_id_of_each_variant() {
    assert_eq!(catalog()[0].id(), "commercial");
    assert_eq!(catalog()[2].id(), "rust");
}
