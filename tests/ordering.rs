use std::cmp::Ordering;

use portfolio::date::Date;
use portfolio::error::ContentError;
use portfolio::ordering::{display_order, sort_by_dates};
use portfolio::project::{Project, ProjectData};
use portfolio::site::prepare_projects;
use portfolio::tags::TagData;

fn date(y: i16, m: i8, d: i8) -> Date {
    Date::new(y, m, d).unwrap()
}

fn project(name: &str, start: Date, end: Option<Date>) -> Project {
    Project {
        name: name.to_string(),
        description: String::new(),
        image_url: None,
        tags: vec![],
        links: vec![],
        start_date: start,
        end_date: end,
    }
}

fn names(ps: &[Project]) -> Vec<String> {
    ps.iter().map(|p| p.name.clone()).collect()
}

fn four_projects() -> Vec<Project> {
    vec![
        project("A", date(2020, 1, 1), Some(date(2024, 1, 1))),
        project("B", date(2020, 1, 1), Some(date(2023, 6, 1))),
        project("C", date(2025, 1, 1), None),
        project("D", date(2022, 1, 1), None),
    ]
}

#[test]
fn ascending_and_display_order() {
    let sorted = sort_by_dates(four_projects());
    assert_eq!(names(&sorted), vec!["B", "A", "D", "C"]);
    let shown = display_order(sorted);
    assert_eq!(names(&shown), vec!["C", "D", "A", "B"]);
}

#[test]
fn ongoing_with_same_start_keep_authored_order() {
    let ps = vec![
        project("first", date(2023, 2, 1), None),
        project("ended", date(2021, 1, 1), Some(date(2022, 1, 1))),
        project("second", date(2023, 2, 1), None),
        project("third", date(2023, 2, 1), None),
    ];
    let sorted = sort_by_dates(ps);
    assert_eq!(names(&sorted), vec!["ended", "first", "second", "third"]);
}

#[test]
fn equal_end_dates_keep_authored_order() {
    let ps = vec![
        project("x", date(2021, 1, 1), Some(date(2022, 5, 5))),
        project("y", date(2019, 1, 1), Some(date(2022, 5, 5))),
        project("z", date(2018, 1, 1), Some(date(2020, 5, 5))),
    ];
    assert_eq!(names(&sort_by_dates(ps)), vec!["z", "x", "y"]);
}

#[test]
fn sorting_nothing() {
    assert!(sort_by_dates(vec![]).is_empty());
    assert!(display_order(vec![]).is_empty());
}

#[test]
fn compare_by_dates() {
    let ps = four_projects();
    assert_eq!(ps[0].cmp_dates(&ps[1]), Ordering::Greater);
    assert_eq!(ps[1].cmp_dates(&ps[0]), Ordering::Less);
    assert_eq!(ps[0].cmp_dates(&ps[2]), Ordering::Less);
    assert_eq!(ps[2].cmp_dates(&ps[0]), Ordering::Greater);
    assert_eq!(ps[2].cmp_dates(&ps[3]), Ordering::Greater);
    assert_eq!(ps[3].cmp_dates(&ps[3]), Ordering::Equal);
}

#[test]
fn dates_compare_chronologically() {
    assert_eq!(date(2023, 12, 31).compare(&date(2024, 1, 1)), Ordering::Less);
    assert_eq!(date(2024, 2, 1).compare(&date(2024, 1, 31)), Ordering::Greater);
    assert_eq!(date(-5, 3, 1).compare(&date(-5, 3, 1)), Ordering::Equal);
    assert_eq!(date(-1, 12, 31).compare(&date(1, 1, 1)), Ordering::Less);
}

#[test]
fn date_validity() {
    assert!(Date::new(2024, 2, 29).is_some());
    assert!(Date::new(2023, 2, 29).is_none());
    assert!(Date::new(2000, 2, 29).is_some());
    assert!(Date::new(1900, 2, 29).is_none());
    assert!(Date::new(2024, 4, 31).is_none());
    assert!(Date::new(2024, 13, 1).is_none());
    assert!(Date::new(2024, 1, 0).is_none());
    assert!(Date::new(10000, 1, 1).is_none());
    assert!(Date::new(-9999, 1, 1).is_some());
    let d = date(2025, 9, 13);
    assert_eq!((d.year(), d.month(), d.day()), (2025, 9, 13));
}

fn source(name: &str, tags: Vec<&str>, start: Date, end: Option<Date>) -> ProjectData {
    ProjectData {
        name: name.to_string(),
        description: String::new(),
        image_url: None,
        tags: tags.into_iter().map(|t| t.to_string()).collect(),
        links: vec![],
        start_date: start,
        end_date: end,
    }
}

fn tag_catalog() -> Vec<TagData> {
    vec![
        TagData::Text { id: "commercial".to_string(), value: "Commercial Experience".to_string() },
        TagData::Text { id: "personal".to_string(), value: "Personal Project".to_string() },
    ]
}

#[test]
fn prepare_resolves_and_sorts() {
    let sources = vec![
        source("Node4", vec!["commercial"], date(2023, 2, 1), None),
        source("Feed", vec!["personal"], date(2025, 9, 13), None),
        source("Password Generator", vec!["personal"], date(2024, 11, 23), Some(date(2024, 12, 7))),
        source("Portfolios", vec!["commercial"], date(2023, 2, 1), Some(date(2025, 5, 1))),
    ];
    let ps = prepare_projects(&sources, &tag_catalog()).unwrap();
    assert_eq!(names(&ps), vec!["Password Generator", "Portfolios", "Node4", "Feed"]);
    assert_eq!(ps[3].tags, vec![tag_catalog()[1].clone()]);
}

#[test]
fn prepare_reports_first_unknown_tag() {
    let sources = vec![
        source("one", vec!["personal"], date(2023, 2, 1), None),
        source("two", vec!["personal", "hobby"], date(2023, 2, 1), None),
        source("three", vec!["other"], date(2023, 2, 1), None),
    ];
    let err = prepare_projects(&sources, &tag_catalog()).err().unwrap();
    assert_eq!(err, ContentError::UnknownTag("hobby".to_string()));
}
