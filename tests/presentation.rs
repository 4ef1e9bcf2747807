use portfolio::alerts::AlertLevel;
use portfolio::buttons::{ButtonContent, ButtonEffect, Icon};
use portfolio::card::{link_button, link_buttons, period_label, period_text, text_tags, LINK_TARGET};
use portfolio::date::Date;
use portfolio::error::ContentError;
use portfolio::icons::{IconRegistry, GITHUB_ICON};
use portfolio::project::{Link, Project};
use portfolio::tags::TagData;

fn date(y: i16, m: i8, d: i8) -> Date {
    Date::new(y, m, d).unwrap()
}

fn github_link() -> Link {
    Link {
        url: "https://github.com/example/feed".to_string(),
        icon_name: Some("github".to_string()),
        text: "GitHub".to_string(),
    }
}

#[test]
fn github_icon_is_registered_verbatim() {
    let icons = IconRegistry::builtin();
    assert_eq!(icons.lookup(&"github".to_string()), Ok(GITHUB_ICON));
    assert!(GITHUB_ICON.starts_with("<svg"));
}

#[test]
fn unregistered_icon_is_a_defect() {
    let icons = IconRegistry::builtin();
    let err = icons.lookup(&"gitlab".to_string()).unwrap_err();
    assert_eq!(err, ContentError::UnknownIcon("gitlab".to_string()));
    assert_eq!(err.message(), "icon not found: gitlab");
}

#[test]
fn button_from_text_has_no_icon() {
    let b = ButtonContent::from("Read more".to_string());
    assert_eq!(b, ButtonContent { text: "Read more".to_string(), icon: None });
}

#[test]
fn link_with_icon_becomes_button() {
    let b = link_button(&github_link(), &IconRegistry::builtin()).unwrap();
    assert_eq!(b.content.text, "GitHub");
    assert_eq!(b.content.icon, Some(Icon::Svg(GITHUB_ICON)));
    assert_eq!(
        b.effect,
        ButtonEffect::Link { url: "https://github.com/example/feed".to_string(), target: LINK_TARGET.to_string() }
    );
}

#[test]
fn link_without_icon_is_text_only() {
    let link = Link { url: "https://example.com".to_string(), icon_name: None, text: "Site".to_string() };
    let b = link_button(&link, &IconRegistry::builtin()).unwrap();
    assert_eq!(b.content.icon, None);
    assert_eq!(b.content.text, "Site");
}

#[test]
fn link_with_unknown_icon_fails() {
    let links = vec![
        github_link(),
        Link { url: "u".to_string(), icon_name: Some("mastodon".to_string()), text: "t".to_string() },
        Link { url: "v".to_string(), icon_name: Some("bluesky".to_string()), text: "s".to_string() },
    ];
    let err = link_buttons(&links, &IconRegistry::builtin()).err().unwrap();
    assert_eq!(err, ContentError::UnknownIcon("mastodon".to_string()));
}

#[test]
fn period_joins_start_and_end() {
    assert_eq!(period_text("February 2023", None), "February 2023 - Present");
    assert_eq!(period_text("November 2024", Some("December 2024")), "November 2024 - December 2024");
}

#[test]
fn period_label_writes_month_and_year() {
    assert_eq!(period_label(&date(2023, 2, 1), &None), "February 2023 - Present");
    assert_eq!(
        period_label(&date(2024, 11, 23), &Some(date(2024, 12, 7))),
        "November 2024 - December 2024"
    );
}

#[test]
fn date_format_uses_pattern() {
    assert_eq!(date(2024, 7, 15).format("%Y-%m-%d"), "2024-07-15");
}

#[test]
fn only_text_tags_are_shown() {
    let tags = vec![
        TagData::Icon { id: "rust".to_string(), icon_url: "rust.svg".to_string() },
        TagData::Text { id: "personal".to_string(), value: "Personal Project".to_string() },
        TagData::Icon { id: "wasm".to_string(), icon_url: "wasm.svg".to_string() },
        TagData::Text { id: "commercial".to_string(), value: "Commercial Experience".to_string() },
    ];
    assert_eq!(text_tags(&tags), vec![tags[1].clone(), tags[3].clone()]);
    assert!(text_tags(&vec![]).is_empty());
}

#[test]
fn card_of_a_project() {
    let p = Project {
        name: "Feed".to_string(),
        description: "# Hi Mercury!".to_string(),
        image_url: Some("images/feed.png".to_string()),
        tags: vec![TagData::Text { id: "personal".to_string(), value: "Personal Project".to_string() }],
        links: vec![github_link()],
        start_date: date(2025, 9, 13),
        end_date: None,
    };
    let c = p.card(&IconRegistry::builtin()).unwrap();
    assert_eq!(c.title, "Feed");
    assert_eq!(c.image_url, Some("images/feed.png".to_string()));
    assert_eq!(c.period, "September 2025 - Present");
    assert_eq!(c.description_html, "<h1>Hi Mercury!</h1>");
    assert_eq!(c.tags, p.tags);
    assert_eq!(c.buttons.len(), 1);
    assert_eq!(c.buttons[0].content.icon, Some(Icon::Svg(GITHUB_ICON)));
}

#[test]
fn card_fails_on_unknown_icon() {
    let p = Project {
        name: "Feed".to_string(),
        description: String::new(),
        image_url: None,
        tags: vec![],
        links: vec![Link { url: "u".to_string(), icon_name: Some("gitlab".to_string()), text: "t".to_string() }],
        start_date: date(2025, 9, 13),
        end_date: None,
    };
    let err = p.card(&IconRegistry::builtin()).err().unwrap();
    assert_eq!(err, ContentError::UnknownIcon("gitlab".to_string()));
}

#[test]
fn info_alert_class() {
    assert_eq!(AlertLevel::Info.class(), "info");
}
