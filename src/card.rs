use vstd::prelude::*;

use crate::buttons::{ButtonContent, ButtonEffect, Icon};
use crate::date::{strftime_text, Date};
use crate::error::ContentError;
use crate::icons::{find_icon, IconRegistry};
use crate::project::{Link, Project};
use crate::tags::TagData;

verus! {

/// The HTML that CommonMark gives for a markdown text.
pub uninterp spec fn html_of_markdown(text: Seq<char>) -> Seq<char>;

/// Relies on `markdown::to_html`: CommonMark to HTML with the default
/// options; the output depends on the text alone, and plain markdown has
/// no syntax errors, so the call does not fail.
#[verifier::external_body]
fn markdown_to_html(text: &str) -> (r: String)
    ensures
        r@ == html_of_markdown(text@),
{
    markdown::to_html(text)
}

/// The strftime pattern of a date on a card: full month name and year.
pub const MONTH_YEAR: &'static str = "%B %Y";

/// The browsing context in which project links open.
pub const LINK_TARGET: &'static str = "_blank";

/// How a date reads on a card.
pub open spec fn month_year(d: Date) -> Seq<char> {
    strftime_text(d.spec_year(), d.spec_month(), d.spec_day(), MONTH_YEAR@)
}

/// The period of a project: its start, a dash, and its end or "Present".
pub open spec fn period_of(start: Seq<char>, end: Option<Seq<char>>) -> Seq<char> {
    start + " - "@ + match end {
        Some(e) => e,
        None => "Present"@,
    }
}

/// Joins the written start and end of a project into its period.
pub fn period_text(start: &str, end: Option<&str>) -> (r: String)
    ensures
        r@ == period_of(start@, match end {
            Some(e) => Some(e@),
            None => None,
        }),
{
    let r = String::from_str(start).concat(" - ");
    match end {
        Some(e) => r.concat(e),
        None => r.concat("Present"),
    }
}

/// The period of a project as shown on its card.
pub fn period_label(start: &Date, end: &Option<Date>) -> (r: String)
    ensures
        r@ == period_of(month_year(*start), match *end {
            Some(e) => Some(month_year(e)),
            None => None,
        }),
{
    let s = start.format(MONTH_YEAR);
    match end {
        Some(e) => {
            let t = e.format(MONTH_YEAR);
            period_text(s.as_str(), Some(t.as_str()))
        },
        None => period_text(s.as_str(), None),
    }
}

/// Whether a tag is shown as text.
pub open spec fn is_text_tag(t: TagData) -> bool {
    t is Text
}

/// The text tags of a sequence, in order.
pub open spec fn text_tags_of(tags: Seq<TagData>) -> Seq<TagData> {
    tags.filter(|t: TagData| is_text_tag(t))
}

/// The tags of a card: the text ones, in order.
pub fn text_tags(tags: &Vec<TagData>) -> (r: Vec<TagData>)
    ensures
        r@ == text_tags_of(tags@),
{
    let mut out: Vec<TagData> = Vec::new();
    let mut i: usize = 0;
    while i < tags.len()
        invariant
            i <= tags@.len(),
            out@ == text_tags_of(tags@.subrange(0, i as int)),
        decreases tags.len() - i,
    {
        proof {
            let w = tags@.subrange(0, i + 1);
            assert(w.drop_last() =~= tags@.subrange(0, i as int));
            assert(w.last() == tags@[i as int]);
            reveal(Seq::filter);
        }
        match &tags[i] {
            TagData::Text { .. } => out.push(tags[i].clone()),
            TagData::Icon { .. } => {},
        }
        i = i + 1;
    }
    assert(tags@.subrange(0, i as int) =~= tags@);
    out
}

/// A link, ready to be shown as a button.
#[derive(Debug, PartialEq, Eq)]
pub struct LinkButton {
    pub content: ButtonContent,
    pub effect: ButtonEffect,
}

/// Whether the icon that a link names, if any, is in the table.
pub open spec fn icon_found(icons: Seq<(Seq<char>, Seq<char>)>, link: Link) -> bool {
    link.icon_name matches Some(n) ==> find_icon(icons, n@).is_some()
}

/// Whether `b` is the button for `link`: the link's text, the registered
/// markup of its icon, and its url opened in `LINK_TARGET`.
pub open spec fn is_button_for(b: LinkButton, link: Link, icons: Seq<(Seq<char>, Seq<char>)>) -> bool {
    &&& b.content.text == link.text
    &&& match link.icon_name {
        Some(n) => b.content.icon matches Some(Icon::Svg(svg)) && find_icon(icons, n@) == Some(svg@),
        None => b.content.icon.is_none(),
    }
    &&& b.effect matches ButtonEffect::Link { url, target } && url == link.url && target@ == LINK_TARGET@
}

/// The button for one link; its icon must be registered.
pub fn link_button(link: &Link, icons: &IconRegistry) -> (r: Result<LinkButton, ContentError>)
    ensures
        r.is_ok() <==> icon_found(icons@, *link),
        r matches Ok(b) ==> is_button_for(b, *link, icons@),
        r matches Err(e) ==> link.icon_name matches Some(n) && e == ContentError::UnknownIcon(n),
{
    let icon = match &link.icon_name {
        Some(n) => match icons.lookup(n) {
            Ok(svg) => Some(Icon::Svg(svg)),
            Err(e) => return Err(e),
        },
        None => None,
    };
    Ok(LinkButton {
        content: ButtonContent { text: link.text.clone(), icon },
        effect: ButtonEffect::Link { url: link.url.clone(), target: String::from_str(LINK_TARGET) },
    })
}

/// Whether every icon that `links` names is in the table.
pub open spec fn icons_found(icons: Seq<(Seq<char>, Seq<char>)>, links: Seq<Link>) -> bool {
    forall|i: int| 0 <= i < links.len() ==> #[trigger] icon_found(icons, links[i])
}

/// The first link whose icon is not in the table.
pub open spec fn first_unknown_icon(icons: Seq<(Seq<char>, Seq<char>)>, links: Seq<Link>) -> int {
    choose|i: int|
        0 <= i < links.len() && !icon_found(icons, links[i]) && forall|j: int|
            0 <= j < i ==> #[trigger] icon_found(icons, links[j])
}

/// The error for the first link whose icon is not in the table.
pub open spec fn unknown_icon_error(icons: Seq<(Seq<char>, Seq<char>)>, links: Seq<Link>) -> ContentError {
    ContentError::UnknownIcon(links[first_unknown_icon(icons, links)].icon_name->Some_0)
}

/// The buttons for a project's links, in order.
pub fn link_buttons(links: &Vec<Link>, icons: &IconRegistry) -> (r: Result<Vec<LinkButton>, ContentError>)
    ensures
        r.is_ok() <==> icons_found(icons@, links@),
        r matches Ok(bs) ==> bs@.len() == links@.len() && forall|i: int|
            0 <= i < links@.len() ==> is_button_for(#[trigger] bs@[i], links@[i], icons@),
        r matches Err(e) ==> e == unknown_icon_error(icons@, links@),
{
    let mut out: Vec<LinkButton> = Vec::new();
    let mut i: usize = 0;
    while i < links.len()
        invariant
            i <= links@.len(),
            out@.len() == i,
            forall|j: int| 0 <= j < i ==> is_button_for(#[trigger] out@[j], links@[j], icons@),
            forall|j: int| 0 <= j < i ==> #[trigger] icon_found(icons@, links@[j]),
        decreases links.len() - i,
    {
        match link_button(&links[i], icons) {
            Ok(b) => out.push(b),
            Err(e) => {
                let ghost k = first_unknown_icon(icons@, links@);
                assert(!icon_found(icons@, links@[i as int]));
                assert(k == i) by {
                    if k < i {
                        assert(icon_found(icons@, links@[k]));
                    } else if k > i {
                        assert(icon_found(icons@, links@[i as int]));
                    }
                }
                return Err(e);
            },
        }
        i = i + 1;
    }
    Ok(out)
}

/// Everything a project's card shows, ready for the page.
pub struct ProjectCard {
    pub image_url: Option<String>,
    pub tags: Vec<TagData>,
    pub title: String,
    pub period: String,
    pub description_html: String,
    pub buttons: Vec<LinkButton>,
}

impl Project {
    /// Assembles the card of this project: its image, its text tags, its
    /// name, its period, its description as HTML and a button per link.
    /// A link naming an unregistered icon is a content defect.
    pub fn card(&self, icons: &IconRegistry) -> (r: Result<ProjectCard, ContentError>)
        ensures
            r.is_ok() <==> icons_found(icons@, self.links@),
            r matches Ok(c) ==> {
                &&& c.image_url == self.image_url
                &&& c.tags@ == text_tags_of(self.tags@)
                &&& c.title == self.name
                &&& c.period@ == period_of(month_year(self.start_date), match self.end_date {
                    Some(e) => Some(month_year(e)),
                    None => None,
                })
                &&& c.description_html@ == html_of_markdown(self.description@)
                &&& c.buttons@.len() == self.links@.len()
                &&& forall|i: int| 0 <= i < self.links@.len() ==> is_button_for(#[trigger] c.buttons@[i], self.links@[i], icons@)
            },
            r matches Err(e) ==> e == unknown_icon_error(icons@, self.links@),
    {
        let buttons = match link_buttons(&self.links, icons) {
            Ok(b) => b,
            Err(e) => return Err(e),
        };
        let image_url = match &self.image_url {
            Some(u) => Some(u.clone()),
            None => None,
        };
        Ok(ProjectCard {
            image_url,
            tags: text_tags(&self.tags),
            title: self.name.clone(),
            period: period_label(&self.start_date, &self.end_date),
            description_html: markdown_to_html(self.description.as_str()),
            buttons,
        })
    }
}

} // verus!
