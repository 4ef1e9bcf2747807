use vstd::prelude::*;

use core::cmp::Ordering;

use crate::date::{compare_ints, Date};
use crate::error::ContentError;
use crate::tags::{all_found, ids_view, missing_tag_error, resolve_tags, resolves_to, TagData};

verus! {

/// A link shown under a project, with an optional icon from the registry.
#[derive(Debug, PartialEq, Eq)]
pub struct Link {
    pub url: String,
    pub icon_name: Option<String>,
    pub text: String,
}

impl Clone for Link {
    fn clone(&self) -> (r: Self)
        ensures
            r == *self,
    {
        let icon_name = match &self.icon_name {
            Some(n) => Some(n.clone()),
            None => None,
        };
        Link { url: self.url.clone(), icon_name, text: self.text.clone() }
    }
}

/// A project as authored: its tags are ids into the tag catalog.
pub struct ProjectData {
    pub name: String,
    pub description: String,
    pub image_url: Option<String>,
    pub tags: Vec<String>,
    pub links: Vec<Link>,
    pub start_date: Date,
    pub end_date: Option<Date>,
}

/// A project whose tags have been resolved against the catalog.
pub struct Project {
    pub name: String,
    pub description: String,
    pub image_url: Option<String>,
    pub tags: Vec<TagData>,
    pub links: Vec<Link>,
    pub start_date: Date,
    pub end_date: Option<Date>,
}

/// Whether `p` is `src` with its tag ids replaced by their catalog entries.
pub open spec fn is_resolution(p: Project, src: ProjectData, catalog: Seq<TagData>) -> bool {
    &&& p.name == src.name
    &&& p.description == src.description
    &&& p.image_url == src.image_url
    &&& p.links@ == src.links@
    &&& p.start_date == src.start_date
    &&& p.end_date == src.end_date
    &&& resolves_to(catalog, ids_view(src.tags@), p.tags@)
}

fn clone_option_string(s: &Option<String>) -> (r: Option<String>)
    ensures
        r == *s,
{
    match s {
        Some(v) => Some(v.clone()),
        None => None,
    }
}

impl ProjectData {
    /// Resolves the project's tag ids against the catalog; every other field
    /// is kept as authored.
    pub fn to_project(&self, tags: &Vec<TagData>) -> (r: Result<Project, ContentError>)
        ensures
            r.is_ok() <==> all_found(tags@, ids_view(self.tags@)),
            r matches Ok(p) ==> is_resolution(p, *self, tags@),
            r matches Err(e) ==> e == missing_tag_error(tags@, self.tags@),
    {
        let resolved = match resolve_tags(&self.tags, tags) {
            Ok(t) => t,
            Err(e) => return Err(e),
        };
        let links = self.links.clone();
        assert(links@ =~= self.links@);
        Ok(Project {
            name: self.name.clone(),
            description: self.description.clone(),
            image_url: clone_option_string(&self.image_url),
            tags: resolved,
            links,
            start_date: self.start_date,
            end_date: self.end_date,
        })
    }
}

/// Where a project stands in ascending order: projects that ended come
/// first, by end date, then the ongoing ones, by start date.
pub open spec fn dates_order(a_start: Date, a_end: Option<Date>, b_start: Date, b_end: Option<Date>) -> Ordering {
    match (a_end, b_end) {
        (Some(x), Some(y)) => compare_ints(x.key(), y.key()),
        (Some(_), None) => Ordering::Less,
        (None, Some(_)) => Ordering::Greater,
        (None, None) => compare_ints(a_start.key(), b_start.key()),
    }
}

impl Project {
    pub open spec fn order_to(&self, other: &Project) -> Ordering {
        dates_order(self.start_date, self.end_date, other.start_date, other.end_date)
    }

    /// Compares two projects by their dates, ascending.
    pub fn cmp_dates(&self, other: &Self) -> (r: Ordering)
        ensures
            r == self.order_to(other),
    {
        match (&self.end_date, &other.end_date) {
            (Some(a), Some(b)) => a.compare(b),
            (Some(_), None) => Ordering::Less,
            (None, Some(_)) => Ordering::Greater,
            (None, None) => self.start_date.compare(&other.start_date),
        }
    }
}

} // verus!
