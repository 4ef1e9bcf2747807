use vstd::prelude::*;

use crate::error::ContentError;
use crate::ordering::{sort_by_dates, sorted_by_dates};
use crate::project::{is_resolution, Project, ProjectData};
use crate::tags::{all_found, ids_view, missing_tag_error, TagData};

verus! {

/// Whether every project of `sources` names only tags of the catalog.
pub open spec fn all_resolvable(catalog: Seq<TagData>, sources: Seq<ProjectData>) -> bool {
    forall|i: int| 0 <= i < sources.len() ==> #[trigger] all_found(catalog, ids_view(sources[i].tags@))
}

/// The first project of `sources` that names a tag the catalog lacks.
pub open spec fn first_unresolvable(catalog: Seq<TagData>, sources: Seq<ProjectData>) -> int {
    choose|i: int|
        0 <= i < sources.len() && !all_found(catalog, ids_view(sources[i].tags@)) && forall|j: int|
            0 <= j < i ==> #[trigger] all_found(catalog, ids_view(sources[j].tags@))
}

/// Resolves every authored project against the catalog and sorts the
/// result by dates, ascending. A tag that the catalog lacks stops it: the
/// error names the first such tag of the first such project.
pub fn prepare_projects(sources: &Vec<ProjectData>, catalog: &Vec<TagData>) -> (r: Result<Vec<Project>, ContentError>)
    ensures
        r.is_ok() <==> all_resolvable(catalog@, sources@),
        r matches Ok(ps) ==> exists|resolved: Seq<Project>|
            {
                &&& resolved.len() == sources@.len()
                &&& forall|i: int| 0 <= i < sources@.len() ==> is_resolution(#[trigger] resolved[i], sources@[i], catalog@)
                &&& ps@ == sorted_by_dates(resolved)
            },
        r matches Err(e) ==> e == missing_tag_error(catalog@, sources@[first_unresolvable(catalog@, sources@)].tags@),
{
    let mut resolved: Vec<Project> = Vec::new();
    let mut i: usize = 0;
    while i < sources.len()
        invariant
            i <= sources@.len(),
            resolved@.len() == i,
            forall|j: int| 0 <= j < i ==> is_resolution(#[trigger] resolved@[j], sources@[j], catalog@),
            forall|j: int| 0 <= j < i ==> #[trigger] all_found(catalog@, ids_view(sources@[j].tags@)),
        decreases sources.len() - i,
    {
        match sources[i].to_project(catalog) {
            Ok(p) => resolved.push(p),
            Err(e) => {
                let ghost k = first_unresolvable(catalog@, sources@);
                assert(!all_found(catalog@, ids_view(sources@[i as int].tags@)));
                assert(k == i) by {
                    if k < i {
                        assert(all_found(catalog@, ids_view(sources@[k].tags@)));
                    } else if k > i {
                        assert(all_found(catalog@, ids_view(sources@[i as int].tags@)));
                    }
                }
                return Err(e);
            },
        }
        i = i + 1;
    }
    let ghost all = resolved@;
    let sorted = sort_by_dates(resolved);
    assert(all.len() == sources@.len());
    Ok(sorted)
}

} // verus!
