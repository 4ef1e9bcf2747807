use vstd::prelude::*;

use crate::error::ContentError;

verus! {

/// A label that can be attached to a project: shown either as an icon or
/// as text. The id is unique within a catalog.
#[derive(Debug, PartialEq, Eq)]
pub enum TagData {
    Icon { id: String, icon_url: String },
    Text { id: String, value: String },
}

impl Clone for TagData {
    fn clone(&self) -> (r: Self)
        ensures
            r == *self,
    {
        match self {
            TagData::Icon { id, icon_url } => TagData::Icon { id: id.clone(), icon_url: icon_url.clone() },
            TagData::Text { id, value } => TagData::Text { id: id.clone(), value: value.clone() },
        }
    }
}

impl TagData {
    /// The id of the tag, whichever its variant.
    pub open spec fn spec_id(&self) -> Seq<char> {
        match *self {
            TagData::Icon { id, .. } => id@,
            TagData::Text { id, .. } => id@,
        }
    }

    pub fn id(&self) -> (r: &String)
        ensures
            r@ == self.spec_id(),
    {
        match self {
            TagData::Icon { id, icon_url: _ } => id,
            TagData::Text { id, value: _ } => id,
        }
    }
}

/// The catalog entry that an id refers to. Where the catalog holds the id
/// more than once, the later entry wins.
pub open spec fn find_tag(catalog: Seq<TagData>, id: Seq<char>) -> Option<TagData>
    decreases catalog.len(),
{
    if catalog.len() == 0 {
        None
    } else if catalog.last().spec_id() == id {
        Some(catalog.last())
    } else {
        find_tag(catalog.drop_last(), id)
    }
}

/// Whether every id of `ids` is in the catalog.
pub open spec fn all_found(catalog: Seq<TagData>, ids: Seq<Seq<char>>) -> bool {
    forall|i: int| 0 <= i < ids.len() ==> #[trigger] find_tag(catalog, ids[i]).is_some()
}

/// The first id of `ids` that the catalog does not hold.
pub open spec fn first_missing(catalog: Seq<TagData>, ids: Seq<Seq<char>>) -> int
    recommends
        !all_found(catalog, ids),
{
    choose|i: int|
        0 <= i < ids.len() && find_tag(catalog, ids[i]).is_none() && forall|j: int|
            0 <= j < i ==> #[trigger] find_tag(catalog, ids[j]).is_some()
}

/// Whether `tags` holds, for each id of `ids` in turn, its catalog entry.
pub open spec fn resolves_to(catalog: Seq<TagData>, ids: Seq<Seq<char>>, tags: Seq<TagData>) -> bool {
    &&& tags.len() == ids.len()
    &&& forall|i: int| 0 <= i < ids.len() ==> Some(#[trigger] tags[i]) == find_tag(catalog, ids[i])
}

/// The error for the first id of `ids` that the catalog lacks.
pub open spec fn missing_tag_error(catalog: Seq<TagData>, ids: Seq<String>) -> ContentError {
    ContentError::UnknownTag(ids[first_missing(catalog, ids_view(ids))])
}

/// Looks up one id in the catalog.
pub fn lookup_tag(catalog: &Vec<TagData>, id: &String) -> (r: Option<TagData>)
    ensures
        r == find_tag(catalog@, id@),
{
    let mut i: usize = catalog.len();
    assert(catalog@.subrange(0, i as int) =~= catalog@);
    while i > 0
        invariant
            i <= catalog.len(),
            find_tag(catalog@, id@) == find_tag(catalog@.subrange(0, i as int), id@),
        decreases i,
    {
        let ghost prefix = catalog@.subrange(0, i as int);
        assert(prefix.drop_last() =~= catalog@.subrange(0, i - 1));
        assert(prefix.last() == catalog@[i - 1]);
        if catalog[i - 1].id().eq(id) {
            return Some(catalog[i - 1].clone());
        }
        i = i - 1;
    }
    assert(catalog@.subrange(0, 0).len() == 0);
    None
}

/// The view of a sequence of id strings.
pub open spec fn ids_view(ids: Seq<String>) -> Seq<Seq<char>> {
    ids.map_values(|s: String| s@)
}

/// Replaces each id by its catalog entry, in the order of `ids`. The first
/// id that the catalog lacks is reported.
pub fn resolve_tags(ids: &Vec<String>, catalog: &Vec<TagData>) -> (r: Result<Vec<TagData>, ContentError>)
    ensures
        r.is_ok() <==> all_found(catalog@, ids_view(ids@)),
        r matches Ok(tags) ==> resolves_to(catalog@, ids_view(ids@), tags@),
        r matches Err(e) ==> e == missing_tag_error(catalog@, ids@),
{
    let mut out: Vec<TagData> = Vec::new();
    let mut i: usize = 0;
    while i < ids.len()
        invariant
            i <= ids.len(),
            out@.len() == i,
            forall|j: int| 0 <= j < i ==> Some(#[trigger] out@[j]) == find_tag(catalog@, ids@[j]@),
        decreases ids.len() - i,
    {
        match lookup_tag(catalog, &ids[i]) {
            Some(t) => out.push(t),
            None => {
                let ghost v = ids_view(ids@);
                assert(find_tag(catalog@, v[i as int]).is_none());
                assert forall|j: int| 0 <= j < i implies #[trigger] find_tag(catalog@, v[j]).is_some() by {
                    assert(Some(out@[j]) == find_tag(catalog@, ids@[j]@));
                }
                let ghost k = first_missing(catalog@, v);
                assert(k == i) by {
                    if k < i {
                        assert(find_tag(catalog@, v[k]).is_some());
                    } else if k > i {
                        assert(find_tag(catalog@, v[i as int]).is_some());
                    }
                }
                return Err(ContentError::UnknownTag(ids[i].clone()));
            },
        }
        i = i + 1;
    }
    assert forall|j: int| 0 <= j < ids@.len() implies #[trigger] find_tag(catalog@, ids_view(ids@)[j]).is_some() by {
        assert(Some(out@[j]) == find_tag(catalog@, ids@[j]@));
    }
    Ok(out)
}

/// What the catalog gives for an id is one of its entries, with that id.
pub proof fn lemma_found_entry(catalog: Seq<TagData>, id: Seq<char>)
    ensures
        find_tag(catalog, id) matches Some(t) ==> t.spec_id() == id && catalog.contains(t),
    decreases catalog.len(),
{
    if catalog.len() > 0 && catalog.last().spec_id() != id {
        lemma_found_entry(catalog.drop_last(), id);
        if find_tag(catalog, id) is Some {
            let t = find_tag(catalog, id)->Some_0;
            let k = choose|k: int| 0 <= k < catalog.len() - 1 && catalog.drop_last()[k] == t;
            assert(catalog[k] == t);
        }
    } else if catalog.len() > 0 {
        assert(catalog[catalog.len() - 1] == catalog.last());
    }
}

/// An id that some entry of the catalog carries is found.
proof fn lemma_present_found(catalog: Seq<TagData>, id: Seq<char>, k: int)
    requires
        0 <= k < catalog.len(),
        catalog[k].spec_id() == id,
    ensures
        find_tag(catalog, id).is_some(),
    decreases catalog.len(),
{
    if k < catalog.len() - 1 && catalog.last().spec_id() != id {
        assert(catalog.drop_last()[k] == catalog[k]);
        lemma_present_found(catalog.drop_last(), id, k);
    }
}

/// Whether some entry of the catalog has the id.
pub open spec fn carries(catalog: Seq<TagData>, id: Seq<char>) -> bool {
    exists|k: int| 0 <= k < catalog.len() && #[trigger] catalog[k].spec_id() == id
}

/// Resolving against a catalog that carries every requested id succeeds,
/// and gives, in the order of the ids, an entry of the catalog with each id.
pub proof fn lemma_resolution_total(catalog: Seq<TagData>, ids: Seq<Seq<char>>, tags: Seq<TagData>)
    requires
        forall|i: int| 0 <= i < ids.len() ==> #[trigger] carries(catalog, ids[i]),
    ensures
        all_found(catalog, ids),
        resolves_to(catalog, ids, tags) ==> {
            &&& tags.len() == ids.len()
            &&& forall|i: int| 0 <= i < ids.len() ==> (#[trigger] tags[i]).spec_id() == ids[i] && catalog.contains(tags[i])
        },
{
    assert forall|i: int| 0 <= i < ids.len() implies #[trigger] find_tag(catalog, ids[i]).is_some() by {
        assert(carries(catalog, ids[i]));
        let k = choose|k: int| 0 <= k < catalog.len() && #[trigger] catalog[k].spec_id() == ids[i];
        lemma_present_found(catalog, ids[i], k);
    }
    if resolves_to(catalog, ids, tags) {
        assert forall|i: int| 0 <= i < ids.len() implies (#[trigger] tags[i]).spec_id() == ids[i] && catalog.contains(tags[i]) by {
            lemma_found_entry(catalog, ids[i]);
        }
    }
}

proof fn lemma_first_missing_from(catalog: Seq<TagData>, ids: Seq<Seq<char>>, i: int)
    requires
        0 <= i < ids.len(),
        find_tag(catalog, ids[i]).is_none(),
    ensures
        exists|k: int|
            0 <= k < ids.len() && find_tag(catalog, ids[k]).is_none() && forall|j: int|
                0 <= j < k ==> #[trigger] find_tag(catalog, ids[j]).is_some(),
    decreases i,
{
    if exists|j: int| 0 <= j < i && #[trigger] find_tag(catalog, ids[j]).is_none() {
        let j = choose|j: int| 0 <= j < i && #[trigger] find_tag(catalog, ids[j]).is_none();
        lemma_first_missing_from(catalog, ids, j);
    }
}

/// An id that the catalog lacks is reported: the error names the first
/// requested id that the catalog does not carry.
pub proof fn lemma_missing_tag_reported(catalog: Seq<TagData>, ids: Seq<String>)
    requires
        !all_found(catalog, ids_view(ids)),
    ensures
        0 <= first_missing(catalog, ids_view(ids)) < ids.len(),
        missing_tag_error(catalog, ids) == ContentError::UnknownTag(ids[first_missing(catalog, ids_view(ids))]),
        forall|k: int| 0 <= k < catalog.len() ==> #[trigger] catalog[k].spec_id() != ids[first_missing(catalog, ids_view(ids))]@,
{
    let v = ids_view(ids);
    let i = choose|i: int| 0 <= i < v.len() && !#[trigger] find_tag(catalog, v[i]).is_some();
    lemma_first_missing_from(catalog, v, i);
    let m = first_missing(catalog, v);
    assert forall|k: int| 0 <= k < catalog.len() implies #[trigger] catalog[k].spec_id() != ids[m]@ by {
        if catalog[k].spec_id() == ids[m]@ {
            lemma_present_found(catalog, v[m], k);
        }
    }
}

proof fn lemma_find_unique(catalog: Seq<TagData>, id: Seq<char>, k: int)
    requires
        0 <= k < catalog.len(),
        catalog[k].spec_id() == id,
        forall|j: int| 0 <= j < catalog.len() && j != k ==> #[trigger] catalog[j].spec_id() != id,
    ensures
        find_tag(catalog, id) == Some(catalog[k]),
    decreases catalog.len(),
{
    if k < catalog.len() - 1 {
        let d = catalog.drop_last();
        assert(catalog[catalog.len() - 1].spec_id() != id);
        assert forall|j: int| 0 <= j < d.len() && j != k implies #[trigger] d[j].spec_id() != id by {
            assert(d[j] == catalog[j]);
        }
        lemma_find_unique(d, id, k);
    }
}

/// A single requested id, carried by exactly one text entry of the catalog,
/// resolves to that entry and so shows its value.
pub proof fn lemma_single_tag_round_trip(catalog: Seq<TagData>, ids: Seq<Seq<char>>, k: int, tags: Seq<TagData>)
    requires
        ids.len() == 1,
        0 <= k < catalog.len(),
        catalog[k] is Text,
        catalog[k].spec_id() == ids[0],
        forall|j: int| 0 <= j < catalog.len() && j != k ==> #[trigger] catalog[j].spec_id() != ids[0],
    ensures
        all_found(catalog, ids),
        resolves_to(catalog, ids, tags) ==> tags == seq![catalog[k]] && tags[0] is Text
            && tags[0]->Text_value == catalog[k]->Text_value,
{
    lemma_find_unique(catalog, ids[0], k);
    if resolves_to(catalog, ids, tags) {
        assert(tags[0] == catalog[k]);
        assert(tags =~= seq![catalog[k]]);
    }
}

} // verus!
