use vstd::prelude::*;

use crate::error::ContentError;

verus! {

/// The GitHub mark, as inline SVG markup.
pub const GITHUB_ICON: &'static str = "<svg xmlns=\"http://www.w3.org/2000/svg\" viewBox=\"0 0 16 16\" width=\"16\" height=\"16\" fill=\"currentColor\" aria-hidden=\"true\"><path d=\"M8 0C3.58 0 0 3.58 0 8c0 3.54 2.29 6.53 5.47 7.59.4.07.55-.17.55-.38 0-.19-.01-.82-.01-1.49-2.01.37-2.53-.49-2.69-.94-.09-.23-.48-.94-.82-1.13-.28-.15-.68-.52-.01-.53.63-.01 1.08.58 1.23.82.72 1.21 1.87.87 2.33.66.07-.52.28-.87.51-1.07-1.78-.2-3.64-.89-3.64-3.95 0-.87.31-1.59.82-2.15-.08-.2-.36-1.02.08-2.12 0 0 .67-.21 2.2.82.64-.18 1.32-.27 2-.27.68 0 1.36.09 2 .27 1.53-1.04 2.2-.82 2.2-.82.44 1.1.16 1.92.08 2.12.51.56.82 1.27.82 2.15 0 3.07-1.87 3.75-3.65 3.95.29.25.54.73.54 1.48 0 1.07-.01 1.93-.01 2.2 0 .21.15.46.55.38A8.013 8.013 0 0016 8c0-4.42-3.58-8-8-8z\"></path></svg>";

/// The markup that `table` pairs with `name`: the first entry of that name.
pub open spec fn find_icon(table: Seq<(Seq<char>, Seq<char>)>, name: Seq<char>) -> Option<Seq<char>>
    decreases table.len(),
{
    if table.len() == 0 {
        None
    } else if table[0].0 == name {
        Some(table[0].1)
    } else {
        find_icon(table.drop_first(), name)
    }
}

/// A fixed table from short icon names to inline SVG markup.
pub struct IconRegistry {
    entries: Vec<(String, &'static str)>,
}

impl View for IconRegistry {
    type V = Seq<(Seq<char>, Seq<char>)>;

    closed spec fn view(&self) -> Seq<(Seq<char>, Seq<char>)> {
        self.entries@.map_values(|e: (String, &'static str)| (e.0@, e.1@))
    }
}

impl IconRegistry {
    /// The icons this site ships with.
    pub fn builtin() -> (r: IconRegistry)
        ensures
            r@ == seq![("github"@, GITHUB_ICON@)],
    {
        let mut entries: Vec<(String, &'static str)> = Vec::new();
        entries.push((String::from_str("github"), GITHUB_ICON));
        let r = IconRegistry { entries };
        assert(r@ =~= seq![("github"@, GITHUB_ICON@)]);
        r
    }

    /// The markup registered under `name`; an unknown name is a content
    /// defect.
    pub fn lookup(&self, name: &String) -> (r: Result<&'static str, ContentError>)
        ensures
            r.is_ok() <==> find_icon(self@, name@).is_some(),
            r matches Ok(svg) ==> find_icon(self@, name@) == Some(svg@),
            r matches Err(e) ==> e == ContentError::UnknownIcon(*name),
    {
        let mut i: usize = 0;
        assert(self@.subrange(0, self@.len() as int) =~= self@);
        while i < self.entries.len()
            invariant
                i <= self.entries@.len(),
                find_icon(self@, name@) == find_icon(self@.subrange(i as int, self@.len() as int), name@),
            decreases self.entries.len() - i,
        {
            let ghost rest = self@.subrange(i as int, self@.len() as int);
            assert(rest.drop_first() =~= self@.subrange(i + 1, self@.len() as int));
            assert(rest[0] == (self.entries@[i as int].0@, self.entries@[i as int].1@));
            if self.entries[i].0.eq(name) {
                return Ok(self.entries[i].1);
            }
            i = i + 1;
        }
        Err(ContentError::UnknownIcon(name.clone()))
    }
}

} // verus!
