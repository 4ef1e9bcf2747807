use vstd::prelude::*;

verus! {

/// A defect in the authored content. Content is fixed when the site is
/// built, so such an error means the site must refuse to render.
#[derive(Debug, PartialEq, Eq)]
pub enum ContentError {
    /// A project refers to a tag id that the catalog does not hold.
    UnknownTag(String),
    /// A link refers to an icon name that the registry does not hold.
    UnknownIcon(String),
}

impl ContentError {
    /// A one-line diagnostic that names the offending id or name.
    pub fn message(&self) -> (r: String)
        ensures
            r@ == match *self {
                ContentError::UnknownTag(id) => "tag not found: "@ + id@,
                ContentError::UnknownIcon(name) => "icon not found: "@ + name@,
            },
    {
        match self {
            ContentError::UnknownTag(id) => {
                let r = String::from_str("tag not found: ");
                r.concat(id.as_str())
            },
            ContentError::UnknownIcon(name) => {
                let r = String::from_str("icon not found: ");
                r.concat(name.as_str())
            },
        }
    }
}

} // verus!
