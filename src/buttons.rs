use vstd::prelude::*;

verus! {

/// The icon of a button: an image to load, or inline SVG markup.
#[derive(Debug, PartialEq, Eq)]
pub enum Icon {
    Url(String),
    Svg(&'static str),
}

/// What a button shows: its text, and an icon before it.
#[derive(Debug, PartialEq, Eq)]
pub struct ButtonContent {
    pub text: String,
    pub icon: Option<Icon>,
}

impl From<String> for ButtonContent {
    fn from(value: String) -> (r: Self) {
        ButtonContent { text: value, icon: None }
    }
}

impl vstd::std_specs::convert::FromSpecImpl<String> for ButtonContent {
    open spec fn obeys_from_spec() -> bool {
        true
    }

    open spec fn from_spec(v: String) -> ButtonContent {
        ButtonContent { text: v, icon: None }
    }
}

/// What a button does: here, follow a link in the given browsing context.
#[derive(Debug, PartialEq, Eq)]
pub enum ButtonEffect {
    Link { url: String, target: String },
}

} // verus!
