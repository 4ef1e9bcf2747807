use vstd::prelude::*;

verus! {

/// The severity of an alert box.
#[derive(Clone, Copy, Debug, PartialEq, Eq)]
pub enum AlertLevel {
    Info,
}

impl AlertLevel {
    /// The style class of the alert box.
    pub fn class(&self) -> (r: String)
        ensures
            r@ == match *self {
                AlertLevel::Info => "info"@,
            },
    {
        match self {
            AlertLevel::Info => String::from_str("info"),
        }
    }
}

} // verus!
