use vstd::prelude::*;

verus! {

/// The key under which the theme is persisted in client storage.
pub const THEME_KEY: &'static str = "theme";

/// The value stored for the light theme.
pub const LIGHT: &'static str = "light";

/// The value stored for the dark theme.
pub const DARK: &'static str = "dark";

/// The theme a visitor can pick. `Auto` follows the browser, and is
/// persisted as the absence of a stored value.
#[derive(Clone, Copy, Debug, PartialEq, Eq)]
pub enum Theme {
    Auto,
    Light,
    Dark,
}

/// A change to make to client storage under `THEME_KEY`.
#[derive(Debug, PartialEq, Eq)]
pub enum StoreUpdate {
    Remove,
    Write(&'static str),
}

/// Whether the stored entry is the candidate; `None` stands for no entry.
pub open spec fn theme_matches(stored: Option<Seq<char>>, candidate: Option<Seq<char>>) -> bool {
    stored == candidate
}

/// The view of an optional string.
pub open spec fn opt_view(s: Option<&str>) -> Option<Seq<char>> {
    match s {
        Some(v) => Some(v@),
        None => None,
    }
}

impl Theme {
    /// What storage holds once the theme is picked.
    pub open spec fn spec_stored(&self) -> Option<Seq<char>> {
        match *self {
            Theme::Auto => None,
            Theme::Light => Some(LIGHT@),
            Theme::Dark => Some(DARK@),
        }
    }

    /// The value persisted for the theme: none for `Auto`.
    pub fn stored_value(&self) -> (r: Option<&'static str>)
        ensures
            opt_view(r) == self.spec_stored(),
    {
        match self {
            Theme::Auto => None,
            Theme::Light => Some(LIGHT),
            Theme::Dark => Some(DARK),
        }
    }

    /// The change to storage that picking the theme makes: `Auto` removes
    /// the entry rather than storing a sentinel.
    pub fn update(&self) -> (r: StoreUpdate)
        ensures
            match r {
                StoreUpdate::Remove => self.spec_stored().is_none(),
                StoreUpdate::Write(v) => self.spec_stored() == Some(v@),
            },
    {
        match self.stored_value() {
            Some(v) => StoreUpdate::Write(v),
            None => StoreUpdate::Remove,
        }
    }
}

/// The persisted theme entry, as the page last read or wrote it. A store
/// that could not be read is an empty one.
pub struct ThemeStore {
    entry: Option<String>,
}

impl View for ThemeStore {
    type V = Option<Seq<char>>;

    closed spec fn view(&self) -> Option<Seq<char>> {
        match self.entry {
            Some(s) => Some(s@),
            None => None,
        }
    }
}

impl ThemeStore {
    /// The store as read; a failed read is given as `None`.
    pub fn new(entry: Option<String>) -> (r: ThemeStore)
        ensures
            r@ == match entry {
                Some(s) => Some(s@),
                None => None,
            },
    {
        ThemeStore { entry }
    }

    /// The stored entry, if any.
    pub fn entry(&self) -> (r: Option<&str>)
        ensures
            opt_view(r) == self@,
    {
        match &self.entry {
            Some(s) => Some(s.as_str()),
            None => None,
        }
    }

    /// Writes a value under the theme key.
    pub fn persist(&mut self, value: &str)
        ensures
            final(self)@ == Some(value@),
    {
        self.entry = Some(String::from_str(value));
    }

    /// Removes the theme entry.
    pub fn clear(&mut self)
        ensures
            final(self)@ == None::<Seq<char>>,
    {
        self.entry = None;
    }

    /// Records that the visitor picked `theme`, and says how client
    /// storage must change to match.
    pub fn select(&mut self, theme: Theme) -> (r: StoreUpdate)
        ensures
            final(self)@ == theme.spec_stored(),
            match r {
                StoreUpdate::Remove => theme.spec_stored().is_none(),
                StoreUpdate::Write(v) => theme.spec_stored() == Some(v@),
            },
    {
        let r = theme.update();
        match r {
            StoreUpdate::Write(v) => self.persist(v),
            StoreUpdate::Remove => self.clear(),
        }
        r
    }

    /// Whether the stored entry is `candidate`; `None` matches only a store
    /// without an entry.
    pub fn is_current_theme(&self, candidate: Option<&str>) -> (r: bool)
        ensures
            r == theme_matches(self@, opt_view(candidate)),
    {
        match (&self.entry, candidate) {
            (None, None) => true,
            (Some(s), Some(c)) => s.eq(&String::from_str(c)),
            _ => false,
        }
    }
}

/// How the theme entry answers queries: an empty store matches exactly
/// `None`; once "dark" is persisted it matches "dark" and not "light"; once
/// cleared it matches `None` again.
pub proof fn lemma_theme_queries(stored: Option<Seq<char>>)
    ensures
        theme_matches(stored, None) <==> stored.is_none(),
        theme_matches(Some(DARK@), Some(DARK@)),
        !theme_matches(Some(DARK@), Some(LIGHT@)),
        theme_matches(None, None),
{
    reveal_strlit("dark");
    reveal_strlit("light");
    assert(DARK@[0] != LIGHT@[0]);
}

} // verus!
