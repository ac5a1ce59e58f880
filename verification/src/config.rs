//! The configuration store: the one value the shell persists, the server
//! URL, with get / set / delete over it.
//!
//! Durability is the host's part: it loads the persisted key into a store
//! with [`ConfigStore::load`] and writes the store's content back out after
//! every [`ConfigStore::set`] or [`ConfigStore::delete`]. Everything the
//! store decides — what counts as a stored value, how a new value is
//! normalized — is here.

use vstd::prelude::*;
use crate::url_text::{no_trailing_slash, strip_slashes, trim_end_slashes};
use crate::url_text::lemma_strip_no_trailing_slash;

verus! {

/// A raw value as read from the persisted key-value file: the shell's key
/// may hold a string or some other JSON shape.
pub enum ConfigValue {
    /// The key holds a string.
    Text(String),
    /// The key holds something that is not a string.
    NotText,
}

/// The single-key configuration store: remembers the server URL, or nothing.
pub struct ConfigStore {
    url: Option<String>,
}

impl View for ConfigStore {
    type V = Option<Seq<char>>;

    closed spec fn view(&self) -> Option<Seq<char>> {
        self.url.deep_view()
    }
}

/// What a store remembers right after `set(url)`: the URL with its trailing
/// slashes removed, whatever it remembered before.
pub open spec fn after_set(before: Option<Seq<char>>, url: Seq<char>) -> Option<Seq<char>> {
    Some(strip_slashes(url))
}

/// What a store remembers right after `delete()`: nothing, whatever it
/// remembered before.
pub open spec fn after_delete(before: Option<Seq<char>>) -> Option<Seq<char>> {
    None
}

/// What `get()` answers: exactly what the store remembers.
pub open spec fn get_result(stored: Option<Seq<char>>) -> Option<Seq<char>> {
    stored
}

/// The value a raw persisted entry contributes: a string is adopted as it
/// stands; a missing or non-string entry counts as absence.
pub open spec fn loaded(raw: Option<ConfigValue>) -> Option<Seq<char>> {
    match raw {
        Some(ConfigValue::Text(t)) => Some(t@),
        Some(ConfigValue::NotText) => None,
        None => None,
    }
}

impl ConfigStore {
    /// The data-model invariant: a present URL carries no trailing slash.
    /// Every store this library itself writes satisfies it; a loaded one
    /// repeats whatever the file held.
    pub open spec fn wf(&self) -> bool {
        match self@ {
            Some(u) => no_trailing_slash(u),
            None => true,
        }
    }

    /// A store that remembers nothing, as on a fresh install.
    pub fn new() -> (s: Self)
        ensures
            s@ == None::<Seq<char>>,
            s.wf(),
    {
        ConfigStore { url: None }
    }

    /// Builds the store from the raw persisted entry: a string is adopted,
    /// a missing or unreadable or non-string entry counts as absence.
    pub fn load(raw: Option<ConfigValue>) -> (s: Self)
        ensures
            s@ == loaded(raw),
    {
        match raw {
            Some(ConfigValue::Text(t)) => ConfigStore { url: Some(t) },
            Some(ConfigValue::NotText) => ConfigStore { url: None },
            None => ConfigStore { url: None },
        }
    }

    /// The remembered URL, or nothing.
    pub fn get(&self) -> (r: Option<String>)
        ensures
            r.deep_view() == get_result(self@),
    {
        match &self.url {
            Some(u) => Some(u.clone()),
            None => None,
        }
    }

    /// Remembers `url`, normalized of trailing slashes.
    pub fn set(&mut self, url: String)
        ensures
            final(self)@ == after_set(old(self)@, url@),
            final(self).wf(),
    {
        let u = trim_end_slashes(url.as_str());
        proof {
            lemma_strip_no_trailing_slash(url@);
        }
        self.url = Some(u);
    }

    /// Forgets the remembered URL.
    pub fn delete(&mut self)
        ensures
            final(self)@ == after_delete(old(self)@),
            final(self).wf(),
    {
        self.url = None;
    }
}

/// Law: `set(url)` followed by `get()` answers `url` with its trailing
/// slashes removed, whatever the store held before.
pub proof fn lemma_set_then_get(before: Option<Seq<char>>, url: Seq<char>)
    ensures
        get_result(after_set(before, url)) == Some(strip_slashes(url)),
{
}

/// Law: `delete()` followed by `get()` answers nothing, whatever the store
/// held before.
pub proof fn lemma_delete_then_get(before: Option<Seq<char>>)
    ensures
        get_result(after_delete(before)) == None::<Seq<char>>,
{
}

} // verus!
