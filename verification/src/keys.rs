//! The API keys of the two remote services, and the rules by which a stored
//! set of keys is updated, cleared and reported.

use vstd::prelude::*;
use vstd::string::*;

verus! {

/// The stored keys. A key that was never set is `None`.
#[derive(Debug, Clone, PartialEq, Eq)]
pub struct Keys {
    pub groq_api_key: Option<String>,
    pub gemini_api_key: Option<String>,
}

/// Which keys are stored, without the keys themselves.
#[derive(Debug, Clone, Copy, PartialEq, Eq)]
pub struct KeysPresence {
    pub has_groq: bool,
    pub has_gemini: bool,
}

/// Mathematical model of [`Keys`].
pub ghost struct KeysView {
    pub groq_api_key: Option<Seq<char>>,
    pub gemini_api_key: Option<Seq<char>>,
}

/// The model of an optional string.
pub open spec fn opt_text(o: Option<String>) -> Option<Seq<char>> {
    match o {
        Some(s) => Some(s@),
        None => None,
    }
}

impl View for Keys {
    type V = KeysView;

    open spec fn view(&self) -> KeysView {
        KeysView {
            groq_api_key: opt_text(self.groq_api_key),
            gemini_api_key: opt_text(self.gemini_api_key),
        }
    }
}

/// A stored key after an update: a submitted key that is not empty replaces
/// it, anything else leaves it alone.
pub open spec fn key_after_update(
    current: Option<Seq<char>>,
    submitted: Option<Seq<char>>,
) -> Option<Seq<char>> {
    match submitted {
        Some(v) => if v.len() > 0 {
            submitted
        } else {
            current
        },
        None => current,
    }
}

/// A key is missing or empty.
pub open spec fn key_is_blank(key: Option<Seq<char>>) -> bool {
    match key {
        Some(v) => v.len() == 0,
        None => true,
    }
}

impl KeysView {
    /// The keys after `submitted` has been taken in.
    pub open spec fn updated_with(self, submitted: KeysView) -> KeysView {
        KeysView {
            groq_api_key: key_after_update(self.groq_api_key, submitted.groq_api_key),
            gemini_api_key: key_after_update(self.gemini_api_key, submitted.gemini_api_key),
        }
    }

    /// The keys after a clear request: `"groq"` and `"gemini"` name one key,
    /// anything else, or no name, clears both.
    pub open spec fn cleared(self, which: Option<Seq<char>>) -> KeysView {
        if which == Some("groq"@) {
            KeysView { groq_api_key: None, ..self }
        } else if which == Some("gemini"@) {
            KeysView { gemini_api_key: None, ..self }
        } else {
            KeysView { groq_api_key: None, gemini_api_key: None }
        }
    }

    /// Nothing worth storing is left.
    pub open spec fn is_blank(self) -> bool {
        key_is_blank(self.groq_api_key) && key_is_blank(self.gemini_api_key)
    }
}

fn key_updated(current: Option<String>, submitted: Option<String>) -> (out: Option<String>)
    ensures
        opt_text(out) == key_after_update(opt_text(current), opt_text(submitted)),
{
    match submitted {
        Some(v) => {
            if v.as_str().is_empty() {
                current
            } else {
                Some(v)
            }
        },
        None => current,
    }
}

fn key_blank(key: &Option<String>) -> (blank: bool)
    ensures
        blank == key_is_blank(opt_text(*key)),
{
    match key {
        Some(v) => v.as_str().is_empty(),
        None => true,
    }
}

impl Default for Keys {
    fn default() -> (k: Self)
        ensures
            k@ == (KeysView { groq_api_key: None, gemini_api_key: None }),
    {
        Keys { groq_api_key: None, gemini_api_key: None }
    }
}

impl Default for KeysPresence {
    fn default() -> (p: Self)
        ensures
            p == (KeysPresence { has_groq: false, has_gemini: false }),
    {
        KeysPresence { has_groq: false, has_gemini: false }
    }
}

impl Keys {
    /// Reports which keys are set. An empty key counts as set.
    pub fn presence(&self) -> (p: KeysPresence)
        ensures
            p.has_groq == self.groq_api_key.is_some(),
            p.has_gemini == self.gemini_api_key.is_some(),
    {
        KeysPresence {
            has_groq: self.groq_api_key.is_some(),
            has_gemini: self.gemini_api_key.is_some(),
        }
    }

    /// Takes in the submitted keys: each one that is present and not empty
    /// replaces the stored key; the others are kept.
    pub fn updated_with(self, submitted: Keys) -> (out: Keys)
        ensures
            out@ == self@.updated_with(submitted@),
    {
        Keys {
            groq_api_key: key_updated(self.groq_api_key, submitted.groq_api_key),
            gemini_api_key: key_updated(self.gemini_api_key, submitted.gemini_api_key),
        }
    }

    /// Clears the key that `which` names, or both keys when it names neither.
    pub fn cleared(self, which: Option<&str>) -> (out: Keys)
        ensures
            out@ == self@.cleared(
                match which {
                    Some(w) => Some(w@),
                    None => None,
                },
            ),
    {
        let (groq, gemini) = match which {
            Some(w) => {
                let name = w.to_owned();
                (name == String::from_str("groq"), name == String::from_str("gemini"))
            },
            None => (false, false),
        };
        if groq {
            Keys { groq_api_key: None, gemini_api_key: self.gemini_api_key }
        } else if gemini {
            Keys { groq_api_key: self.groq_api_key, gemini_api_key: None }
        } else {
            Keys { groq_api_key: None, gemini_api_key: None }
        }
    }

    /// Whether both keys are missing or empty. Such a set is not written to
    /// the store: the stored file is removed instead.
    pub fn is_blank(&self) -> (blank: bool)
        ensures
            blank == self@.is_blank(),
    {
        key_blank(&self.groq_api_key) && key_blank(&self.gemini_api_key)
    }
}

/// A key that was cleared stays cleared until an update submits a non-empty
/// value for it, and clearing both keys leaves nothing to store.
pub proof fn lemma_cleared_keys_are_blank(k: KeysView)
    ensures
        k.cleared(None).is_blank(),
        k.cleared(Some("groq"@)).groq_api_key is None,
        k.cleared(Some("gemini"@)).gemini_api_key is None,
        k.cleared(Some("groq"@)).gemini_api_key == k.gemini_api_key,
        k.cleared(Some("gemini"@)).groq_api_key == k.groq_api_key,
{
    reveal_strlit("groq");
    reveal_strlit("gemini");
    assert("groq"@.len() != "gemini"@.len());
}

/// An update never removes a key and never stores an empty one in place of
/// a key that was there.
pub proof fn lemma_update_keeps_keys(k: KeysView, submitted: KeysView)
    ensures
        k.groq_api_key is Some ==> k.updated_with(submitted).groq_api_key is Some,
        k.gemini_api_key is Some ==> k.updated_with(submitted).gemini_api_key is Some,
        submitted.is_blank() ==> k.updated_with(submitted) == k,
{
}

} // verus!
