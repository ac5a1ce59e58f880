//! First-run resolution of the server URL.
//!
//! On startup, and again after the tray's "forget", the shell needs a URL:
//! the stored one if there is one, else whatever the user answers to a
//! one-shot native prompt. The prompt itself is the host's part; the host
//! asks only when [`prompt_needed`] holds of the store and hands the reply —
//! or the cancellation — to [`accept_prompt_reply`], which decides and
//! persists. A rejected or cancelled reply leaves the shell with no URL and
//! the store untouched.

use vstd::prelude::*;
use crate::config::ConfigStore;
use crate::url_text::{normalize_url, normalized, str_eq, trim_spaces, trimmed};
use crate::url_text::{lemma_normalized_no_trailing_slash, lemma_strip_at_rest};

verus! {

/// The prompt's prefilled answer. A reply the user left untouched is
/// rejected.
pub open spec fn placeholder() -> Seq<char> {
    "https://"@
}

/// A reply is adopted when, after whitespace trimming, it is not the
/// untouched placeholder, and, once trailing slashes are also gone, not
/// empty.
pub open spec fn reply_accepted(t: Seq<char>) -> bool {
    normalized(t).len() > 0 && trimmed(t) != placeholder()
}

/// The URL a prompt reply yields: the normalized text of an adopted reply,
/// nothing for a cancellation or a rejected reply.
pub open spec fn reply_outcome(reply: Option<Seq<char>>) -> Option<Seq<char>> {
    match reply {
        Some(t) => if reply_accepted(t) {
            Some(normalized(t))
        } else {
            None
        },
        None => None,
    }
}

/// Whether resolution must put the question to the user at all.
pub open spec fn prompt_needed(stored: Option<Seq<char>>) -> bool {
    stored is None
}

/// The whole resolution, as a function of the stored value and of the reply
/// the prompt would give were it invoked: a stored URL wins unchanged; only
/// an empty store falls back to the prompt.
pub open spec fn resolve_outcome(
    stored: Option<Seq<char>>,
    reply: Option<Seq<char>>,
) -> Option<Seq<char>> {
    match stored {
        Some(u) => Some(u),
        None => reply_outcome(reply),
    }
}

/// Decides on the prompt's reply: an adopted reply is normalized, remembered
/// in the store, and answered; a cancelled or rejected one changes nothing
/// and answers nothing.
pub fn accept_prompt_reply(store: &mut ConfigStore, reply: Option<String>) -> (r: Option<String>)
    ensures
        r.deep_view() == reply_outcome(reply.deep_view()),
        final(store)@ == match reply_outcome(reply.deep_view()) {
            Some(u) => Some(u),
            None => old(store)@,
        },
        old(store).wf() ==> final(store).wf(),
{
    match reply {
        Some(t) => {
            let trimmed_reply = trim_spaces(t.as_str());
            let url = normalize_url(t.as_str());
            let untouched = str_eq(trimmed_reply.as_str(), "https://");
            if !url.as_str().is_empty() && !untouched {
                proof {
                    lemma_normalized_no_trailing_slash(t@);
                    lemma_strip_at_rest(url@);
                }
                store.set(url.clone());
                Some(url)
            } else {
                None
            }
        },
        None => None,
    }
}

/// Law: a store that already holds a URL resolves to that URL unchanged —
/// whatever any prompt might have answered — and needs no prompt at all.
pub proof fn lemma_stored_url_wins(u: Seq<char>, reply: Option<Seq<char>>)
    ensures
        resolve_outcome(Some(u), reply) == Some(u),
        !prompt_needed(Some(u)),
{
}

/// Law: a reply that trims to the untouched placeholder, or whose normalized
/// text is empty, yields no URL — so nothing is stored for it.
pub proof fn lemma_rejected_reply_yields_nothing(t: Seq<char>)
    requires
        trimmed(t) == placeholder() || normalized(t).len() == 0,
    ensures
        reply_outcome(Some(t)) == None::<Seq<char>>,
{
}

} // verus!
