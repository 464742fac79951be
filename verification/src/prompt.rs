use vstd::prelude::*;

use crate::json::str_eq;

verus! {

/// What trimming leaves of a text.
pub uninterp spec fn trim_of(s: Seq<char>) -> Seq<char>;

/// Relies on str::trim: the text with leading and trailing whitespace
/// removed, a function of the characters alone.
#[verifier::external_body]
fn trim_str(s: &str) -> (r: &str)
    ensures
        r@ == trim_of(s@),
{
    s.trim()
}

/// What lower-case folding makes of a text.
pub uninterp spec fn lower_of(s: Seq<char>) -> Seq<char>;

/// Relies on str::to_lowercase: the text folded to lower case, a function of
/// the characters alone.
#[verifier::external_body]
fn lowercase(s: &str) -> (r: String)
    ensures
        r@ == lower_of(s@),
{
    s.to_lowercase()
}

/// The answer a line gives where a default stands behind it: the trimmed
/// line, or the default where the trimmed line is empty.
pub fn resolve_with_default(line: &str, default: &str) -> (r: String)
    ensures
        trim_of(line@).len() == 0 ==> r@ == default@,
        trim_of(line@).len() != 0 ==> r@ == trim_of(line@),
{
    let t = trim_str(line);
    if t.is_empty() {
        default.to_owned()
    } else {
        t.to_owned()
    }
}

/// The topic a line gives: its trimmed text.  An empty answer gives none,
/// and the caller is to ask again.
pub fn topic_from_line(line: &str) -> (r: Option<String>)
    ensures
        match r {
            Some(t) => trim_of(line@).len() != 0 && t@ == trim_of(line@),
            None => trim_of(line@).len() == 0,
        },
{
    let t = trim_str(line);
    if t.is_empty() {
        None
    } else {
        Some(t.to_owned())
    }
}

/// Whether an answer line says yes: its trimmed text, folded to lower case,
/// is `y` or `yes`.
pub fn answer_is_yes(line: &str) -> (r: bool)
    ensures
        r == (lower_of(trim_of(line@)) == "y"@ || lower_of(trim_of(line@)) == "yes"@),
{
    let folded = lowercase(trim_str(line));
    if str_eq(folded.as_str(), "y") {
        true
    } else {
        str_eq(folded.as_str(), "yes")
    }
}

/// The deck name a line gives: its trimmed text.  An empty answer names no
/// deck, and the caller is to go on without one.
pub fn deck_name_from_line(line: &str) -> (r: Option<String>)
    ensures
        match r {
            Some(d) => trim_of(line@).len() != 0 && d@ == trim_of(line@),
            None => trim_of(line@).len() == 0,
        },
{
    let t = trim_str(line);
    if t.is_empty() {
        None
    } else {
        Some(t.to_owned())
    }
}

/// The verdict a confirmation answer gives: yes and no settle it, and any
/// other answer gives none, so that the caller asks again.
pub fn confirmation_from_line(line: &str) -> (r: Option<bool>)
    ensures
        ({
            let a = lower_of(trim_of(line@));
            if a == "y"@ || a == "yes"@ {
                r == Some(true)
            } else if a == "n"@ || a == "no"@ {
                r == Some(false)
            } else {
                r is None
            }
        }),
{
    let folded = lowercase(trim_str(line));
    if str_eq(folded.as_str(), "y") || str_eq(folded.as_str(), "yes") {
        Some(true)
    } else if str_eq(folded.as_str(), "n") || str_eq(folded.as_str(), "no") {
        Some(false)
    } else {
        None
    }
}

/// What one generation run is asked for: the languages, the topic, and the
/// name of an existing deck where the cards are to land in one.
#[derive(Debug, Clone)]
pub struct FlashcardSettings {
    pub native_language: String,
    pub target_language: String,
    pub topic: String,
    pub deck_name: Option<String>,
}

impl FlashcardSettings {
    /// Gathers settings from resolved answers.  Reading the answers from the
    /// terminal, with its defaults and its retries, is the caller's business;
    /// the settings themselves hold exactly what was resolved.
    pub fn new(
        native_language: String,
        target_language: String,
        topic: String,
        deck_name: Option<String>,
    ) -> (r: Self)
        ensures
            r.native_language == native_language,
            r.target_language == target_language,
            r.topic == topic,
            r.deck_name == deck_name,
    {
        FlashcardSettings { native_language, target_language, topic, deck_name }
    }
}

} // verus!
