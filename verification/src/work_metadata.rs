//! The metadata of a work, and how its language is guessed from its tags.
use vstd::prelude::*;

use crate::text::{contains_seq, contains_str, views};

verus! {

broadcast use vstd::string::group_string_axioms;

/// The lower-case form of `s`, as `str::to_lowercase` computes it.
pub uninterp spec fn lowercase(s: Seq<char>) -> Seq<char>;

/// Every character of `s` is an ASCII character.
pub open spec fn is_ascii_text(s: Seq<char>) -> bool {
    forall|k: int| 0 <= k < s.len() ==> (#[trigger] s[k] as u32) < 128
}

/// `c` with an ASCII capital letter made small.
pub open spec fn ascii_lower_char(c: char) -> char {
    if 'A' <= c && c <= 'Z' {
        ((c as u32) + 32) as char
    } else {
        c
    }
}

/// `s` with each ASCII capital letter made small and every other character kept.
pub open spec fn ascii_lower(s: Seq<char>) -> Seq<char> {
    s.map_values(|c: char| ascii_lower_char(c))
}

/// The lower-case form of `s`: for ASCII text, each capital letter made small; else as
/// `str::to_lowercase` computes it.
pub open spec fn lower_text(s: Seq<char>) -> Seq<char> {
    if is_ascii_text(s) {
        ascii_lower(s)
    } else {
        lowercase(s)
    }
}

/// `str::to_lowercase`: the string mapped character by character to lower case by
/// the Unicode rules. Its result is given the name `lowercase`, a function of the
/// argument alone. Of the Unicode rules only their effect on ASCII text is stated:
/// `A` to `Z` become `a` to `z`, and every other ASCII character stays.
#[verifier::external_body]
fn to_lowercase(s: &str) -> (r: String)
    ensures
        r@ == lowercase(s@),
        is_ascii_text(s@) ==> r@ == ascii_lower(s@),
{
    s.to_lowercase()
}

/// The metadata of one work.
#[derive(Debug, Clone)]
pub struct WorkMetadata {
    pub rjcode: String,
    pub title: String,
    pub circle: Option<String>,
    pub release_date: Option<String>,
    pub tags: Vec<String>,
    pub voice_actor: Option<String>,
    pub series: Option<String>,
    pub categories: Vec<String>,
    pub age_rating: Option<String>,
    /// The language, as guessed from the tags.
    pub lang: Option<String>,
}

/// The view of an optional string.
pub open spec fn opt_view(o: Option<String>) -> Option<Seq<char>> {
    match o {
        Some(s) => Some(s@),
        None => None,
    }
}

/// The view of an optional string slice.
pub open spec fn opt_str_view(o: Option<&str>) -> Option<Seq<char>> {
    match o {
        Some(s) => Some(s@),
        None => None,
    }
}

/// The views of a list of string slices.
pub open spec fn str_views(v: Seq<&str>) -> Seq<Seq<char>> {
    v.map_values(|s: &str| s@)
}

/// Some tag, in lower case, contains `pat`.
pub open spec fn some_tag_mentions(tags: Seq<Seq<char>>, pat: Seq<char>) -> bool {
    exists|i: int| 0 <= i < tags.len() && contains_seq(lower_text(#[trigger] tags[i]), pat)
}

/// The tags mark a Chinese work.
pub open spec fn tags_say_chinese(tags: Seq<Seq<char>>) -> bool {
    some_tag_mentions(tags, "chinese"@) || some_tag_mentions(tags, "中文"@)
}

/// The tags mark an English work.
pub open spec fn tags_say_english(tags: Seq<Seq<char>>) -> bool {
    some_tag_mentions(tags, "english"@)
}

/// The language guessed from `tags`: Chinese if a tag, in lower case, contains
/// "chinese" or "中文"; else English if one contains "english"; else Japanese.
pub open spec fn guessed_lang(tags: Seq<Seq<char>>) -> Seq<char> {
    if tags_say_chinese(tags) {
        "zh"@
    } else if tags_say_english(tags) {
        "en"@
    } else {
        "ja"@
    }
}

/// `after` is `before` with its language guessed from its tags, and nothing else
/// changed.
pub open spec fn is_lang_guessed(before: WorkMetadata, after: WorkMetadata) -> bool {
    &&& opt_view(after.lang) == Some(guessed_lang(views(before.tags@)))
    &&& after.rjcode == before.rjcode
    &&& after.title == before.title
    &&& after.circle == before.circle
    &&& after.release_date == before.release_date
    &&& after.tags == before.tags
    &&& after.voice_actor == before.voice_actor
    &&& after.series == before.series
    &&& after.categories == before.categories
    &&& after.age_rating == before.age_rating
}

/// Guessing the language again changes nothing: the guess depends on the tags alone,
/// and guessing leaves the tags as they were.
pub proof fn law_guess_lang_is_idempotent(a: WorkMetadata, b: WorkMetadata, c: WorkMetadata)
    requires
        is_lang_guessed(a, b),
        is_lang_guessed(b, c),
    ensures
        opt_view(c.lang) == opt_view(b.lang),
        c.tags == a.tags,
        c.title == a.title,
{
}

/// The guessed language is always Chinese, English or Japanese.
pub proof fn law_guessed_lang_is_known(tags: Seq<Seq<char>>)
    ensures
        guessed_lang(tags) == "zh"@ || guessed_lang(tags) == "en"@ || guessed_lang(tags)
            == "ja"@,
{
}

/// The strings of `v`, copied.
pub fn to_strings(v: &Vec<&str>) -> (r: Vec<String>)
    ensures
        views(r@) == str_views(v@),
{
    let mut r: Vec<String> = Vec::new();
    let n = v.len();
    let mut i: usize = 0;
    while i < n
        invariant
            i <= n == v.len(),
            r.len() == i,
            forall|j: int| 0 <= j < i ==> r@[j]@ == v@[j]@,
        decreases n - i,
    {
        r.push(v[i].to_string());
        i += 1;
    }
    assert(views(r@) =~= str_views(v@));
    r
}

/// The string of an optional string slice, copied.
pub fn to_opt_string(o: Option<&str>) -> (r: Option<String>)
    ensures
        opt_view(r) == opt_str_view(o),
{
    match o {
        Some(s) => Some(s.to_string()),
        None => None,
    }
}

impl WorkMetadata {
    /// Metadata that holds only the work's code: empty title, no tags, nothing else.
    pub fn new(rjcode: &str) -> (r: Self)
        ensures
            r.rjcode@ == rjcode@,
            r.title@ == Seq::<char>::empty(),
            r.circle is None,
            r.release_date is None,
            r.tags@.len() == 0,
            r.voice_actor is None,
            r.series is None,
            r.categories@.len() == 0,
            r.age_rating is None,
            r.lang is None,
    {
        WorkMetadata {
            rjcode: rjcode.to_string(),
            title: String::new(),
            circle: None,
            release_date: None,
            tags: Vec::new(),
            voice_actor: None,
            series: None,
            categories: Vec::new(),
            age_rating: None,
            lang: None,
        }
    }

    /// Sets the language from the tags (see `guessed_lang`); nothing else changes.
    pub fn guess_lang(&mut self)
        ensures
            is_lang_guessed(*old(self), *final(self)),
    {
        let lang = Self::lang_of_tags(&self.tags);
        self.lang = Some(lang);
    }

    /// The language guessed from `tags`.
    pub fn lang_of_tags(tags: &Vec<String>) -> (r: String)
        ensures
            r@ == guessed_lang(views(tags@)),
    {
        let ghost tv = views(tags@);
        let n = tags.len();
        let mut zh = false;
        let mut en = false;
        let mut i: usize = 0;
        while i < n
            invariant
                i <= n == tags.len(),
                tv == views(tags@),
                zh == exists|j: int|
                    0 <= j < i && (contains_seq(lower_text(#[trigger] tv[j]), "chinese"@)
                        || contains_seq(lower_text(tv[j]), "中文"@)),
                en == exists|j: int|
                    0 <= j < i && contains_seq(lower_text(#[trigger] tv[j]), "english"@),
            decreases n - i,
        {
            let lower = to_lowercase(tags[i].as_str());
            assert(tv[i as int] == tags@[i as int]@);
            if contains_str(lower.as_str(), "chinese") || contains_str(lower.as_str(), "中文") {
                zh = true;
            }
            if contains_str(lower.as_str(), "english") {
                en = true;
            }
            i += 1;
        }
        proof {
            if zh {
                let j = choose|j: int|
                    0 <= j < n && (contains_seq(lower_text(#[trigger] tv[j]), "chinese"@)
                        || contains_seq(lower_text(tv[j]), "中文"@));
                if contains_seq(lower_text(tv[j]), "chinese"@) {
                    assert(some_tag_mentions(tv, "chinese"@));
                } else {
                    assert(some_tag_mentions(tv, "中文"@));
                }
            }
            if en {
                let j = choose|j: int|
                    0 <= j < n && contains_seq(lower_text(#[trigger] tv[j]), "english"@);
                assert(some_tag_mentions(tv, "english"@));
            }
        }
        if zh {
            "zh".to_string()
        } else if en {
            "en".to_string()
        } else {
            "ja".to_string()
        }
    }

    /// Metadata built from its fields; the language is then guessed from the tags.
    pub fn from_fields(
        rjcode: &str,
        title: &str,
        circle: Option<&str>,
        release_date: Option<&str>,
        tags: Vec<&str>,
        voice_actor: Option<&str>,
        series: Option<&str>,
        categories: Vec<&str>,
        age_rating: Option<&str>,
    ) -> (r: Self)
        ensures
            r.rjcode@ == rjcode@,
            r.title@ == title@,
            opt_view(r.circle) == opt_str_view(circle),
            opt_view(r.release_date) == opt_str_view(release_date),
            views(r.tags@) == str_views(tags@),
            opt_view(r.voice_actor) == opt_str_view(voice_actor),
            opt_view(r.series) == opt_str_view(series),
            views(r.categories@) == str_views(categories@),
            opt_view(r.age_rating) == opt_str_view(age_rating),
            opt_view(r.lang) == Some(guessed_lang(str_views(tags@))),
    {
        let mut meta = WorkMetadata {
            rjcode: rjcode.to_string(),
            title: title.to_string(),
            circle: to_opt_string(circle),
            release_date: to_opt_string(release_date),
            tags: to_strings(&tags),
            voice_actor: to_opt_string(voice_actor),
            series: to_opt_string(series),
            categories: to_strings(&categories),
            age_rating: to_opt_string(age_rating),
            lang: None,
        };
        meta.guess_lang();
        meta
    }
}

/// The language is guessed from what the tags mention anywhere in them, in lower case:
/// Chinese when some tag mentions "chinese" or "中文", else English when some tag
/// mentions "english", else Japanese.
pub proof fn law_guessed_lang_follows_mentions(tags: Seq<Seq<char>>)
    ensures
        (exists|i: int|
            0 <= i < tags.len() && (contains_seq(lower_text(#[trigger] tags[i]), "chinese"@)
                || contains_seq(lower_text(tags[i]), "中文"@))) ==> guessed_lang(tags) == "zh"@,
        (forall|i: int|
            0 <= i < tags.len() ==> !contains_seq(lower_text(#[trigger] tags[i]), "chinese"@)
                && !contains_seq(lower_text(tags[i]), "中文"@)) && (exists|i: int|
            0 <= i < tags.len() && contains_seq(lower_text(#[trigger] tags[i]), "english"@))
            ==> guessed_lang(tags) == "en"@,
        (forall|i: int|
            0 <= i < tags.len() ==> !contains_seq(lower_text(#[trigger] tags[i]), "chinese"@)
                && !contains_seq(lower_text(tags[i]), "中文"@) && !contains_seq(
                lower_text(tags[i]),
                "english"@,
            )) ==> guessed_lang(tags) == "ja"@,
{
}

} // verus!
