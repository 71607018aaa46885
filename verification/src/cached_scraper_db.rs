//! The cache of work records in front of the scraper: the record kept per work, the
//! order of the steps of a cached lookup, and a small text-extraction helper.
use vstd::prelude::*;
use vstd::string::{StrSliceExecFns, StringExecFns};

use crate::dlsite_scraper::ScraperError;
use crate::text::{chars_of, find_chars, find_chars_from, find_seq, is_first_match, matches_at};
use crate::work_metadata::{opt_view, WorkMetadata};

verus! {

broadcast use vstd::string::group_string_axioms;

/// The record of a work that the cache keeps.
#[derive(Debug, Clone)]
pub struct WorkMeta {
    pub rjcode: String,
    pub title: String,
    pub maker: String,
    pub date: Option<String>,
    pub cover_url: Option<String>,
}

/// Why a cached lookup failed.
#[derive(Debug, Clone)]
pub enum CacheError {
    /// The database failed; the text says how.
    Db(String),
    /// A record could not be read or written as JSON; the text says why.
    Serde(String),
    /// Fetching the work failed.
    Scraper(ScraperError),
}

/// `m` is the record made for the work `rjcode` from its fetched metadata `md`: the
/// circle becomes the maker (empty when unknown), the release date the date; no cover
/// address is known.
pub open spec fn is_record_of(m: WorkMeta, rjcode: Seq<char>, md: WorkMetadata) -> bool {
    &&& m.rjcode@ == rjcode
    &&& m.title@ == md.title@
    &&& m.maker@ == (match md.circle {
        Some(c) => c@,
        None => Seq::<char>::empty(),
    })
    &&& opt_view(m.date) == opt_view(md.release_date)
    &&& m.cover_url is None
}

fn copy_opt(o: &Option<String>) -> (r: Option<String>)
    ensures
        r == *o,
{
    match o {
        Some(s) => Some(s.clone()),
        None => None,
    }
}

impl WorkMeta {
    /// The record for the work `rjcode` made from its fetched metadata.
    pub fn from_metadata(rjcode: &str, metadata: WorkMetadata) -> (r: WorkMeta)
        ensures
            is_record_of(r, rjcode@, metadata),
    {
        let maker = match metadata.circle {
            Some(c) => c,
            None => String::new(),
        };
        WorkMeta {
            rjcode: rjcode.to_string(),
            title: metadata.title,
            maker,
            date: metadata.release_date,
            cover_url: None,
        }
    }

    /// A copy of this record.
    pub fn duplicate(&self) -> (r: WorkMeta)
        ensures
            r == *self,
    {
        WorkMeta {
            rjcode: self.rjcode.clone(),
            title: self.title.clone(),
            maker: self.maker.clone(),
            date: copy_opt(&self.date),
            cover_url: copy_opt(&self.cover_url),
        }
    }
}

impl CacheError {
    /// The text shown for this error.
    pub open spec fn spec_message(&self) -> Seq<char> {
        match self {
            CacheError::Db(m) => "数据库错误: "@ + m@,
            CacheError::Serde(m) => "序列化错误: "@ + m@,
            CacheError::Scraper(e) => "爬虫错误: "@ + e.spec_message(),
        }
    }

    /// The text shown for this error.
    pub fn message(&self) -> (r: String)
        ensures
            r@ == self.spec_message(),
    {
        match self {
            CacheError::Db(m) => {
                let mut r = "数据库错误: ".to_string();
                r.append(m.as_str());
                r
            },
            CacheError::Serde(m) => {
                let mut r = "序列化错误: ".to_string();
                r.append(m.as_str());
                r
            },
            CacheError::Scraper(e) => {
                let mut r = "爬虫错误: ".to_string();
                let inner = e.message();
                r.append(inner.as_str());
                r
            },
        }
    }
}

/// Where a cached lookup stands.
#[derive(Debug)]
pub enum CacheState {
    /// Nothing has been done.
    Start,
    /// The cache has been asked for the record.
    AwaitingLookup,
    /// The work is being fetched.
    AwaitingFetch,
    /// This record is being stored.
    AwaitingStore(WorkMeta),
    /// The lookup is over.
    Finished,
}

/// What happened since the last step of a cached lookup.
#[derive(Debug)]
pub enum CacheEvent {
    /// The lookup starts.
    Begin,
    /// The cache answered: the record, none, or an error.
    Looked(Result<Option<WorkMeta>, CacheError>),
    /// The work was fetched, or could not be.
    Fetched(Result<WorkMetadata, ScraperError>),
    /// The record was stored, or could not be.
    Stored(Result<(), CacheError>),
}

/// What to do next in a cached lookup.
#[derive(Debug)]
pub enum CacheAction {
    /// Look the work up in the cache.
    Lookup,
    /// Fetch the work.
    Fetch,
    /// Store this record in the cache.
    Store(WorkMeta),
    /// Stop with this outcome.
    Finish(Result<WorkMeta, CacheError>),
    /// The event does not fit the state; nothing to do.
    Wait,
}

/// One step of the cached lookup of the work `rjcode`: from `state` and `event`, the
/// next state `s` and action `a`.
pub open spec fn cache_step_spec(
    rjcode: Seq<char>,
    state: CacheState,
    event: CacheEvent,
    s: CacheState,
    a: CacheAction,
) -> bool {
    match (state, event) {
        (CacheState::Start, CacheEvent::Begin) => s is AwaitingLookup && a is Lookup,
        (CacheState::AwaitingLookup, CacheEvent::Looked(r)) => match r {
            Ok(Some(m)) => s is Finished && a == CacheAction::Finish(Ok(m)),
            Ok(None) => s is AwaitingFetch && a is Fetch,
            Err(e) => s is Finished && a == CacheAction::Finish(Err(e)),
        },
        (CacheState::AwaitingFetch, CacheEvent::Fetched(r)) => match r {
            Ok(md) => s matches CacheState::AwaitingStore(m) && is_record_of(m, rjcode, md) && a
                == CacheAction::Store(m),
            Err(e) => s is Finished && a == CacheAction::Finish(Err(CacheError::Scraper(e))),
        },
        (CacheState::AwaitingStore(m), CacheEvent::Stored(r)) => match r {
            Ok(_) => s is Finished && a == CacheAction::Finish(Ok(m)),
            Err(e) => s is Finished && a == CacheAction::Finish(Err(e)),
        },
        (state, _) => s == state && a is Wait,
    }
}

/// One step of looking up the work `rjcode` through the cache: a cached record is
/// returned as it is; otherwise the work is fetched, its record stored, and the stored
/// record returned.
pub fn get_or_fetch_step(rjcode: &str, state: CacheState, event: CacheEvent) -> (r: (
    CacheState,
    CacheAction,
))
    ensures
        cache_step_spec(rjcode@, state, event, r.0, r.1),
{
    match (state, event) {
        (CacheState::Start, CacheEvent::Begin) => (CacheState::AwaitingLookup, CacheAction::Lookup),
        (CacheState::AwaitingLookup, CacheEvent::Looked(r)) => match r {
            Ok(Some(m)) => (CacheState::Finished, CacheAction::Finish(Ok(m))),
            Ok(None) => (CacheState::AwaitingFetch, CacheAction::Fetch),
            Err(e) => (CacheState::Finished, CacheAction::Finish(Err(e))),
        },
        (CacheState::AwaitingFetch, CacheEvent::Fetched(r)) => match r {
            Ok(md) => {
                let m = WorkMeta::from_metadata(rjcode, md);
                let stored = m.duplicate();
                (CacheState::AwaitingStore(m), CacheAction::Store(stored))
            },
            Err(e) => (CacheState::Finished, CacheAction::Finish(Err(CacheError::Scraper(e)))),
        },
        (CacheState::AwaitingStore(m), CacheEvent::Stored(r)) => match r {
            Ok(_) => (CacheState::Finished, CacheAction::Finish(Ok(m))),
            Err(e) => (CacheState::Finished, CacheAction::Finish(Err(e))),
        },
        (state, _) => (state, CacheAction::Wait),
    }
}

/// A cached record is returned exactly as the cache gave it, and nothing is fetched.
pub proof fn law_cache_hit_is_returned(
    rjcode: Seq<char>,
    m: WorkMeta,
    s: CacheState,
    a: CacheAction,
)
    requires
        cache_step_spec(rjcode, CacheState::AwaitingLookup, CacheEvent::Looked(Ok(Some(m))), s, a),
    ensures
        a == CacheAction::Finish(Ok(m)),
        s is Finished,
{
}

/// On a miss, the record that is stored is the one made from the fetched metadata, and
/// once it is stored that same record is what the lookup returns.
pub proof fn law_miss_returns_what_was_stored(
    rjcode: Seq<char>,
    md: WorkMetadata,
    s1: CacheState,
    a1: CacheAction,
    s2: CacheState,
    a2: CacheAction,
)
    requires
        cache_step_spec(rjcode, CacheState::AwaitingFetch, CacheEvent::Fetched(Ok(md)), s1, a1),
        cache_step_spec(rjcode, s1, CacheEvent::Stored(Ok(())), s2, a2),
    ensures
        a1 matches CacheAction::Store(m) && is_record_of(m, rjcode, md) && a2
            == CacheAction::Finish(Ok(m)),
{
}

/// The cache is written only with a record just made from fetched metadata.
pub proof fn law_store_only_after_fetch(
    rjcode: Seq<char>,
    state: CacheState,
    event: CacheEvent,
    s: CacheState,
    m: WorkMeta,
)
    requires
        cache_step_spec(rjcode, state, event, s, CacheAction::Store(m)),
    ensures
        state is AwaitingFetch,
        event matches CacheEvent::Fetched(Ok(md)) && is_record_of(m, rjcode, md),
{
}

/// The text between the first `start` in `html` and the first `end` after it.
pub open spec fn between_spec(html: Seq<char>, start: Seq<char>, end: Seq<char>) -> Option<
    Seq<char>,
> {
    match find_seq(html, start) {
        Some(i) => {
            let a = i + start.len();
            match find_seq(html.skip(a), end) {
                Some(j) => Some(html.subrange(a, a + j)),
                None => None,
            }
        },
        None => None,
    }
}

/// The text between the first occurrence of `start` in `html` and the first
/// occurrence of `end` after it; `None` when either is missing.
pub fn extract_between<'a>(html: &'a str, start: &str, end: &str) -> (r: Option<&'a str>)
    ensures
        match r {
            Some(t) => between_spec(html@, start@, end@) == Some(t@),
            None => between_spec(html@, start@, end@) is None,
        },
{
    let hv = chars_of(html);
    let sv = chars_of(start);
    let ev = chars_of(end);
    let i = match find_chars(&hv, &sv) {
        Some(i) => i,
        None => return None,
    };
    proof {
        crate::text::lemma_find_seq_some(hv@, sv@);
        assert(is_first_match(hv@, sv@, i as int));
        assert(i + sv@.len() <= hv@.len());
    }
    let hlen = hv.len();
    assert(i + sv.len() <= hlen);
    let a = i + sv.len();
    let j = match find_chars_from(&hv, &ev, a) {
        Some(j) => j,
        None => return None,
    };
    proof {
        crate::text::lemma_find_seq_some(hv@.skip(a as int), ev@);
        assert(is_first_match(hv@.skip(a as int), ev@, j as int));
        assert(j + ev@.len() <= hv@.skip(a as int).len());
    }
    assert(a + j <= hlen);
    Some(html.substring_char(a, a + j))
}

/// The text that `extract_between` finds lies in `html` between `start` and `end`, and
/// `end` does not occur before the end of it.
pub proof fn law_extract_between_is_enclosed(
    html: Seq<char>,
    start: Seq<char>,
    end: Seq<char>,
    t: Seq<char>,
)
    requires
        between_spec(html, start, end) == Some(t),
    ensures
        crate::text::contains_seq(html, start + t + end),
        forall|k: int| 0 <= k < t.len() ==> !matches_at(t + end, end, k),
{
    crate::text::lemma_find_seq_some(html, start);
    let i = find_seq(html, start)->0;
    let a = i + start.len();
    crate::text::lemma_find_seq_some(html.skip(a), end);
    let j = find_seq(html.skip(a), end)->0;
    assert(is_first_match(html.skip(a), end, j));
    assert(html.subrange(i, i + start.len() + t.len() + end.len()) =~= start + t + end);
    assert(matches_at(html, start + t + end, i));
    assert forall|k: int| 0 <= k < t.len() implies !matches_at(t + end, end, k) by {
        if matches_at(t + end, end, k) {
            assert((t + end).subrange(k, k + end.len()) =~= html.skip(a).subrange(
                k,
                k + end.len(),
            ));
            assert(matches_at(html.skip(a), end, k));
        }
    }
}

} // verus!
