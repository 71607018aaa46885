use dlsite_rust_renamer::cached_scraper_db::{
    extract_between, get_or_fetch_step, CacheAction, CacheError, CacheEvent, CacheState, WorkMeta,
};
use dlsite_rust_renamer::dlsite_scraper::ScraperError;
use dlsite_rust_renamer::text::{
    chars_of, contains_str, decimal_string, find_chars, join, starts_with_str, str_eq, trim,
};
use dlsite_rust_renamer::work_metadata::WorkMetadata;

#[test]
fn contains_finds_substrings() {
    assert!(contains_str("hello world", "o w"));
    assert!(contains_str("abc", ""));
    assert!(!contains_str("abc", "abcd"));
    assert!(!contains_str("abc", "ac"));
    assert!(contains_str("この作品は存在しません。", "存在しません"));
}

#[test]
fn find_gives_first_index() {
    let s = chars_of("abcabc");
    assert_eq!(find_chars(&s, &chars_of("bc")), Some(1));
    assert_eq!(find_chars(&s, &chars_of("x")), None);
    assert_eq!(find_chars(&s, &chars_of("")), Some(0));
}

#[test]
fn starts_with_and_equality() {
    assert!(starts_with_str("RJ123", "RJ"));
    assert!(!starts_with_str("R", "RJ"));
    assert!(str_eq("circle", "circle"));
    assert!(!str_eq("circle", "circles"));
}

#[test]
fn trim_removes_unicode_white_space() {
    assert_eq!(trim("  \t title \n"), "title");
    assert_eq!(trim("\u{3000}全角\u{3000}"), "全角");
    assert_eq!(trim("   "), "");
    assert_eq!(trim("a b"), "a b");
    assert_eq!(trim("x\u{a0}"), "x");
}

#[test]
fn decimal_renders_numbers() {
    assert_eq!(decimal_string(0), "0");
    assert_eq!(decimal_string(404), "404");
    assert_eq!(decimal_string(18446744073709551615), "18446744073709551615");
}

#[test]
fn join_uses_separator_between() {
    let parts = vec!["a".to_string(), "b".to_string(), "c".to_string()];
    assert_eq!(join(&parts, " / "), "a / b / c");
    assert_eq!(join(&vec!["only".to_string()], " / "), "only");
    assert_eq!(join(&Vec::new(), " / "), "");
}

#[test]
fn extract_between_takes_first_enclosed_text() {
    assert_eq!(extract_between("<a>hello</a><a>x</a>", "<a>", "</a>"), Some("hello"));
    assert_eq!(extract_between("<b>hello</b>", "<a>", "</a>"), None);
    assert_eq!(extract_between("</a> <a>open", "<a>", "</a>"), None);
    assert_eq!(extract_between("作品名：はじまり。", "作品名：", "。"), Some("はじまり"));
}

#[test]
fn extract_between_text_is_enclosed() {
    let html = "xx[start]mid[end]yy[end]";
    let t = extract_between(html, "[start]", "[end]").unwrap();
    assert_eq!(t, "mid");
    assert!(html.contains(&format!("[start]{}[end]", t)));
    assert!(!t.contains("[end]"));
}

#[test]
fn new_metadata_is_empty_but_for_code() {
    let m = WorkMetadata::new("RJ123456");
    assert_eq!(m.rjcode, "RJ123456");
    assert_eq!(m.title, "");
    assert!(m.circle.is_none());
    assert!(m.tags.is_empty());
    assert!(m.categories.is_empty());
    assert!(m.lang.is_none());
}

fn with_tags(tags: &[&str]) -> WorkMetadata {
    let mut m = WorkMetadata::new("RJ1");
    m.tags = tags.iter().map(|t| t.to_string()).collect();
    m
}

#[test]
fn guess_lang_reads_tags() {
    let mut m = with_tags(&["ASMR", "Chinese Translation"]);
    m.guess_lang();
    assert_eq!(m.lang.as_deref(), Some("zh"));

    let mut m = with_tags(&["简体中文"]);
    m.guess_lang();
    assert_eq!(m.lang.as_deref(), Some("zh"));

    let mut m = with_tags(&["ENGLISH"]);
    m.guess_lang();
    assert_eq!(m.lang.as_deref(), Some("en"));

    let mut m = with_tags(&["english", "CHINESE"]);
    m.guess_lang();
    assert_eq!(m.lang.as_deref(), Some("zh"));

    let mut m = with_tags(&["ボイス"]);
    m.guess_lang();
    assert_eq!(m.lang.as_deref(), Some("ja"));

    let mut m = with_tags(&[]);
    m.guess_lang();
    assert_eq!(m.lang.as_deref(), Some("ja"));
}

#[test]
fn guess_lang_keeps_other_fields_and_is_stable() {
    let mut m = with_tags(&["English"]);
    m.title = "t".to_string();
    m.guess_lang();
    let first = m.lang.clone();
    m.guess_lang();
    assert_eq!(m.lang, first);
    assert_eq!(m.title, "t");
    assert_eq!(m.tags, vec!["English".to_string()]);
}

#[test]
fn from_fields_copies_and_guesses() {
    let m = WorkMetadata::from_fields(
        "RJ01000000",
        "Title",
        Some("Circle"),
        None,
        vec!["中文", "ASMR"],
        Some("A / B"),
        None,
        vec!["Voice"],
        Some("ja"),
    );
    assert_eq!(m.rjcode, "RJ01000000");
    assert_eq!(m.title, "Title");
    assert_eq!(m.circle.as_deref(), Some("Circle"));
    assert!(m.release_date.is_none());
    assert_eq!(m.tags, vec!["中文".to_string(), "ASMR".to_string()]);
    assert_eq!(m.voice_actor.as_deref(), Some("A / B"));
    assert!(m.series.is_none());
    assert_eq!(m.categories, vec!["Voice".to_string()]);
    assert_eq!(m.age_rating.as_deref(), Some("ja"));
    assert_eq!(m.lang.as_deref(), Some("zh"));
}

fn sample_metadata() -> WorkMetadata {
    let mut m = WorkMetadata::new("RJ123456");
    m.title = "Title".to_string();
    m.circle = Some("Circle".to_string());
    m.release_date = Some("2024年01月01日".to_string());
    m
}

#[test]
fn record_from_metadata() {
    let r = WorkMeta::from_metadata("RJ123456", sample_metadata());
    assert_eq!(r.rjcode, "RJ123456");
    assert_eq!(r.title, "Title");
    assert_eq!(r.maker, "Circle");
    assert_eq!(r.date.as_deref(), Some("2024年01月01日"));
    assert!(r.cover_url.is_none());

    let r = WorkMeta::from_metadata("RJ1", WorkMetadata::new("RJ1"));
    assert_eq!(r.maker, "");
}

fn record(code: &str) -> WorkMeta {
    WorkMeta {
        rjcode: code.to_string(),
        title: "cached".to_string(),
        maker: "m".to_string(),
        date: None,
        cover_url: None,
    }
}

#[test]
fn cache_hit_is_returned_without_fetching() {
    let (s, a) = get_or_fetch_step("RJ1", CacheState::Start, CacheEvent::Begin);
    assert!(matches!(a, CacheAction::Lookup));
    let (s, a) = get_or_fetch_step("RJ1", s, CacheEvent::Looked(Ok(Some(record("RJ1")))));
    assert!(matches!(s, CacheState::Finished));
    match a {
        CacheAction::Finish(Ok(m)) => assert_eq!(m.title, "cached"),
        other => panic!("unexpected {:?}", other),
    }
}

#[test]
fn cache_miss_fetches_stores_and_returns_stored() {
    let (s, _) = get_or_fetch_step("RJ123456", CacheState::Start, CacheEvent::Begin);
    let (s, a) = get_or_fetch_step("RJ123456", s, CacheEvent::Looked(Ok(None)));
    assert!(matches!(a, CacheAction::Fetch));
    let (s, a) = get_or_fetch_step("RJ123456", s, CacheEvent::Fetched(Ok(sample_metadata())));
    let stored = match a {
        CacheAction::Store(m) => m,
        other => panic!("unexpected {:?}", other),
    };
    assert_eq!(stored.maker, "Circle");
    let (s, a) = get_or_fetch_step("RJ123456", s, CacheEvent::Stored(Ok(())));
    assert!(matches!(s, CacheState::Finished));
    match a {
        CacheAction::Finish(Ok(m)) => {
            assert_eq!(m.rjcode, stored.rjcode);
            assert_eq!(m.title, stored.title);
            assert_eq!(m.maker, stored.maker);
            assert_eq!(m.date, stored.date);
        }
        other => panic!("unexpected {:?}", other),
    }
}

#[test]
fn cache_errors_end_the_lookup() {
    let (s, a) = get_or_fetch_step(
        "RJ1",
        CacheState::AwaitingLookup,
        CacheEvent::Looked(Err(CacheError::Db("locked".to_string()))),
    );
    assert!(matches!(s, CacheState::Finished));
    assert!(matches!(a, CacheAction::Finish(Err(CacheError::Db(ref m))) if m == "locked"));

    let (_, a) = get_or_fetch_step(
        "RJ1",
        CacheState::AwaitingFetch,
        CacheEvent::Fetched(Err(ScraperError::NotFound)),
    );
    match a {
        CacheAction::Finish(Err(e)) => assert_eq!(e.message(), "爬虫错误: 作品不存在"),
        other => panic!("unexpected {:?}", other),
    }

    let (_, a) = get_or_fetch_step(
        "RJ1",
        CacheState::AwaitingStore(record("RJ1")),
        CacheEvent::Stored(Err(CacheError::Serde("bad".to_string()))),
    );
    match a {
        CacheAction::Finish(Err(e)) => assert_eq!(e.message(), "序列化错误: bad"),
        other => panic!("unexpected {:?}", other),
    }
}

#[test]
fn cache_ignores_events_out_of_turn() {
    let (s, a) = get_or_fetch_step("RJ1", CacheState::AwaitingFetch, CacheEvent::Begin);
    assert!(matches!(s, CacheState::AwaitingFetch));
    assert!(matches!(a, CacheAction::Wait));
}

#[test]
fn record_duplicate_is_equal() {
    let r = record("RJ9");
    let d = r.duplicate();
    assert_eq!(d.rjcode, "RJ9");
    assert_eq!(d.title, r.title);
}
