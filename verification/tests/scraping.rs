use dlsite_rust_renamer::dlsite::Dlsite;
use dlsite_rust_renamer::dlsite_scraper::{
    DlsiteScraper, JsonBody, JsonResponse, PageResponse, RequestFailure, ScraperError,
};
use dlsite_rust_renamer::json_value::JsonValue;

const PAGE: &str = r#"<html><body>
<span id="work_name"> 作品タイトル </span>
<span id="maker_name"><a href="x">  サークル </a></span>
<table id="work_outline">
<tr><th>販売日</th><td> 2024年01月01日 </td></tr>
<tr><th>シリーズ名</th><td><a href="s"> シリーズ </a></td></tr>
<tr><th>声優</th><td><a href="a">A</a> / <a href="b"> B </a></td></tr>
</table>
<span id="work_genre"><span class="genre_item"> 音声 </span><span class="genre_item">ASMR</span></span>
<span id="work_memo"><span class="genre_item"> English </span><span class="genre_item">Binaural</span></span>
</body></html>"#;

fn obj(members: Vec<(&str, JsonValue)>) -> JsonValue {
    JsonValue::Object(members.into_iter().map(|(k, v)| (k.to_string(), v)).collect())
}

#[test]
fn scraper_new_sets_headers() {
    let s = DlsiteScraper::new();
    let h = s.headers();
    assert_eq!(h.len(), 2);
    assert_eq!(h[0].0, "User-Agent");
    assert!(h[0].1.starts_with("Mozilla/5.0"));
    assert_eq!(h[1], ("Accept-Language".to_string(), "ja-JP".to_string()));
}

#[test]
fn error_messages() {
    assert_eq!(ScraperError::NotFound.message(), "作品不存在");
    assert_eq!(
        ScraperError::HttpRequestError("x".to_string()).message(),
        "HTTP 请求失败: x"
    );
    assert_eq!(ScraperError::ParseError("y".to_string()).message(), "页面解析失败: y");
}

#[test]
fn page_status_404_and_410_mean_not_found() {
    for code in [404u16, 410] {
        let r = DlsiteScraper::page_result(PageResponse::RequestFailed(RequestFailure::Status(code)));
        assert!(matches!(r, Err(ScraperError::NotFound)));
    }
}

#[test]
fn page_other_failures_are_request_errors() {
    let r = DlsiteScraper::page_result(PageResponse::RequestFailed(RequestFailure::Status(503)));
    assert!(matches!(r, Err(ScraperError::HttpRequestError(ref m)) if m == "状态码错误: 503"));
    let r = DlsiteScraper::page_result(PageResponse::RequestFailed(RequestFailure::Transport(
        "timeout".to_string(),
    )));
    assert!(matches!(r, Err(ScraperError::HttpRequestError(ref m)) if m == "请求失败: timeout"));
    let r = DlsiteScraper::page_result(PageResponse::ReadFailed("eof".to_string()));
    assert!(matches!(r, Err(ScraperError::HttpRequestError(ref m)) if m == "读取响应失败: eof"));
}

#[test]
fn page_saying_work_is_missing_is_not_found() {
    let r = DlsiteScraper::page_result(PageResponse::Body(
        "<p>この作品は存在しません</p>".to_string(),
    ));
    assert!(matches!(r, Err(ScraperError::NotFound)));
    let r = DlsiteScraper::page_result(PageResponse::Body("<p>ok</p>".to_string()));
    assert_eq!(r.unwrap(), "<p>ok</p>");
}

#[test]
fn json_results() {
    let r = DlsiteScraper::json_result(JsonResponse::RequestFailed(RequestFailure::Status(410)));
    assert!(matches!(r, Err(ScraperError::NotFound)));
    let r = DlsiteScraper::json_result(JsonResponse::RequestFailed(RequestFailure::Status(500)));
    assert!(matches!(r, Err(ScraperError::HttpRequestError(ref m)) if m == "状态码错误: 500"));
    let r = DlsiteScraper::json_result(JsonResponse::RequestFailed(RequestFailure::Transport(
        "dns".to_string(),
    )));
    assert!(matches!(r, Err(ScraperError::HttpRequestError(ref m)) if m == "dns"));
    let r = DlsiteScraper::json_result(JsonResponse::ReadFailed("eof".to_string()));
    assert!(matches!(r, Err(ScraperError::HttpRequestError(ref m)) if m == "eof"));
    let r = DlsiteScraper::json_result(JsonResponse::ParseFailed("line 1".to_string()));
    assert!(matches!(r, Err(ScraperError::HttpRequestError(ref m)) if m == "解析 JSON 失败: line 1"));
    let r = DlsiteScraper::json_result(JsonResponse::Parsed(obj(vec![])));
    assert!(matches!(r, Err(ScraperError::HttpRequestError(ref m)) if m == "返回的 JSON 不是数组"));
    let r = DlsiteScraper::json_result(JsonResponse::Parsed(JsonValue::Array(vec![JsonValue::Null])));
    assert!(matches!(r, Ok(JsonValue::Array(ref v)) if v.len() == 1));
}

#[test]
fn cover_url_uses_next_number() {
    assert_eq!(
        DlsiteScraper::cover_url("RJ01234567").as_deref(),
        Some("https://img.dlsite.jp/modpub/images2/work/doujin/RJ01235000/RJ01234567_img_main.jpg")
    );
    assert_eq!(
        DlsiteScraper::cover_url("RJ123456").as_deref(),
        Some("https://img.dlsite.jp/modpub/images2/work/doujin/RJ12346000/RJ123456_img_main.jpg")
    );
    assert_eq!(
        DlsiteScraper::cover_url("RJ9999999").as_deref(),
        Some("https://img.dlsite.jp/modpub/images2/work/doujin/RJ100000000/RJ9999999_img_main.jpg")
    );
    assert_eq!(
        DlsiteScraper::cover_url("RJ+1234x").as_deref(),
        Some("https://img.dlsite.jp/modpub/images2/work/doujin/RJ01235000/RJ+1234x_img_main.jpg")
    );
}

#[test]
fn cover_url_refuses_malformed_codes() {
    assert_eq!(DlsiteScraper::cover_url("RJ12"), None);
    assert_eq!(DlsiteScraper::cover_url("RJ1234"), None);
    assert_eq!(DlsiteScraper::cover_url("VJ123456"), None);
    assert_eq!(DlsiteScraper::cover_url("RJ12a456"), None);
    assert_eq!(DlsiteScraper::cover_url("RJ++12345"), None);
    assert_eq!(DlsiteScraper::cover_url("RJ1２345678"), None);
}

#[test]
fn urls_of_a_work() {
    assert_eq!(
        Dlsite::<()>::compile_work_page_url("RJ123456"),
        "https://www.dlsite.com/maniax/work/=/product_id/RJ123456.html"
    );
    assert_eq!(
        Dlsite::<()>::compile_product_api_url("RJ123456"),
        "https://www.dlsite.com/maniax/api/=/product.json?workno=RJ123456"
    );
}

#[test]
fn json_get_and_as_str() {
    let v = obj(vec![
        ("language", JsonValue::Str("JPN".to_string())),
        ("n", JsonValue::Number("1".to_string())),
    ]);
    assert_eq!(v.get("language").and_then(|l| l.as_str()), Some("JPN"));
    assert!(v.get("n").unwrap().as_str().is_none());
    assert!(v.get("missing").is_none());
    assert!(JsonValue::Array(vec![]).get("language").is_none());
    assert!(JsonValue::Array(vec![]).is_array());
    assert!(!v.is_array());
}

#[test]
fn json_body_is_parsed_then_judged() {
    let r = DlsiteScraper::json_body_result(JsonBody::Body("[{\"workno\":\"RJ1\"}]".to_string()));
    match r {
        Ok(JsonValue::Array(items)) => {
            assert_eq!(items.len(), 1);
            assert_eq!(items[0].get("workno").and_then(|w| w.as_str()), Some("RJ1"));
        }
        other => panic!("unexpected {:?}", other),
    }
    let r = DlsiteScraper::json_body_result(JsonBody::Body("{\"RJ1\": {}}".to_string()));
    assert!(matches!(r, Err(ScraperError::HttpRequestError(ref m)) if m == "返回的 JSON 不是数组"));
    let r = DlsiteScraper::json_body_result(JsonBody::Body("not json".to_string()));
    assert!(matches!(r, Err(ScraperError::HttpRequestError(ref m)) if m.starts_with("解析 JSON 失败: ") && m.len() > "解析 JSON 失败: ".len()));
    let r = DlsiteScraper::json_body_result(JsonBody::RequestFailed(RequestFailure::Status(404)));
    assert!(matches!(r, Err(ScraperError::NotFound)));
    let r = DlsiteScraper::json_body_result(JsonBody::ReadFailed("eof".to_string()));
    assert!(matches!(r, Err(ScraperError::HttpRequestError(ref m)) if m == "eof"));
}

#[test]
fn parse_metadata_reads_page() {
    let d = Dlsite::new(());
    let data = obj(vec![("language", JsonValue::Str("JPN".to_string()))]);
    let m = d.parse_metadata("RJ123456", PAGE, Some(&data)).unwrap();
    assert_eq!(m.rjcode, "RJ123456");
    assert_eq!(m.title, "作品タイトル");
    assert_eq!(m.circle.as_deref(), Some("サークル"));
    assert_eq!(m.categories, vec!["音声".to_string(), "ASMR".to_string()]);
    assert_eq!(m.tags, vec!["English".to_string(), "Binaural".to_string()]);
    assert_eq!(m.release_date.as_deref(), Some("2024年01月01日"));
    assert_eq!(m.voice_actor.as_deref(), Some("A / B"));
    assert_eq!(m.series.as_deref(), Some("シリーズ"));
    assert_eq!(m.age_rating.as_deref(), Some("JPN"));
    assert_eq!(m.lang.as_deref(), Some("en"));
}

#[test]
fn release_date_row_is_read() {
    let d = Dlsite::new(DlsiteScraper::new());
    let html = "<table><tr><th>販売日</th><td> 2024年01月01日 </td></tr></table>";
    let m = d.parse_metadata("RJ123456", html, None).unwrap();
    assert_eq!(m.release_date.as_deref(), Some("2024年01月01日"));
    assert!(m.voice_actor.is_none());
    assert!(m.series.is_none());
}

#[test]
fn parse_metadata_without_title_or_data() {
    let d = Dlsite::new(());
    let m = d.parse_metadata("RJ1", "<html><body></body></html>", None).unwrap();
    assert_eq!(m.title, "(无标题)");
    assert!(m.circle.is_none());
    assert!(m.tags.is_empty());
    assert!(m.release_date.is_none());
    assert!(m.age_rating.is_none());
    assert_eq!(m.lang.as_deref(), Some("ja"));
}

fn strings(v: &[&str]) -> Vec<String> {
    v.iter().map(|s| s.to_string()).collect()
}

#[test]
fn metadata_from_selections_reads_rows() {
    let m = Dlsite::<()>::metadata_from_selections(
        "RJ1",
        strings(&[" T "]),
        vec![],
        strings(&["中文"]),
        vec![],
        vec![strings(&["作品形式"]), strings(&["販売日"]), strings(&["声優"]), strings(&["声優"])],
        vec![strings(&["x"]), strings(&[" 2024 ", "y"]), strings(&["A"]), strings(&["C"])],
        vec![vec![], vec![], strings(&[" A ", "B"]), strings(&["C"])],
        None,
    );
    assert_eq!(m.title, "T");
    assert!(m.circle.is_none());
    assert_eq!(m.release_date.as_deref(), Some("2024"));
    assert_eq!(m.voice_actor.as_deref(), Some("A / B / C"));
    assert!(m.series.is_none());
    assert_eq!(m.lang.as_deref(), Some("zh"));

    let m = Dlsite::<()>::metadata_from_selections(
        "RJ1",
        vec![],
        vec![],
        vec![],
        vec![],
        vec![strings(&["販売日"])],
        vec![vec![]],
        vec![vec![]],
        Some("x".to_string()),
    );
    assert_eq!(m.title, "(无标题)");
    assert!(m.release_date.is_none());
    assert!(m.voice_actor.is_none());
    assert_eq!(m.lang.as_deref(), Some("ja"));
    assert_eq!(m.age_rating.as_deref(), Some("x"));
}

#[test]
fn metadata_from_pages_needs_the_work_record() {
    let d = Dlsite::new(());
    let array = JsonValue::Array(vec![]);
    let r = d.metadata_from_pages("RJ123456", PAGE, &array);
    assert!(matches!(r, Err(ScraperError::ParseError(ref m)) if m == "找不到对应的 RJ 编号数据"));

    let keyed = obj(vec![(
        "RJ123456",
        obj(vec![("language", JsonValue::Str("KO_KR".to_string()))]),
    )]);
    let m = d.metadata_from_pages("RJ123456", PAGE, &keyed).unwrap();
    assert_eq!(m.age_rating.as_deref(), Some("KO_KR"));
    assert_eq!(m.lang.as_deref(), Some("en"));
    let r = d.metadata_from_pages("RJ654321", PAGE, &keyed);
    assert!(matches!(r, Err(ScraperError::ParseError(ref m)) if m == "找不到对应的 RJ 编号数据"));
    let r = d.metadata_from_pages("RJ123456", PAGE, &JsonValue::Null);
    assert!(matches!(r, Err(ScraperError::ParseError(_))));

    let data = JsonValue::Array(vec![
        obj(vec![("workno", JsonValue::Str("RJ000001".to_string()))]),
        obj(vec![
            ("language", JsonValue::Str("CHI_HANS".to_string())),
            ("workno", JsonValue::Str("RJ123456".to_string())),
        ]),
    ]);
    let m = d.metadata_from_pages("RJ123456", PAGE, &data).unwrap();
    assert_eq!(m.age_rating.as_deref(), Some("CHI_HANS"));
    assert_eq!(m.lang.as_deref(), Some("en"));
    assert_eq!(m.title, "作品タイトル");
}
