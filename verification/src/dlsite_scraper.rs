//! The DLsite page fetcher: its request headers, how it judges a response, and where
//! it looks for a work's cover image.
use vstd::prelude::*;
use vstd::string::StringExecFns;

use crate::json_value::{json_error_text, parse_json, parsed_json, JsonValue};
use crate::text::{
    chars_of, contains_seq, contains_str, decimal, push_char, push_decimal, starts_with_seq,
    zero_padded,
};

verus! {

broadcast use vstd::string::group_string_axioms;

/// Why fetching a work's page or data failed.
#[derive(Debug, Clone)]
pub enum ScraperError {
    /// The request failed; the text says how.
    HttpRequestError(String),
    /// The work does not exist.
    NotFound,
    /// The page could not be understood; the text says why.
    ParseError(String),
}

impl ScraperError {
    /// The text shown for this error.
    pub open spec fn spec_message(&self) -> Seq<char> {
        match self {
            ScraperError::HttpRequestError(m) => "HTTP 请求失败: "@ + m@,
            ScraperError::NotFound => "作品不存在"@,
            ScraperError::ParseError(m) => "页面解析失败: "@ + m@,
        }
    }

    /// The text shown for this error.
    pub fn message(&self) -> (r: String)
        ensures
            r@ == self.spec_message(),
    {
        match self {
            ScraperError::HttpRequestError(m) => {
                let mut r = "HTTP 请求失败: ".to_string();
                r.append(m.as_str());
                r
            },
            ScraperError::NotFound => "作品不存在".to_string(),
            ScraperError::ParseError(m) => {
                let mut r = "页面解析失败: ".to_string();
                r.append(m.as_str());
                r
            },
        }
    }
}

/// How a request failed before a body could be read.
#[derive(Debug)]
pub enum RequestFailure {
    /// The server answered with this HTTP status code.
    Status(u16),
    /// The request failed otherwise; the text describes the failure.
    Transport(String),
}

/// What came of a request for a page.
#[derive(Debug)]
pub enum PageResponse {
    /// The request failed.
    RequestFailed(RequestFailure),
    /// The body could not be read; the text describes the failure.
    ReadFailed(String),
    /// The body of the answer.
    Body(String),
}

/// What came of a request for JSON data.
#[derive(Debug)]
pub enum JsonResponse {
    /// The request failed.
    RequestFailed(RequestFailure),
    /// The body could not be read; the text describes the failure.
    ReadFailed(String),
    /// The body is not JSON; the text describes the failure.
    ParseFailed(String),
    /// The body, parsed.
    Parsed(JsonValue),
}

/// What came of a request for JSON data, with the body as text.
#[derive(Debug)]
pub enum JsonBody {
    /// The request failed.
    RequestFailed(RequestFailure),
    /// The body could not be read; the text describes the failure.
    ReadFailed(String),
    /// The body of the answer.
    Body(String),
}

/// The user agent the fetcher announces.
pub open spec fn user_agent() -> Seq<char> {
    "Mozilla/5.0 (Windows NT 10.0; Win64; x64) AppleWebKit/537.36 (KHTML, like Gecko) Chrome/114 Safari/537.36"@
}

/// The text by which DLsite says that a work does not exist.
pub open spec fn missing_work_marker() -> Seq<char> {
    "この作品は存在しません"@
}

/// A status code by which the server says that the work does not exist.
pub open spec fn is_gone_status(code: u16) -> bool {
    code == 404 || code == 410
}

/// The text of a `HttpRequestError` for a failed page request.
pub open spec fn page_request_error_text(f: RequestFailure) -> Seq<char> {
    match f {
        RequestFailure::Status(code) => "状态码错误: "@ + decimal(code as nat),
        RequestFailure::Transport(m) => "请求失败: "@ + m@,
    }
}

/// The text of a `HttpRequestError` for a failed request for JSON data.
pub open spec fn json_request_error_text(f: RequestFailure) -> Seq<char> {
    match f {
        RequestFailure::Status(code) => "状态码错误: "@ + decimal(code as nat),
        RequestFailure::Transport(m) => m@,
    }
}

/// The request headers, as pairs of views.
pub open spec fn header_views(h: Seq<(String, String)>) -> Seq<(Seq<char>, Seq<char>)> {
    h.map_values(|p: (String, String)| (p.0@, p.1@))
}

/// No header name occurs twice, as in a map from names to values.
pub open spec fn header_names_distinct(h: Seq<(Seq<char>, Seq<char>)>) -> bool {
    forall|i: int, j: int| 0 <= i < j < h.len() ==> (#[trigger] h[i]).0 != (#[trigger] h[j]).0
}

/// `e` is a `HttpRequestError` with the text `m`.
pub open spec fn is_http_error(e: ScraperError, m: Seq<char>) -> bool {
    e matches ScraperError::HttpRequestError(t) && t@ == m
}

/// `e` is a `ParseError` with the text `m`.
pub open spec fn is_parse_error(e: ScraperError, m: Seq<char>) -> bool {
    e matches ScraperError::ParseError(t) && t@ == m
}

/// The fetcher of DLsite pages.
pub struct DlsiteScraper {
    headers: Vec<(String, String)>,
}

impl DlsiteScraper {
    /// The headers sent with every request, in order.
    pub closed spec fn spec_headers(&self) -> Seq<(Seq<char>, Seq<char>)> {
        header_views(self.headers@)
    }

    /// A fetcher that announces a desktop browser and asks for Japanese pages.
    pub fn new() -> (r: Self)
        ensures
            r.spec_headers() == seq![
                ("User-Agent"@, user_agent()),
                ("Accept-Language"@, "ja-JP"@),
            ],
            header_names_distinct(r.spec_headers()),
    {
        let mut headers: Vec<(String, String)> = Vec::new();
        headers.push(
            (
                "User-Agent".to_string(),
                "Mozilla/5.0 (Windows NT 10.0; Win64; x64) AppleWebKit/537.36 (KHTML, like Gecko) Chrome/114 Safari/537.36".to_string(),
            ),
        );
        headers.push(("Accept-Language".to_string(), "ja-JP".to_string()));
        let r = DlsiteScraper { headers };
        assert(r.spec_headers() =~= seq![
            ("User-Agent"@, user_agent()),
            ("Accept-Language"@, "ja-JP"@),
        ]);
        proof {
            reveal_strlit("User-Agent");
            reveal_strlit("Accept-Language");
            assert("User-Agent"@[0] != "Accept-Language"@[0]);
        }
        r
    }

    /// The headers sent with every request, as (name, value) pairs.
    pub fn headers(&self) -> (r: &Vec<(String, String)>)
        ensures
            header_views(r@) == self.spec_headers(),
    {
        &self.headers
    }

    /// The error for a page request that failed before a body could be read: a status
    /// of 404 or 410 means the work does not exist.
    pub fn page_request_error(f: RequestFailure) -> (e: ScraperError)
        ensures
            match f {
                RequestFailure::Status(code) => if is_gone_status(code) {
                    e is NotFound
                } else {
                    is_http_error(e, page_request_error_text(f))
                },
                RequestFailure::Transport(_) => is_http_error(e, page_request_error_text(f)),
            },
    {
        match f {
            RequestFailure::Status(code) => {
                if code == 404 || code == 410 {
                    ScraperError::NotFound
                } else {
                    let mut m = "状态码错误: ".to_string();
                    push_decimal(&mut m, code as u64);
                    ScraperError::HttpRequestError(m)
                }
            },
            RequestFailure::Transport(t) => {
                let mut m = "请求失败: ".to_string();
                m.append(t.as_str());
                ScraperError::HttpRequestError(m)
            },
        }
    }

    /// Judges the answer to a page request: the body, unless the request failed, the
    /// body could not be read, or the page says that the work does not exist.
    pub fn page_result(resp: PageResponse) -> (r: Result<String, ScraperError>)
        ensures
            match resp {
                PageResponse::RequestFailed(f) => match f {
                    RequestFailure::Status(code) => if is_gone_status(code) {
                        r matches Err(e) && e is NotFound
                    } else {
                        r matches Err(e) && is_http_error(e, page_request_error_text(f))
                    },
                    RequestFailure::Transport(_) => r matches Err(e) && is_http_error(
                        e,
                        page_request_error_text(f),
                    ),
                },
                PageResponse::ReadFailed(m) => r matches Err(e) && is_http_error(
                    e,
                    "读取响应失败: "@ + m@,
                ),
                PageResponse::Body(body) => if contains_seq(body@, missing_work_marker()) {
                    r matches Err(e) && e is NotFound
                } else {
                    r matches Ok(b) && b@ == body@
                },
            },
    {
        match resp {
            PageResponse::RequestFailed(f) => Err(Self::page_request_error(f)),
            PageResponse::ReadFailed(t) => {
                let mut m = "读取响应失败: ".to_string();
                m.append(t.as_str());
                Err(ScraperError::HttpRequestError(m))
            },
            PageResponse::Body(body) => {
                if contains_str(body.as_str(), "この作品は存在しません") {
                    Err(ScraperError::NotFound)
                } else {
                    Ok(body)
                }
            },
        }
    }

    /// Judges the answer to a request for JSON data: the parsed value when it is an
    /// array; otherwise an error saying what went wrong.
    pub fn json_result(resp: JsonResponse) -> (r: Result<JsonValue, ScraperError>)
        ensures
            match resp {
                JsonResponse::RequestFailed(f) => match f {
                    RequestFailure::Status(code) => if is_gone_status(code) {
                        r matches Err(e) && e is NotFound
                    } else {
                        r matches Err(e) && is_http_error(e, json_request_error_text(f))
                    },
                    RequestFailure::Transport(_) => r matches Err(e) && is_http_error(
                        e,
                        json_request_error_text(f),
                    ),
                },
                JsonResponse::ReadFailed(m) => r matches Err(e) && is_http_error(e, m@),
                JsonResponse::ParseFailed(m) => r matches Err(e) && is_http_error(
                    e,
                    "解析 JSON 失败: "@ + m@,
                ),
                JsonResponse::Parsed(v) => if v is Array {
                    r == Ok::<JsonValue, ScraperError>(v)
                } else {
                    r matches Err(e) && is_http_error(e, "返回的 JSON 不是数组"@)
                },
            },
    {
        match resp {
            JsonResponse::RequestFailed(f) => match f {
                RequestFailure::Status(code) => {
                    if code == 404 || code == 410 {
                        Err(ScraperError::NotFound)
                    } else {
                        let mut m = "状态码错误: ".to_string();
                        push_decimal(&mut m, code as u64);
                        Err(ScraperError::HttpRequestError(m))
                    }
                },
                RequestFailure::Transport(t) => Err(ScraperError::HttpRequestError(t)),
            },
            JsonResponse::ReadFailed(t) => Err(ScraperError::HttpRequestError(t)),
            JsonResponse::ParseFailed(t) => {
                let mut m = "解析 JSON 失败: ".to_string();
                m.append(t.as_str());
                Err(ScraperError::HttpRequestError(m))
            },
            JsonResponse::Parsed(v) => {
                if v.is_array() {
                    Ok(v)
                } else {
                    Err(ScraperError::HttpRequestError("返回的 JSON 不是数组".to_string()))
                }
            },
        }
    }

    /// Judges the answer to a request for JSON data, parsing the body: the parsed value
    /// when the body is JSON and an array; otherwise an error saying what went wrong.
    pub fn json_body_result(resp: JsonBody) -> (r: Result<JsonValue, ScraperError>)
        ensures
            match resp {
                JsonBody::RequestFailed(f) => match f {
                    RequestFailure::Status(code) => if is_gone_status(code) {
                        r matches Err(e) && e is NotFound
                    } else {
                        r matches Err(e) && is_http_error(e, json_request_error_text(f))
                    },
                    RequestFailure::Transport(_) => r matches Err(e) && is_http_error(
                        e,
                        json_request_error_text(f),
                    ),
                },
                JsonBody::ReadFailed(m) => r matches Err(e) && is_http_error(e, m@),
                JsonBody::Body(b) => match parsed_json(b@) {
                    Some(v) => if v is Array {
                        r == Ok::<JsonValue, ScraperError>(v)
                    } else {
                        r matches Err(e) && is_http_error(e, "返回的 JSON 不是数组"@)
                    },
                    None => r matches Err(e) && is_http_error(
                        e,
                        "解析 JSON 失败: "@ + json_error_text(b@),
                    ),
                },
            },
    {
        match resp {
            JsonBody::RequestFailed(f) => Self::json_result(JsonResponse::RequestFailed(f)),
            JsonBody::ReadFailed(m) => Self::json_result(JsonResponse::ReadFailed(m)),
            JsonBody::Body(b) => match parse_json(b.as_str()) {
                Ok(v) => Self::json_result(JsonResponse::Parsed(v)),
                Err(m) => Self::json_result(JsonResponse::ParseFailed(m)),
            },
        }
    }

    /// The address of the main image of the work `rjcode`, if the code has the shape
    /// the image server expects (see `cover_url_spec`).
    pub fn cover_url(rjcode: &str) -> (r: Option<String>)
        ensures
            match r {
                Some(u) => cover_url_spec(rjcode@) == Some(u@),
                None => cover_url_spec(rjcode@) is None,
            },
    {
        let v = chars_of(rjcode);
        if v.len() < 7 || v[0] != 'R' || v[1] != 'J' {
            proof {
                if v@.len() >= 7 {
                    assert(v@.subrange(0, 2)[0] == v@[0]);
                    assert(v@.subrange(0, 2)[1] == v@[1]);
                }
            }
            return None;
        }
        assert(v@.subrange(0, 2) =~= seq!['R', 'J']);
        let (start, end) = if v[2] == '+' {
            (3usize, 7usize)
        } else {
            (2usize, 7usize)
        };
        let mut value: u32 = 0;
        let mut k = start;
        while k < end
            invariant
                2 <= start <= k <= end == 7 <= v.len(),
                v@ == rjcode@,
                v@.subrange(0, 2) == seq!['R', 'J'],
                start == (if v@[2] == '+' {
                    3int
                } else {
                    2int
                }),
                all_ascii_digits(v@.subrange(start as int, k as int)),
                value as nat == digits_value(v@.subrange(start as int, k as int)),
                value < pow10((k - start) as nat),
            decreases end - k,
        {
            let c = v[k];
            if !('0' <= c && c <= '9') {
                assert(!all_ascii_digits(v@.subrange(start as int, end as int))) by {
                    assert(v@.subrange(start as int, end as int)[k - start] == c);
                }
                proof {
                    lemma_cover_number_shape(v@, start as int);
                }
                return None;
            }
            let ghost prev = v@.subrange(start as int, k as int);
            assert(v@.subrange(start as int, k + 1).drop_last() =~= prev);
            proof {
                lemma_pow10_small((k - start) as nat);
            }
            value = value * 10 + (c as u32 - '0' as u32);
            k += 1;
        }
        proof {
            lemma_cover_number_shape(v@, start as int);
            lemma_pow10_small((end - start - 1) as nat);
        }
        let n = value + 1;
        let mut url = "https://img.dlsite.jp/modpub/images2/work/doujin/RJ".to_string();
        let digits = crate::text::decimal_string(n as u64);
        let len = digits.as_str().unicode_len();
        let mut pad: usize = 0;
        assert(url@ =~= "https://img.dlsite.jp/modpub/images2/work/doujin/RJ"@ + Seq::new(
            0,
            |i: int| '0',
        ));
        while pad < 5 && len < 5 - pad
            invariant
                pad <= 5,
                len + pad <= 5 || pad == 0,
                url@ == "https://img.dlsite.jp/modpub/images2/work/doujin/RJ"@ + Seq::new(
                    pad as nat,
                    |i: int| '0',
                ),
            decreases 5 - pad,
        {
            push_char(&mut url, '0');
            pad += 1;
            assert(url@ =~= "https://img.dlsite.jp/modpub/images2/work/doujin/RJ"@ + Seq::new(
                pad as nat,
                |i: int| '0',
            ));
        }
        url.append(digits.as_str());
        url.append("000/");
        url.append(rjcode);
        url.append("_img_main.jpg");
        assert(url@ =~= "https://img.dlsite.jp/modpub/images2/work/doujin/RJ"@ + zero_padded(
            decimal((value + 1) as nat),
            5,
        ) + "000/"@ + rjcode@ + "_img_main.jpg"@);
        Some(url)
    }
}

/// Every character of `s` is an ASCII digit.
pub open spec fn all_ascii_digits(s: Seq<char>) -> bool {
    forall|i: int| 0 <= i < s.len() ==> '0' <= #[trigger] s[i] <= '9'
}

/// The number written by the decimal digits `s`.
pub open spec fn digits_value(s: Seq<char>) -> nat
    decreases s.len(),
{
    if s.len() == 0 {
        0
    } else {
        digits_value(s.drop_last()) * 10 + ((s.last() as u32) - ('0' as u32)) as nat
    }
}

/// Ten to the power `k`.
pub open spec fn pow10(k: nat) -> nat
    decreases k,
{
    if k == 0 {
        1
    } else {
        10 * pow10((k - 1) as nat)
    }
}

/// The number that `s` denotes as a `u32` in the syntax of `str::parse`: an optional
/// `+` followed by decimal digits.
pub open spec fn parsed_unsigned(s: Seq<char>) -> Option<nat> {
    if s.len() > 0 && all_ascii_digits(s) {
        Some(digits_value(s))
    } else if s.len() > 1 && s[0] == '+' && all_ascii_digits(s.drop_first()) {
        Some(digits_value(s.drop_first()))
    } else {
        None
    }
}

/// The work number inside a code `RJ` + five characters + anything: the five
/// characters after `RJ`, read as an unsigned number.
pub open spec fn cover_number(code: Seq<char>) -> Option<nat> {
    if code.len() >= 7 && starts_with_seq(code, seq!['R', 'J']) {
        parsed_unsigned(code.subrange(2, 7))
    } else {
        None
    }
}

/// The address of the main image of the work `code`: the image directory is named
/// after the work number plus one, written with at least five digits and followed by
/// `000`.
pub open spec fn cover_url_spec(code: Seq<char>) -> Option<Seq<char>> {
    match cover_number(code) {
        Some(n) => Some(
            "https://img.dlsite.jp/modpub/images2/work/doujin/RJ"@ + zero_padded(
                decimal(n + 1),
                5,
            ) + "000/"@ + code + "_img_main.jpg"@,
        ),
        None => None,
    }
}

proof fn lemma_cover_number_shape(v: Seq<char>, start: int)
    requires
        v.len() >= 7,
        v.subrange(0, 2) == seq!['R', 'J'],
        start == (if v[2] == '+' {
            3int
        } else {
            2int
        }),
    ensures
        cover_number(v) == (if all_ascii_digits(v.subrange(start, 7)) {
            Some(digits_value(v.subrange(start, 7)))
        } else {
            None::<nat>
        }),
{
    assert(starts_with_seq(v, seq!['R', 'J']));
    let w = v.subrange(2, 7);
    if start == 3 {
        assert(w.drop_first() =~= v.subrange(3, 7));
        assert(!all_ascii_digits(w)) by {
            assert(w[0] == '+');
        }
    } else {
        assert(w =~= v.subrange(2, 7));
        assert(w[0] != '+');
    }
}

proof fn lemma_pow10_small(k: nat)
    requires
        k <= 4,
    ensures
        pow10(k) <= 10000,
{
    reveal_with_fuel(pow10, 5);
}

} // verus!
