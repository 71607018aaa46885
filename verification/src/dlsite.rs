//! Reading a work's metadata out of its DLsite page and product data.
use vstd::prelude::*;

use crate::dlsite_scraper::{is_parse_error, ScraperError};
use crate::json_value::JsonValue;
use crate::text::{concat3, contains_seq, contains_str, join, join_seq, trim, trim_seq, views};
use crate::work_metadata::{guessed_lang, opt_view, WorkMetadata};

verus! {

broadcast use vstd::string::group_string_axioms;

/// Whether `selector` is a CSS selector group that `scraper::Selector::parse` accepts.
pub uninterp spec fn css_selector_valid(selector: Seq<char>) -> bool;

/// The texts of the elements of the HTML document `document` that `selector`
/// matches, in the order `scraper` gives them, each the concatenation of its descendant text nodes,
/// as `scraper` computes them.
pub uninterp spec fn html_select_texts(document: Seq<char>, selector: Seq<char>) -> Seq<
    Seq<char>,
>;

/// `scraper`: parses `selector` with `Selector::parse` and, when it is accepted, parses
/// `document` with `Html::parse_document`, selects the matching elements with
/// `Html::select` and gives back the text of each (`ElementRef::text`, collected).
/// Whether the selector is accepted, and what the texts are, are given the names
/// `css_selector_valid` and `html_select_texts`, functions of the arguments alone;
/// nothing more is stated of them.
#[verifier::external_body]
fn select_texts(document: &str, selector: &str) -> (r: Option<Vec<String>>)
    ensures
        match r {
            Some(v) => css_selector_valid(selector@) && views(v@) == html_select_texts(
                document@,
                selector@,
            ),
            None => !css_selector_valid(selector@),
        },
{
    match scraper::Selector::parse(selector) {
        Ok(sel) => Some(
            scraper::Html::parse_document(document).select(&sel).map(
                |e| e.text().collect::<String>(),
            ).collect(),
        ),
        Err(_) => None,
    }
}

/// What the selection of `selector` in `document` gives: the texts, or `None` when the
/// selector is not accepted.
pub open spec fn selection(document: Seq<char>, selector: Seq<char>) -> Option<Seq<Seq<char>>> {
    if css_selector_valid(selector) {
        Some(html_select_texts(document, selector))
    } else {
        None
    }
}

/// The texts of a selection, none where the selector is not accepted.
pub open spec fn or_empty(o: Option<Seq<Seq<char>>>) -> Seq<Seq<char>> {
    match o {
        Some(t) => t,
        None => Seq::empty(),
    }
}

/// Each text trimmed.
pub open spec fn trimmed(texts: Seq<Seq<char>>) -> Seq<Seq<char>> {
    texts.map_values(|t: Seq<char>| trim_seq(t))
}

/// The first text, trimmed.
pub open spec fn first_trimmed(texts: Seq<Seq<char>>) -> Option<Seq<char>> {
    if texts.len() > 0 {
        Some(trim_seq(texts[0]))
    } else {
        None
    }
}

/// For each element of the HTML document `document` that `outer` matches, in the
/// order `scraper` gives them, the texts of its descendants that `inner` matches, each
/// the concatenation of its descendant text nodes, as `scraper` computes them.
pub uninterp spec fn html_select_nested_texts(
    document: Seq<char>,
    outer: Seq<char>,
    inner: Seq<char>,
) -> Seq<Seq<Seq<char>>>;

/// The views of a list of lists of strings.
pub open spec fn nested_views(v: Seq<Vec<String>>) -> Seq<Seq<Seq<char>>> {
    v.map_values(|r: Vec<String>| views(r@))
}

/// `scraper`: parses `outer` and `inner` with `Selector::parse` and, when both are
/// accepted, parses `document` with `Html::parse_document`, selects the elements
/// `outer` matches with `Html::select` and, in each, those `inner` matches with
/// `ElementRef::select`, giving back their texts (`ElementRef::text`, collected). The
/// texts are given the name `html_select_nested_texts`, a function of the arguments
/// alone; nothing more is stated of them.
#[verifier::external_body]
fn select_nested_texts(document: &str, outer: &str, inner: &str) -> (r: Option<Vec<Vec<String>>>)
    ensures
        match r {
            Some(v) => css_selector_valid(outer@) && css_selector_valid(inner@) && nested_views(v@)
                == html_select_nested_texts(document@, outer@, inner@),
            None => !(css_selector_valid(outer@) && css_selector_valid(inner@)),
        },
{
    match (scraper::Selector::parse(outer), scraper::Selector::parse(inner)) {
        (Ok(o), Ok(i)) => Some(
            scraper::Html::parse_document(document).select(&o).map(
                |row| row.select(&i).map(|e| e.text().collect::<String>()).collect(),
            ).collect(),
        ),
        _ => None,
    }
}

/// What the nested selection gives: the texts per outer element, none where a
/// selector is not accepted.
pub open spec fn nested_selection(document: Seq<char>, outer: Seq<char>, inner: Seq<char>) -> Seq<
    Seq<Seq<char>>,
> {
    if css_selector_valid(outer) && css_selector_valid(inner) {
        html_select_nested_texts(document, outer, inner)
    } else {
        Seq::empty()
    }
}

/// One of the headers of a row contains `marker`.
pub open spec fn row_marked(headers: Seq<Seq<char>>, marker: Seq<char>) -> bool {
    exists|k: int| 0 <= k < headers.len() && contains_seq(#[trigger] headers[k], marker)
}

/// The first cell, trimmed, of the first row whose headers mention `marker` and that
/// has a cell; rows are paired by position.
pub open spec fn marked_value(
    headers: Seq<Seq<Seq<char>>>,
    cells: Seq<Seq<Seq<char>>>,
    marker: Seq<char>,
) -> Option<Seq<char>>
    decreases headers.len(),
{
    if headers.len() == 0 || cells.len() == 0 {
        None
    } else if row_marked(headers[0], marker) && cells[0].len() > 0 {
        Some(trim_seq(cells[0][0]))
    } else {
        marked_value(headers.drop_first(), cells.drop_first(), marker)
    }
}

/// The link texts of all the rows whose headers mention `marker`, in order; rows are
/// paired by position.
pub open spec fn marked_links(
    headers: Seq<Seq<Seq<char>>>,
    links: Seq<Seq<Seq<char>>>,
    marker: Seq<char>,
) -> Seq<Seq<char>>
    decreases headers.len(),
{
    if headers.len() == 0 || links.len() == 0 {
        Seq::empty()
    } else {
        (if row_marked(headers[0], marker) {
            links[0]
        } else {
            Seq::empty()
        }) + marked_links(headers.drop_first(), links.drop_first(), marker)
    }
}

/// The voice actors: the trimmed texts joined by " / ", or none when there are none.
pub open spec fn actors_from(links: Seq<Seq<char>>) -> Option<Seq<char>> {
    if links.len() == 0 {
        None
    } else {
        Some(join_seq(trimmed(links), " / "@))
    }
}

/// The header that marks the release date.
pub open spec fn release_date_marker() -> Seq<char> {
    "販売日"@
}

/// The header that marks the voice actors.
pub open spec fn voice_marker() -> Seq<char> {
    "声優"@
}

/// The header that marks the series.
pub open spec fn series_marker() -> Seq<char> {
    "シリーズ名"@
}

/// The title shown when the page has none.
pub open spec fn untitled() -> Seq<char> {
    "(无标题)"@
}

/// `m` is the metadata of the work `rjcode` read from the texts its page yields: the
/// title (or "(无标题)"), the circle, the tags and the genres, each trimmed; from the
/// rows of the page's tables (their headers, cells and cell links, paired by position),
/// the release date, the voice actors and the series; the language named in the product
/// data is kept as the age rating, and the language is guessed from the tags.
pub open spec fn is_metadata_from(
    m: WorkMetadata,
    rjcode: Seq<char>,
    title: Seq<Seq<char>>,
    circle: Seq<Seq<char>>,
    tags: Seq<Seq<char>>,
    genres: Seq<Seq<char>>,
    headers: Seq<Seq<Seq<char>>>,
    cells: Seq<Seq<Seq<char>>>,
    links: Seq<Seq<Seq<char>>>,
    language: Option<Seq<char>>,
) -> bool {
    &&& m.rjcode@ == rjcode
    &&& m.title@ == (match first_trimmed(title) {
        Some(t) => t,
        None => untitled(),
    })
    &&& opt_view(m.circle) == first_trimmed(circle)
    &&& opt_view(m.release_date) == marked_value(headers, cells, release_date_marker())
    &&& views(m.tags@) == trimmed(tags)
    &&& opt_view(m.voice_actor) == actors_from(marked_links(headers, links, voice_marker()))
    &&& opt_view(m.series) == first_trimmed(marked_links(headers, links, series_marker()))
    &&& views(m.categories@) == trimmed(genres)
    &&& opt_view(m.age_rating) == language
    &&& opt_view(m.lang) == Some(guessed_lang(trimmed(tags)))
}

/// The language named in a work's product data: its `language` member, if it is a
/// string.
pub open spec fn language_of(json: Option<JsonValue>) -> Option<Seq<char>> {
    match json {
        Some(j) => match j.spec_get("language"@) {
            Some(l) => l.spec_as_str(),
            None => None,
        },
        None => None,
    }
}

/// A product record that names the work `code` in its `workno` member.
pub open spec fn names_work(item: JsonValue, code: Seq<char>) -> bool {
    match item.spec_get("workno"@) {
        Some(w) => w.spec_as_str() == Some(code),
        None => false,
    }
}

/// `i` is the first record of `items` that names the work `code`.
pub open spec fn is_first_record(items: Seq<JsonValue>, code: Seq<char>, i: int) -> bool {
    &&& 0 <= i < items.len()
    &&& names_work(items[i], code)
    &&& forall|j: int| 0 <= j < i ==> !names_work(items[j], code)
}

/// The record of the work `code` in product data: in an object keyed by work code, the
/// member named by the code; in a list of product records, the first that names it.
pub open spec fn work_record(json: JsonValue, code: Seq<char>) -> Option<JsonValue> {
    match json {
        JsonValue::Object(_) => json.spec_get(code),
        JsonValue::Array(items) => if exists|i: int|
            0 <= i < items@.len() && names_work(#[trigger] items@[i], code) {
            Some(items@[choose|i: int| is_first_record(items@, code, i)])
        } else {
            None
        },
        _ => None,
    }
}

/// Each text trimmed.
pub fn trim_all(texts: &Vec<String>) -> (r: Vec<String>)
    ensures
        views(r@) == trimmed(views(texts@)),
{
    let mut r: Vec<String> = Vec::new();
    let n = texts.len();
    let mut i: usize = 0;
    while i < n
        invariant
            i <= n == texts.len(),
            r.len() == i,
            forall|j: int| 0 <= j < i ==> r@[j]@ == trim_seq(texts@[j]@),
        decreases n - i,
    {
        r.push(trim(texts[i].as_str()));
        i += 1;
    }
    assert(views(r@) =~= trimmed(views(texts@)));
    r
}

/// The first text, trimmed.
fn first_trimmed_exec(texts: &Vec<String>) -> (r: Option<String>)
    ensures
        opt_view(r) == first_trimmed(views(texts@)),
{
    if texts.len() > 0 {
        Some(trim(texts[0].as_str()))
    } else {
        None
    }
}

/// Borrowed views of the strings of `v`.
fn as_strs(v: &Vec<String>) -> (r: Vec<&str>)
    ensures
        crate::work_metadata::str_views(r@) == views(v@),
{
    let mut r: Vec<&str> = Vec::new();
    let n = v.len();
    let mut i: usize = 0;
    while i < n
        invariant
            i <= n == v.len(),
            r.len() == i,
            forall|j: int| 0 <= j < i ==> r@[j]@ == v@[j]@,
        decreases n - i,
    {
        r.push(v[i].as_str());
        i += 1;
    }
    assert(crate::work_metadata::str_views(r@) =~= views(v@));
    r
}

fn opt_as_str(o: &Option<String>) -> (r: Option<&str>)
    ensures
        crate::work_metadata::opt_str_view(r) == opt_view(*o),
{
    match o {
        Some(s) => Some(s.as_str()),
        None => None,
    }
}

/// The reader of DLsite work pages.
pub struct Dlsite<S> {
    pub scraper: S,
}

impl<S> Dlsite<S> {
    /// A reader that fetches with `scraper`.
    pub fn new(scraper: S) -> (r: Self)
        ensures
            r.scraper == scraper,
    {
        Dlsite { scraper }
    }

    /// The address of the page of the work `rjcode`.
    pub fn compile_work_page_url(rjcode: &str) -> (r: String)
        ensures
            r@ == "https://www.dlsite.com/maniax/work/=/product_id/"@ + rjcode@ + ".html"@,
    {
        concat3("https://www.dlsite.com/maniax/work/=/product_id/", rjcode, ".html")
    }

    /// The address of the product data of the work `rjcode`.
    pub fn compile_product_api_url(rjcode: &str) -> (r: String)
        ensures
            r@ == "https://www.dlsite.com/maniax/api/=/product.json?workno="@ + rjcode@,
    {
        let r = concat3("https://www.dlsite.com/maniax/api/=/product.json?workno=", rjcode, "");
        proof {
            reveal_strlit("");
            assert(r@ =~= "https://www.dlsite.com/maniax/api/=/product.json?workno="@ + rjcode@);
        }
        r
    }

    /// The metadata of the work `rjcode` from the texts its page yields (see
    /// `is_metadata_from`), each text as the page holds it: the title, circle, tag and
    /// genre texts, and per table row its header texts, cell texts and cell link texts.
    pub fn metadata_from_selections(
        rjcode: &str,
        title: Vec<String>,
        circle: Vec<String>,
        tags: Vec<String>,
        genres: Vec<String>,
        headers: Vec<Vec<String>>,
        cells: Vec<Vec<String>>,
        links: Vec<Vec<String>>,
        language: Option<String>,
    ) -> (r: WorkMetadata)
        ensures
            is_metadata_from(
                r,
                rjcode@,
                views(title@),
                views(circle@),
                views(tags@),
                views(genres@),
                nested_views(headers@),
                nested_views(cells@),
                nested_views(links@),
                opt_view(language),
            ),
    {
        let title_text = match first_trimmed_exec(&title) {
            Some(t) => t,
            None => "(无标题)".to_string(),
        };
        let circle_text = first_trimmed_exec(&circle);
        let release_text = marked_value_exec(&headers, &cells, "販売日");
        let tag_texts = trim_all(&tags);
        let genre_texts = trim_all(&genres);
        let voice_links = marked_links_exec(&headers, &links, "声優");
        let actors = if voice_links.len() == 0 {
            None
        } else {
            let t = trim_all(&voice_links);
            Some(join(&t, " / "))
        };
        let series_links = marked_links_exec(&headers, &links, "シリーズ名");
        let series_text = first_trimmed_exec(&series_links);
        WorkMetadata::from_fields(
            rjcode,
            title_text.as_str(),
            opt_as_str(&circle_text),
            opt_as_str(&release_text),
            as_strs(&tag_texts),
            opt_as_str(&actors),
            opt_as_str(&series_text),
            as_strs(&genre_texts),
            opt_as_str(&language),
        )
    }

    /// Reads the metadata of the work `rjcode` out of its page `html` and, when given,
    /// its product record `json_data`. The title, circle, genres and tags come from
    /// fixed selectors; the release date, voice actors and series from the rows (`tr`)
    /// of the page's tables whose header cells (`th`) mention 販売日, 声優 and
    /// シリーズ名: the first data cell (`td`) of the row, or the links (`td a`) in it.
    /// A selector that `scraper` refused would yield nothing.
    pub fn parse_metadata(&self, rjcode: &str, html: &str, json_data: Option<&JsonValue>) -> (r:
        Result<WorkMetadata, ScraperError>)
        ensures
            r matches Ok(m) && is_metadata_from(
                m,
                rjcode@,
                or_empty(selection(html@, "span#work_name"@)),
                or_empty(selection(html@, "span#maker_name a"@)),
                or_empty(selection(html@, "span#work_memo span.genre_item"@)),
                or_empty(selection(html@, "span#work_genre span.genre_item"@)),
                nested_selection(html@, "tr"@, "th"@),
                nested_selection(html@, "tr"@, "td"@),
                nested_selection(html@, "tr"@, "td a"@),
                language_of(
                    match json_data {
                        Some(j) => Some(*j),
                        None => None,
                    },
                ),
            ),
    {
        let title = select_or_empty(html, "span#work_name");
        let circle = select_or_empty(html, "span#maker_name a");
        let genres = select_or_empty(html, "span#work_genre span.genre_item");
        let tags = select_or_empty(html, "span#work_memo span.genre_item");
        let headers = nested_or_empty(html, "tr", "th");
        let cells = nested_or_empty(html, "tr", "td");
        let links = nested_or_empty(html, "tr", "td a");
        let language = match json_data {
            Some(j) => match j.get("language") {
                Some(l) => match l.as_str() {
                    Some(s) => Some(s.to_string()),
                    None => None,
                },
                None => None,
            },
            None => None,
        };
        Ok(
            Self::metadata_from_selections(
                rjcode,
                title,
                circle,
                tags,
                genres,
                headers,
                cells,
                links,
                language,
            ),
        )
    }

    /// The metadata of the work `rjcode` from its fetched page `html` and product
    /// data `json`: the work's record is the member named by the code where the data is
    /// an object keyed by work code, and the first record whose `workno` is the code
    /// where it is a list of product records; its `language` is kept as the age rating.
    /// Without such a record, a `ParseError`.
    pub fn metadata_from_pages(&self, rjcode: &str, html: &str, json: &JsonValue) -> (r: Result<
        WorkMetadata,
        ScraperError,
    >)
        ensures
            match work_record(*json, rjcode@) {
                Some(work) => r matches Ok(m) && is_metadata_from(
                    m,
                    rjcode@,
                    or_empty(selection(html@, "span#work_name"@)),
                    or_empty(selection(html@, "span#maker_name a"@)),
                    or_empty(selection(html@, "span#work_memo span.genre_item"@)),
                    or_empty(selection(html@, "span#work_genre span.genre_item"@)),
                    nested_selection(html@, "tr"@, "th"@),
                    nested_selection(html@, "tr"@, "td"@),
                    nested_selection(html@, "tr"@, "td a"@),
                    language_of(Some(work)),
                ),
                None => r matches Err(e) && is_parse_error(e, "找不到对应的 RJ 编号数据"@),
            },
    {
        match find_work_record(json, rjcode) {
            Some(work) => self.parse_metadata(rjcode, html, Some(work)),
            None => Err(ScraperError::ParseError("找不到对应的 RJ 编号数据".to_string())),
        }
    }
}

/// The texts that `selector` selects in `document`; none where it is not accepted.
fn select_or_empty(document: &str, selector: &str) -> (r: Vec<String>)
    ensures
        views(r@) == or_empty(selection(document@, selector@)),
{
    match select_texts(document, selector) {
        Some(v) => v,
        None => {
            let r: Vec<String> = Vec::new();
            assert(views(r@) =~= Seq::<Seq<char>>::empty());
            r
        },
    }
}

/// The texts that the nested selection gives; none where a selector is not accepted.
fn nested_or_empty(document: &str, outer: &str, inner: &str) -> (r: Vec<Vec<String>>)
    ensures
        nested_views(r@) == nested_selection(document@, outer@, inner@),
{
    match select_nested_texts(document, outer, inner) {
        Some(v) => v,
        None => {
            let r: Vec<Vec<String>> = Vec::new();
            assert(nested_views(r@) =~= Seq::<Seq<Seq<char>>>::empty());
            r
        },
    }
}

fn row_marked_exec(headers: &Vec<String>, marker: &str) -> (b: bool)
    ensures
        b == row_marked(views(headers@), marker@),
{
    let n = headers.len();
    let mut k: usize = 0;
    while k < n
        invariant
            k <= n == headers.len(),
            forall|j: int| 0 <= j < k ==> !contains_seq(#[trigger] views(headers@)[j], marker@),
        decreases n - k,
    {
        if contains_str(headers[k].as_str(), marker) {
            assert(contains_seq(views(headers@)[k as int], marker@));
            return true;
        }
        k += 1;
    }
    false
}

/// The first cell, trimmed, of the first row whose headers mention `marker` and that
/// has a cell (see `marked_value`).
pub fn marked_value_exec(headers: &Vec<Vec<String>>, cells: &Vec<Vec<String>>, marker: &str) -> (r:
    Option<String>)
    ensures
        opt_view(r) == marked_value(nested_views(headers@), nested_views(cells@), marker@),
{
    let ghost h = nested_views(headers@);
    let ghost c = nested_views(cells@);
    let mut i: usize = 0;
    assert(h.skip(0) =~= h);
    assert(c.skip(0) =~= c);
    while i < headers.len() && i < cells.len()
        invariant
            i <= headers.len(),
            i <= cells.len(),
            h == nested_views(headers@),
            c == nested_views(cells@),
            marked_value(h, c, marker@) == marked_value(h.skip(i as int), c.skip(i as int), marker@),
        decreases headers.len() - i,
    {
        assert(h.skip(i as int)[0] == views(headers@[i as int]@));
        assert(c.skip(i as int)[0] == views(cells@[i as int]@));
        if row_marked_exec(&headers[i], marker) && cells[i].len() > 0 {
            return Some(trim(cells[i][0].as_str()));
        }
        assert(h.skip(i as int).drop_first() =~= h.skip(i + 1));
        assert(c.skip(i as int).drop_first() =~= c.skip(i + 1));
        i += 1;
    }
    None
}

/// The link texts of all the rows whose headers mention `marker` (see
/// `marked_links`).
pub fn marked_links_exec(headers: &Vec<Vec<String>>, links: &Vec<Vec<String>>, marker: &str) -> (r:
    Vec<String>)
    ensures
        views(r@) == marked_links(nested_views(headers@), nested_views(links@), marker@),
{
    let ghost h = nested_views(headers@);
    let ghost l = nested_views(links@);
    let mut r: Vec<String> = Vec::new();
    let mut i: usize = 0;
    assert(h.skip(0) =~= h);
    assert(l.skip(0) =~= l);
    assert(views(r@) + marked_links(h, l, marker@) =~= marked_links(h, l, marker@));
    while i < headers.len() && i < links.len()
        invariant
            i <= headers.len(),
            i <= links.len(),
            h == nested_views(headers@),
            l == nested_views(links@),
            views(r@) + marked_links(h.skip(i as int), l.skip(i as int), marker@) == marked_links(
                h,
                l,
                marker@,
            ),
        decreases headers.len() - i,
    {
        let ghost before = views(r@);
        assert(h.skip(i as int)[0] == views(headers@[i as int]@));
        assert(l.skip(i as int)[0] == views(links@[i as int]@));
        assert(h.skip(i as int).drop_first() =~= h.skip(i + 1));
        assert(l.skip(i as int).drop_first() =~= l.skip(i + 1));
        if row_marked_exec(&headers[i], marker) {
            let row = &links[i];
            let m = row.len();
            let mut k: usize = 0;
            while k < m
                invariant
                    k <= m == row.len(),
                    views(r@) == before + views(row@).take(k as int),
                decreases m - k,
            {
                let ghost r_before = r@;
                let item = row[k].clone();
                r.push(item);
                assert(r@ == r_before.push(row@[k as int]));
                assert(views(r@) =~= views(r_before).push(row@[k as int]@));
                assert(views(row@).take(k + 1) =~= views(row@).take(k as int).push(row@[k as int]@));
                assert(views(r@) =~= before + views(row@).take(k + 1));
                k += 1;
            }
            assert(views(row@).take(m as int) =~= views(row@));
        }
        assert(views(r@) + marked_links(h.skip(i + 1), l.skip(i + 1), marker@) =~= before
            + marked_links(h.skip(i as int), l.skip(i as int), marker@));
        i += 1;
    }
    assert(marked_links(h.skip(i as int), l.skip(i as int), marker@) =~= Seq::<Seq<char>>::empty());
    assert(views(r@) =~= marked_links(h, l, marker@));
    r
}

/// The record of the work `code` in product data (see `work_record`).
pub fn find_work_record<'a>(json: &'a JsonValue, code: &str) -> (r: Option<&'a JsonValue>)
    ensures
        match r {
            Some(v) => work_record(*json, code@) == Some(*v),
            None => work_record(*json, code@) is None,
        },
{
    match json {
        JsonValue::Array(items) => {
            let n = items.len();
            let mut i: usize = 0;
            while i < n
                invariant
                    i <= n == items.len(),
                    *json == JsonValue::Array(*items),
                    forall|j: int| 0 <= j < i ==> !names_work(#[trigger] items@[j], code@),
                decreases n - i,
            {
                let named = match items[i].get("workno") {
                    Some(w) => match w.as_str() {
                        Some(s) => crate::text::str_eq(s, code),
                        None => false,
                    },
                    None => false,
                };
                if named {
                    proof {
                        let ii = i as int;
                        assert(names_work(items@[ii], code@));
                        assert(is_first_record(items@, code@, ii));
                        let k = choose|k: int| is_first_record(items@, code@, k);
                        assert(k == ii) by {
                            if k < ii {
                                assert(!names_work(items@[k], code@));
                            } else if k > ii {
                                assert(!names_work(items@[ii], code@));
                            }
                        }
                        assert(exists|j: int| 0 <= j < items@.len() && names_work(#[trigger] items@[j], code@));
                        let arr = JsonValue::Array(*items);
                        assert(arr->Array_0 == *items);
                        assert(work_record(arr, code@) == Some(items@[ii]));
                    }
                    return Some(&items[i]);
                }
                i += 1;
            }
            None
        },
        JsonValue::Object(_) => json.get(code),
        _ => None,
    }
}

} // verus!
