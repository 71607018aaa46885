//! The settings of the renamer, their defaults, and the check of their validity.
use vstd::prelude::*;
use vstd::string::StringExecFns;

use crate::text::{chars_of, contains_seq, contains_str, push_decimal, str_eq, views};
use crate::work_metadata::opt_view;

verus! {

broadcast use vstd::string::group_string_axioms;

/// Whether `haystack` has a match of the regular expression `pattern`, as
/// `regex::Regex::is_match` decides it (false for a pattern that `Regex::new` refuses).
pub uninterp spec fn regex_matches(pattern: Seq<char>, haystack: Seq<char>) -> bool;

/// Whether `format` is a `strftime` format that `chrono` accepts
/// (`StrftimeItems::parse` succeeds on it).
pub uninterp spec fn strftime_valid(format: Seq<char>) -> bool;

/// `regex`: compiles `pattern` with `Regex::new` and asks `Regex::is_match` about
/// `haystack`; a pattern that does not compile matches nothing. The answer is given the
/// name `regex_matches`, a function of the two arguments alone; nothing more is stated.
#[verifier::external_body]
fn regex_is_match(pattern: &str, haystack: &str) -> (b: bool)
    ensures
        b == regex_matches(pattern@, haystack@),
{
    match regex::Regex::new(pattern) {
        Ok(re) => re.is_match(haystack),
        Err(_) => false,
    }
}

/// `chrono`: whether `StrftimeItems::new(format).parse()` succeeds, that is whether the
/// format holds no specifier that `chrono` rejects (formatting a date with such a
/// format fails). The answer is given the name `strftime_valid`; nothing more is stated.
#[verifier::external_body]
fn strftime_is_valid(format: &str) -> (b: bool)
    ensures
        b == strftime_valid(format@),
{
    chrono::format::StrftimeItems::new(format).parse().is_ok()
}

/// The settings of the renamer.
#[derive(Debug, Clone)]
pub struct Config {
    pub scan_depth: u32,
    pub proxy: Option<String>,
    pub rename_template: String,
    pub date_format: String,
    pub keep_brackets: bool,
    pub remove_illegal_chars: bool,
    pub save_cover: bool,
    pub tags: Vec<String>,
    pub replace: Vec<[String; 2]>,
    pub output_dir: Option<String>,
    pub cover_dir: Option<String>,
}

impl Default for Config {
    /// Depth 3, no proxy, template `[rjcode] [title]`, dates as `%Y-%m-%d`, brackets
    /// kept, illegal characters removed, covers saved, tags circle, cv and genre, no
    /// replacements, no output or cover directory.
    fn default() -> (r: Self)
        ensures
            is_default_config(r),
    {
        let mut tags: Vec<String> = Vec::new();
        tags.push("circle".to_string());
        tags.push("cv".to_string());
        tags.push("genre".to_string());
        assert(views(tags@) =~= seq!["circle"@, "cv"@, "genre"@]);
        Config {
            scan_depth: 3,
            proxy: None,
            rename_template: "[rjcode] [title]".to_string(),
            date_format: "%Y-%m-%d".to_string(),
            keep_brackets: true,
            remove_illegal_chars: true,
            save_cover: true,
            tags,
            replace: Vec::new(),
            output_dir: None,
            cover_dir: None,
        }
    }
}

/// `c` holds the default settings.
pub open spec fn is_default_config(c: Config) -> bool {
    &&& c.scan_depth == 3
    &&& c.proxy is None
    &&& c.rename_template@ == "[rjcode] [title]"@
    &&& c.date_format@ == "%Y-%m-%d"@
    &&& c.keep_brackets
    &&& c.remove_illegal_chars
    &&& c.save_cover
    &&& views(c.tags@) == seq!["circle"@, "cv"@, "genre"@]
    &&& c.replace@.len() == 0
    &&& c.output_dir is None
    &&& c.cover_dir is None
}

/// What the file system says of a configured directory.
#[derive(Debug, Clone, Copy, PartialEq, Eq)]
pub enum DirStatus {
    /// Nothing exists at the path.
    Missing,
    /// Something exists at the path, but not a directory.
    NotDir,
    /// A directory exists at the path.
    Dir,
}

/// The pattern a proxy address must match.
pub open spec fn proxy_pattern() -> Seq<char> {
    "^(http|https|socks5)?://?[\\w\\.-]+(:\\d+)?$"@
}

/// A character that Windows forbids in file names.
pub open spec fn is_illegal_name_char(c: char) -> bool {
    c == '<' || c == '>' || c == ':' || c == '"' || c == '/' || c == '\\' || c == '|' || c == '?'
        || c == '*'
}

/// `s` holds a character that Windows forbids in file names.
pub open spec fn has_illegal_name_char(s: Seq<char>) -> bool {
    exists|i: int| 0 <= i < s.len() && is_illegal_name_char(#[trigger] s[i])
}

/// A tag that the renamer supports.
pub open spec fn is_supported_tag(t: Seq<char>) -> bool {
    t == "circle"@ || t == "cv"@ || t == "genre"@
}

/// The message for a malformed proxy, if it is one.
pub open spec fn proxy_errors(proxy: Option<Seq<char>>) -> Seq<Seq<char>> {
    match proxy {
        Some(p) => if regex_matches(proxy_pattern(), p) {
            Seq::empty()
        } else {
            seq!["代理格式不合法: "@ + p]
        },
        None => Seq::empty(),
    }
}

/// The messages for a rename template without `[rjcode]` and for one with characters
/// that Windows forbids.
pub open spec fn template_errors(t: Seq<char>) -> Seq<Seq<char>> {
    (if contains_seq(t, "[rjcode]"@) {
        Seq::empty()
    } else {
        seq!["rename_template 必须包含 [rjcode]"@]
    }) + (if has_illegal_name_char(t) {
        seq!["rename_template 中包含 Windows 非法字符"@]
    } else {
        Seq::empty()
    })
}

/// The message for a date format that cannot be used.
pub open spec fn date_errors(f: Seq<char>) -> Seq<Seq<char>> {
    if strftime_valid(f) {
        Seq::empty()
    } else {
        seq!["date_format 无法解析: "@ + f]
    }
}

/// One message per unsupported tag, in order.
pub open spec fn tag_errors(tags: Seq<Seq<char>>) -> Seq<Seq<char>>
    decreases tags.len(),
{
    if tags.len() == 0 {
        Seq::empty()
    } else {
        tag_errors(tags.drop_last()) + (if is_supported_tag(tags.last()) {
            Seq::empty()
        } else {
            seq!["不支持的标签: "@ + tags.last()]
        })
    }
}

/// The message for a configured directory `path` of the setting `field` that is
/// missing or is no directory.
pub open spec fn dir_errors(field: Seq<char>, path: Option<Seq<char>>, status: DirStatus) -> Seq<
    Seq<char>,
> {
    match path {
        Some(p) => match status {
            DirStatus::Missing => seq![field + " 指定的路径不存在: "@ + p],
            DirStatus::NotDir => seq![field + " 不是合法目录: "@ + p],
            DirStatus::Dir => Seq::empty(),
        },
        None => Seq::empty(),
    }
}

/// All the messages for `c`, in the order of the checks.
pub open spec fn config_errors(c: Config, output_dir: DirStatus, cover_dir: DirStatus) -> Seq<
    Seq<char>,
> {
    proxy_errors(opt_view(c.proxy)) + template_errors(c.rename_template@) + date_errors(
        c.date_format@,
    ) + tag_errors(views(c.tags@)) + dir_errors("output_dir"@, opt_view(c.output_dir), output_dir)
        + dir_errors("cover_dir"@, opt_view(c.cover_dir), cover_dir)
}

/// The default settings raise no problem, but for the date format, whose acceptance
/// is for `chrono` to decide; whatever the file system says of the (unset) directories.
pub proof fn law_default_config_is_valid(c: Config, output_dir: DirStatus, cover_dir: DirStatus)
    requires
        is_default_config(c),
    ensures
        config_errors(c, output_dir, cover_dir) == date_errors("%Y-%m-%d"@),
{
    reveal_strlit("[rjcode] [title]");
    reveal_strlit("[rjcode]");
    reveal_strlit("circle");
    reveal_strlit("cv");
    reveal_strlit("genre");
    let t = c.rename_template@;
    assert(t.subrange(0, 8) =~= "[rjcode]"@);
    assert(crate::text::matches_at(t, "[rjcode]"@, 0));
    assert(!has_illegal_name_char(t)) by {
        assert forall|i: int| 0 <= i < t.len() implies !is_illegal_name_char(#[trigger] t[i]) by {
            assert(0 <= i < 16);
        }
    }
    let tags = views(c.tags@);
    assert(tags.drop_last().drop_last().drop_last() =~= Seq::<Seq<char>>::empty());
    assert(tag_errors(tags) =~= Seq::<Seq<char>>::empty()) by {
        let t1 = tags.drop_last().drop_last();
        let t2 = tags.drop_last();
        assert(t1 =~= seq!["circle"@]);
        assert(t2 =~= seq!["circle"@, "cv"@]);
        assert(tag_errors(t1.drop_last()) =~= Seq::<Seq<char>>::empty());
        assert(is_supported_tag(t1.last()));
        assert(tag_errors(t1) =~= Seq::<Seq<char>>::empty());
        assert(is_supported_tag(t2.last()));
        assert(tag_errors(t2) =~= Seq::<Seq<char>>::empty());
        assert(is_supported_tag(tags.last()));
    }
    assert(config_errors(c, output_dir, cover_dir) =~= date_errors("%Y-%m-%d"@));
}

/// Every message of `msgs` is non-empty and does not start with `r`, as the messages
/// on the rename template do.
spec fn none_start_with_r(msgs: Seq<Seq<char>>) -> bool {
    forall|i: int| 0 <= i < msgs.len() ==> (#[trigger] msgs[i]).len() > 0 && msgs[i][0] != 'r'
}

proof fn lemma_tag_errors_start(tags: Seq<Seq<char>>)
    ensures
        none_start_with_r(tag_errors(tags)),
    decreases tags.len(),
{
    reveal_strlit("不支持的标签: ");
    if tags.len() > 0 {
        lemma_tag_errors_start(tags.drop_last());
    }
}

proof fn lemma_other_errors_start(c: Config, output_dir: DirStatus, cover_dir: DirStatus)
    ensures
        none_start_with_r(
            date_errors(c.date_format@) + tag_errors(views(c.tags@)) + dir_errors(
                "output_dir"@,
                opt_view(c.output_dir),
                output_dir,
            ) + dir_errors("cover_dir"@, opt_view(c.cover_dir), cover_dir),
        ),
        none_start_with_r(proxy_errors(opt_view(c.proxy))),
{
    reveal_strlit("代理格式不合法: ");
    reveal_strlit("date_format 无法解析: ");
    reveal_strlit("output_dir");
    reveal_strlit("cover_dir");
    lemma_tag_errors_start(views(c.tags@));
    let d = date_errors(c.date_format@);
    let g = tag_errors(views(c.tags@));
    let o = dir_errors("output_dir"@, opt_view(c.output_dir), output_dir);
    let k = dir_errors("cover_dir"@, opt_view(c.cover_dir), cover_dir);
    assert(none_start_with_r(d));
    assert(none_start_with_r(o));
    assert(none_start_with_r(k));
    let all = d + g + o + k;
    assert forall|i: int| 0 <= i < all.len() implies (#[trigger] all[i]).len() > 0 && all[i][0]
        != 'r' by {
        if i < d.len() {
            assert(all[i] == d[i]);
        } else if i < d.len() + g.len() {
            assert(all[i] == g[i - d.len()]);
        } else if i < d.len() + g.len() + o.len() {
            assert(all[i] == o[i - d.len() - g.len()]);
        } else {
            assert(all[i] == k[i - d.len() - g.len() - o.len()]);
        }
    }
}

/// The messages on the rename template: the `[rjcode]` message is given exactly when
/// the template does not contain `[rjcode]`, wherever in it, and the message on
/// characters that Windows forbids exactly when the template holds one of
/// `< > : " / \ | ? *`; no other check gives either message.
pub proof fn law_template_messages(c: Config, output_dir: DirStatus, cover_dir: DirStatus)
    ensures
        config_errors(c, output_dir, cover_dir).contains("rename_template 必须包含 [rjcode]"@)
            <==> !contains_seq(c.rename_template@, "[rjcode]"@),
        config_errors(c, output_dir, cover_dir).contains("rename_template 中包含 Windows 非法字符"@)
            <==> (exists|k: int|
            0 <= k < c.rename_template@.len() && {
                let ch = #[trigger] c.rename_template@[k];
                ch == '<' || ch == '>' || ch == ':' || ch == '"' || ch == '/' || ch == '\\' || ch
                    == '|' || ch == '?' || ch == '*'
            }),
{
    let m = "rename_template 必须包含 [rjcode]"@;
    let w = "rename_template 中包含 Windows 非法字符"@;
    reveal_strlit("rename_template 必须包含 [rjcode]");
    reveal_strlit("rename_template 中包含 Windows 非法字符");
    assert(m[16] != w[16]);
    assert(m != w);
    lemma_other_errors_start(c, output_dir, cover_dir);
    let p = proxy_errors(opt_view(c.proxy));
    let t = template_errors(c.rename_template@);
    let rest = date_errors(c.date_format@) + tag_errors(views(c.tags@)) + dir_errors(
        "output_dir"@,
        opt_view(c.output_dir),
        output_dir,
    ) + dir_errors("cover_dir"@, opt_view(c.cover_dir), cover_dir);
    let errs = config_errors(c, output_dir, cover_dir);
    assert(errs =~= p + t + rest);
    assert forall|x: Seq<char>| x.len() > 0 && x[0] == 'r' implies (errs.contains(x)
        <==> t.contains(x)) by {
        if errs.contains(x) {
            let i = choose|i: int| 0 <= i < errs.len() && errs[i] == x;
            if i < p.len() {
                assert(errs[i] == p[i]);
            } else if i < p.len() + t.len() {
                assert(errs[i] == t[i - p.len()]);
            } else {
                assert(errs[i] == rest[i - p.len() - t.len()]);
            }
        }
        if t.contains(x) {
            let j = choose|j: int| 0 <= j < t.len() && t[j] == x;
            assert(errs[p.len() + j] == t[j]);
        }
    }
    assert(errs.contains(m) <==> t.contains(m));
    assert(errs.contains(w) <==> t.contains(w));
    if contains_seq(c.rename_template@, "[rjcode]"@) {
        if t.contains(m) {
            let j = choose|j: int| 0 <= j < t.len() && t[j] == m;
            assert(t[j] == w);
        }
    } else {
        assert(t[0] == m);
    }
    if has_illegal_name_char(c.rename_template@) {
        assert(t[t.len() - 1] == w);
    } else {
        if t.contains(w) {
            let j = choose|j: int| 0 <= j < t.len() && t[j] == w;
            assert(t[j] == m);
        }
    }
}

fn has_illegal_name_char_exec(s: &str) -> (b: bool)
    ensures
        b == has_illegal_name_char(s@),
{
    let v = chars_of(s);
    let n = v.len();
    let mut i: usize = 0;
    while i < n
        invariant
            i <= n == v.len(),
            v@ == s@,
            forall|j: int| 0 <= j < i ==> !is_illegal_name_char(#[trigger] v@[j]),
        decreases n - i,
    {
        let c = v[i];
        if c == '<' || c == '>' || c == ':' || c == '"' || c == '/' || c == '\\' || c == '|' || c
            == '?' || c == '*' {
            assert(is_illegal_name_char(s@[i as int]));
            return true;
        }
        i += 1;
    }
    false
}

fn is_supported_tag_exec(t: &str) -> (b: bool)
    ensures
        b == is_supported_tag(t@),
{
    str_eq(t, "circle") || str_eq(t, "cv") || str_eq(t, "genre")
}

fn push_dir_error(errors: &mut Vec<String>, field: &str, path: &Option<String>, status: DirStatus)
    ensures
        views(final(errors)@) == views(old(errors)@) + dir_errors(field@, opt_view(*path), status),
{
    let ghost before = views(errors@);
    if let Some(p) = path {
        match status {
            DirStatus::Missing => {
                let mut m = field.to_string();
                m.append(" 指定的路径不存在: ");
                m.append(p.as_str());
                errors.push(m);
            },
            DirStatus::NotDir => {
                let mut m = field.to_string();
                m.append(" 不是合法目录: ");
                m.append(p.as_str());
                errors.push(m);
            },
            DirStatus::Dir => {},
        }
    }
    assert(views(errors@) =~= before + dir_errors(field@, opt_view(*path), status));
}

impl Config {
    /// Checks the settings and gives back one message per problem, in this order: a
    /// proxy that is not a `http`, `https` or `socks5` address; a rename template
    /// without `[rjcode]`; a template holding a character that Windows forbids; a date
    /// format that `chrono` does not accept; each unsupported tag; an output or cover
    /// directory whose path (`output_dir`, `cover_dir`: what the file system says of
    /// it) is missing or no directory. A replacement always holds two strings, so it
    /// is never reported. The settings are valid when nothing is given back.
    pub fn verify(&self, output_dir: DirStatus, cover_dir: DirStatus) -> (r: Vec<String>)
        ensures
            views(r@) == config_errors(*self, output_dir, cover_dir),
    {
        let mut errors: Vec<String> = Vec::new();
        if let Some(proxy) = &self.proxy {
            if !regex_is_match("^(http|https|socks5)?://?[\\w\\.-]+(:\\d+)?$", proxy.as_str()) {
                let mut m = "代理格式不合法: ".to_string();
                m.append(proxy.as_str());
                errors.push(m);
            }
        }
        assert(views(errors@) =~= proxy_errors(opt_view(self.proxy)));
        let ghost e1 = views(errors@);
        if !contains_str(self.rename_template.as_str(), "[rjcode]") {
            errors.push("rename_template 必须包含 [rjcode]".to_string());
        }
        if has_illegal_name_char_exec(self.rename_template.as_str()) {
            errors.push("rename_template 中包含 Windows 非法字符".to_string());
        }
        assert(views(errors@) =~= e1 + template_errors(self.rename_template@));
        let ghost e2 = views(errors@);
        if !strftime_is_valid(self.date_format.as_str()) {
            let mut m = "date_format 无法解析: ".to_string();
            m.append(self.date_format.as_str());
            errors.push(m);
        }
        assert(views(errors@) =~= e2 + date_errors(self.date_format@));
        let ghost e3 = views(errors@);
        let n = self.tags.len();
        let mut i: usize = 0;
        while i < n
            invariant
                i <= n == self.tags.len(),
                views(errors@) == e3 + tag_errors(views(self.tags@).take(i as int)),
            decreases n - i,
        {
            let ghost before = views(errors@);
            let ghost t_prev = views(self.tags@).take(i as int);
            let ghost t_next = views(self.tags@).take(i + 1);
            assert(t_next.drop_last() =~= t_prev);
            assert(t_next.last() == self.tags@[i as int]@);
            if !is_supported_tag_exec(self.tags[i].as_str()) {
                let mut m = "不支持的标签: ".to_string();
                m.append(self.tags[i].as_str());
                errors.push(m);
                assert(views(errors@) =~= before.push("不支持的标签: "@ + self.tags@[i as int]@));
                assert(tag_errors(t_next) == tag_errors(t_prev) + seq![
                    "不支持的标签: "@ + self.tags@[i as int]@,
                ]);
            } else {
                assert(tag_errors(t_next) == tag_errors(t_prev) + Seq::<Seq<char>>::empty());
            }
            assert(views(errors@) =~= e3 + tag_errors(t_next));
            i += 1;
        }
        assert(views(self.tags@).take(n as int) =~= views(self.tags@));
        let ghost e4 = views(errors@);
        let m = self.replace.len();
        let mut k: usize = 0;
        while k < m
            invariant
                k <= m == self.replace.len(),
                views(errors@) == e4,
            decreases m - k,
        {
            let pair_len = self.replace[k].as_slice().len();
            if pair_len != 2 {
                let mut msg = "第 ".to_string();
                push_decimal(&mut msg, k as u64);
                msg.append(" 项 replace 格式错误，必须为两个字符串");
                errors.push(msg);
            }
            k += 1;
        }
        push_dir_error(&mut errors, "output_dir", &self.output_dir, output_dir);
        push_dir_error(&mut errors, "cover_dir", &self.cover_dir, cover_dir);
        errors
    }
}

} // verus!
