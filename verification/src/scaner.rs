//! Finding the RJ codes of work folders from their names.
use vstd::prelude::*;

use crate::text::{contains_seq, starts_with_seq, starts_with_str};
use crate::renamer::{circle_or_unknown, folder_name};
use crate::work_metadata::opt_view;

verus! {

broadcast use vstd::string::group_string_axioms;

/// The text of the leftmost-first match of the regular expression `pattern` in
/// `haystack`, as `regex::Regex::find` gives it (`None` for a pattern that
/// `Regex::new` refuses).
pub uninterp spec fn regex_first_match(pattern: Seq<char>, haystack: Seq<char>) -> Option<
    Seq<char>,
>;

/// Whether `c`, a character beyond ASCII, is a Unicode decimal digit (general category
/// `Nd`), which `\d` matches in `regex`.
pub uninterp spec fn is_non_ascii_decimal_digit(c: char) -> bool;

/// A character that `\d` matches: among ASCII characters exactly `0` to `9`.
pub open spec fn is_decimal_digit(c: char) -> bool {
    if (c as u32) < 128 {
        '0' <= c && c <= '9'
    } else {
        is_non_ascii_decimal_digit(c)
    }
}

/// An RJ code can start at `i` in `h`: `RJ` followed by six decimal digits.
pub open spec fn code_starts_at(h: Seq<char>, i: int) -> bool {
    &&& 0 <= i
    &&& i + 8 <= h.len()
    &&& h[i] == 'R'
    &&& h[i + 1] == 'J'
    &&& forall|k: int| i + 2 <= k < i + 8 ==> is_decimal_digit(#[trigger] h[k])
}

/// `i` is the first place in `h` where an RJ code can start.
pub open spec fn is_first_code_start(h: Seq<char>, i: int) -> bool {
    &&& code_starts_at(h, i)
    &&& forall|j: int| 0 <= j < i ==> !code_starts_at(h, j)
}

/// The digits after the `RJ` at `i` run up to `e`.
pub open spec fn is_digit_run_end(h: Seq<char>, i: int, e: int) -> bool {
    &&& i + 8 <= e <= h.len()
    &&& forall|k: int| i + 2 <= k < e ==> is_decimal_digit(#[trigger] h[k])
    &&& (e == h.len() || !is_decimal_digit(h[e]))
}

/// The first match of `RJ\d{6,}` in `h`: at the first place where `RJ` and six digits
/// stand, `RJ` with all the digits that follow.
pub open spec fn rjcode_in(h: Seq<char>) -> Option<Seq<char>> {
    if exists|j: int| code_starts_at(h, j) {
        let i = choose|i: int| is_first_code_start(h, i);
        let e = choose|e: int| is_digit_run_end(h, i, e);
        Some(h.subrange(i, e))
    } else {
        None
    }
}

/// `regex`: compiles `pattern` with `Regex::new` and gives back the text of the match
/// `Regex::find` reports in `haystack` (`Match::as_str`); a pattern that does not
/// compile matches nothing. The result is given the name `regex_first_match`, a
/// function of the two arguments alone. What the crate's documentation gives is stated
/// besides: the matched text is a substring of the haystack, and for the pattern
/// `RJ\d{6,}` the match is the leftmost one, with `\d` a Unicode decimal digit and
/// `{6,}` taking all the digits that follow (`rjcode_in`).
#[verifier::external_body]
fn regex_find(pattern: &str, haystack: &str) -> (r: Option<String>)
    ensures
        opt_view(r) == regex_first_match(pattern@, haystack@),
        r matches Some(m) ==> contains_seq(haystack@, m@),
        pattern@ == rjcode_pattern() ==> opt_view(r) == rjcode_in(haystack@),
        pattern@ == rjcode_pattern() && r is Some ==> forall|k: int|
            2 <= k < r->Some_0@.len() ==> ('0' <= #[trigger] r->Some_0@[k] && r->Some_0@[k]
                <= '9') || is_non_ascii_decimal_digit(r->Some_0@[k]),
{
    match regex::Regex::new(pattern) {
        Ok(re) => re.find(haystack).map(|m| m.as_str().to_string()),
        Err(_) => None,
    }
}

/// The pattern of an RJ code: `RJ` and at least six digits.
pub open spec fn rjcode_pattern() -> Seq<char> {
    "RJ\\d{6,}"@
}

/// The entries whose names hold an RJ code, each with its name replaced by the code,
/// in order.
pub open spec fn matched_entries<T>(entries: Seq<(String, T)>) -> Seq<(Seq<char>, T)>
    decreases entries.len(),
{
    if entries.len() == 0 {
        Seq::empty()
    } else {
        matched_entries(entries.drop_last()) + match regex_first_match(
            rjcode_pattern(),
            entries.last().0@,
        ) {
            Some(code) => seq![(code, entries.last().1)],
            None => Seq::empty(),
        }
    }
}

/// The views of a list of (code, payload) pairs.
pub open spec fn code_views<T>(v: Seq<(String, T)>) -> Seq<(Seq<char>, T)> {
    v.map_values(|p: (String, T)| (p.0@, p.1))
}

/// The scanner of work folders, looking `depth` levels deep.
pub struct ScanerImpl {
    depth: usize,
}

impl ScanerImpl {
    /// The number of directory levels this scanner looks into.
    pub closed spec fn spec_depth(&self) -> usize {
        self.depth
    }

    /// A scanner that looks `depth` levels deep.
    pub fn new(depth: usize) -> (r: Self)
        ensures
            r.spec_depth() == depth,
    {
        ScanerImpl { depth }
    }

    /// The number of directory levels this scanner looks into.
    pub fn depth(&self) -> (r: usize)
        ensures
            r == self.spec_depth(),
    {
        self.depth
    }

    /// The RJ code in a folder name: the first match of `RJ\d{6,}`.
    pub fn rjcode_in_name(&self, name: &str) -> (r: Option<String>)
        ensures
            opt_view(r) == regex_first_match(rjcode_pattern(), name@),
            opt_view(r) == rjcode_in(name@),
            r matches Some(code) ==> contains_seq(name@, code@),
    {
        regex_find("RJ\\d{6,}", name)
    }

    /// Of the folders found (name, payload), those whose names hold an RJ code, each
    /// with the code in place of the name, in the order found.
    pub fn collect_matches<T>(&self, entries: Vec<(String, T)>) -> (r: Vec<(String, T)>)
        ensures
            code_views(r@) == matched_entries(entries@),
            forall|i: int|
                0 <= i < entries@.len() ==> regex_first_match(rjcode_pattern(), #[trigger] entries@[i].0@)
                    == rjcode_in(entries@[i].0@),
    {
        let ghost all = entries@;
        let mut r: Vec<(String, T)> = Vec::new();
        for e in it: entries
            invariant
                it.seq() == all,
                code_views(r@) == matched_entries(all.take(it.index() as int)),
                forall|i: int|
                    0 <= i < it.index() ==> regex_first_match(rjcode_pattern(), #[trigger] all[i].0@)
                        == rjcode_in(all[i].0@),
        {
            let ghost k = it.index();
            let ghost prev = all.take(k as int);
            assert(all.take(k + 1).drop_last() =~= prev);
            assert(all.take(k + 1).last() == e);
            let (name, payload) = e;
            let ghost before = code_views(r@);
            match self.rjcode_in_name(name.as_str()) {
                Some(code) => {
                    r.push((code, payload));
                    assert(code_views(r@) =~= before.push((code@, payload)));
                },
                None => {},
            }
            assert(code_views(r@) =~= matched_entries(all.take(k + 1)));
            assert(regex_first_match(rjcode_pattern(), all[k as int].0@) == rjcode_in(all[k as int].0@));
        }
        assert(all.take(all.len() as int) =~= all);
        r
    }
}

/// `code` is an RJ code and nothing more: `RJ` followed by at least six decimal digits.
pub open spec fn is_full_rjcode(code: Seq<char>) -> bool {
    &&& code.len() >= 8
    &&& code[0] == 'R'
    &&& code[1] == 'J'
    &&& forall|k: int| 2 <= k < code.len() ==> is_decimal_digit(#[trigger] code[k])
}

/// A folder renamed after a work whose code is an RJ code is found again under that
/// code: the first RJ code in the generated name is the work's code.
pub proof fn law_generated_name_rescans_to_its_code(
    code: Seq<char>,
    circle: Option<Seq<char>>,
    title: Seq<char>,
)
    requires
        is_full_rjcode(code),
    ensures
        rjcode_in(folder_name(code, circle, title)) == Some(code),
{
    reveal_strlit(" [");
    let raw = code + " ["@ + circle_or_unknown(circle) + "] "@ + title;
    let n = folder_name(code, circle, title);
    let len = code.len() as int;
    assert(n.len() == raw.len());
    assert forall|k: int| 0 <= k < len implies n[k] == code[k] by {
        assert(raw[k] == code[k]);
        if k >= 2 {
            assert(is_decimal_digit(code[k]));
        }
    }
    assert(raw[len] == ' ');
    assert(n[len] == ' ');
    assert(!is_decimal_digit(n[len]));
    assert(code_starts_at(n, 0)) by {
        assert forall|k: int| 2 <= k < 8 implies is_decimal_digit(#[trigger] n[k]) by {
            assert(n[k] == code[k]);
        }
    }
    assert(is_first_code_start(n, 0));
    assert(is_digit_run_end(n, 0, len)) by {
        assert forall|k: int| 2 <= k < len implies is_decimal_digit(#[trigger] n[k]) by {
            assert(n[k] == code[k]);
        }
    }
    let i = choose|i: int| is_first_code_start(n, i);
    assert(i == 0) by {
        if i > 0 {
            assert(!code_starts_at(n, 0));
        }
    }
    let e = choose|e: int| is_digit_run_end(n, 0, e);
    assert(e == len) by {
        if e < len {
            assert(is_decimal_digit(n[e])) by {
                assert(n[e] == code[e]);
            }
        } else if e > len {
            assert(is_decimal_digit(n[len]));
        }
    }
    assert(n.subrange(0, len) =~= code);
}

/// The RJ code of a chosen folder whose own name starts with `RJ`: the whole name.
/// Other folders are scanned instead.
pub fn folder_rjcode(folder_name: &str) -> (r: Option<String>)
    ensures
        match r {
            Some(code) => starts_with_seq(folder_name@, "RJ"@) && code@ == folder_name@,
            None => !starts_with_seq(folder_name@, "RJ"@),
        },
{
    if starts_with_str(folder_name, "RJ") {
        Some(folder_name.to_string())
    } else {
        None
    }
}

/// A name that is an RJ code and nothing more is its own code.
pub proof fn law_full_code_is_its_own_match(code: Seq<char>)
    requires
        is_full_rjcode(code),
    ensures
        rjcode_in(code) == Some(code),
{
    let len = code.len() as int;
    assert(code_starts_at(code, 0));
    assert(is_first_code_start(code, 0));
    assert(is_digit_run_end(code, 0, len));
    let i = choose|i: int| is_first_code_start(code, i);
    assert(i == 0) by {
        if i > 0 {
            assert(!code_starts_at(code, 0));
        }
    }
    let e = choose|e: int| is_digit_run_end(code, 0, e);
    assert(e == len) by {
        if e < len {
            assert(is_decimal_digit(code[e]));
        }
    }
    assert(code.subrange(0, len) =~= code);
}

/// Every entry whose name holds an RJ code is kept, with that code in place of its name
/// and with its payload, in the order found, whatever else the name holds: where every
/// name holds one, the scan gives one element per entry.
pub proof fn law_matching_entries_are_all_kept<T>(entries: Seq<(String, T)>)
    requires
        forall|i: int|
            0 <= i < entries.len() ==> (#[trigger] regex_first_match(
                rjcode_pattern(),
                entries[i].0@,
            )) is Some,
    ensures
        matched_entries(entries).len() == entries.len(),
        forall|i: int|
            0 <= i < entries.len() ==> #[trigger] matched_entries(entries)[i] == (
                regex_first_match(rjcode_pattern(), entries[i].0@)->Some_0,
                entries[i].1,
            ),
    decreases entries.len(),
{
    if entries.len() > 0 {
        let init = entries.drop_last();
        assert forall|i: int| 0 <= i < init.len() implies (#[trigger] regex_first_match(
            rjcode_pattern(),
            init[i].0@,
        )) is Some by {
            assert(init[i] == entries[i]);
        }
        law_matching_entries_are_all_kept(init);
        let last = entries.len() - 1;
        assert(regex_first_match(rjcode_pattern(), entries[last].0@) is Some);
        assert forall|i: int| 0 <= i < entries.len() implies #[trigger] matched_entries(entries)[i]
            == (regex_first_match(rjcode_pattern(), entries[i].0@)->Some_0, entries[i].1) by {
            if i < last {
                assert(init[i] == entries[i]);
                assert(matched_entries(init)[i] == (
                    regex_first_match(rjcode_pattern(), init[i].0@)->Some_0,
                    init[i].1,
                ));
            }
        }
    }
}

/// The scan of two runs of entries, one after the other, is the scan of the first
/// followed by that of the second; an entry whose name holds no RJ code adds nothing.
pub proof fn law_scan_of_concatenation<T>(a: Seq<(String, T)>, b: Seq<(String, T)>, e: (String, T))
    ensures
        matched_entries(a + b) == matched_entries(a) + matched_entries(b),
        regex_first_match(rjcode_pattern(), e.0@) is None ==> matched_entries(a.push(e))
            == matched_entries(a),
    decreases b.len(),
{
    if b.len() == 0 {
        assert(a + b =~= a);
        assert(matched_entries(b) =~= Seq::<(Seq<char>, T)>::empty());
        assert(matched_entries(a) + matched_entries(b) =~= matched_entries(a));
    } else {
        law_scan_of_concatenation(a, b.drop_last(), e);
        assert((a + b).drop_last() =~= a + b.drop_last());
        assert((a + b).last() == b.last());
        assert(matched_entries(a + b) =~= matched_entries(a) + matched_entries(b));
    }
    assert(a.push(e).drop_last() =~= a);
    assert(matched_entries(a.push(e)) =~= matched_entries(a) + match regex_first_match(
        rjcode_pattern(),
        e.0@,
    ) {
        Some(code) => seq![(code, e.1)],
        None => Seq::empty(),
    });
}

} // verus!
