//! Renaming a work's folder: the name it gets, and the order of the steps (fetch the
//! metadata, rename when the name differs, fetch the cover when asked to).
use vstd::prelude::*;
use vstd::string::StringExecFns;

use crate::dlsite_scraper::ScraperError;
use crate::text::{chars_of, push_char};
use crate::work_metadata::{opt_view, WorkMetadata};

verus! {

broadcast use vstd::string::group_string_axioms;

/// `c` with the characters that paths cannot hold replaced by their full-width forms.
pub open spec fn path_safe_char(c: char) -> char {
    if c == '/' {
        '／'
    } else if c == '\\' {
        '＼'
    } else if c == ':' {
        '：'
    } else {
        c
    }
}

/// `s` with `/`, `\` and `:` replaced by `／`, `＼` and `：`.
pub open spec fn path_safe(s: Seq<char>) -> Seq<char> {
    s.map_values(|c: char| path_safe_char(c))
}

/// The circle's name, or "Unknown".
pub open spec fn circle_or_unknown(circle: Option<Seq<char>>) -> Seq<char> {
    match circle {
        Some(c) => c,
        None => "Unknown"@,
    }
}

/// The folder name for a work: `{rjcode} [{circle}] {title}`, made safe for paths.
pub open spec fn folder_name(rjcode: Seq<char>, circle: Option<Seq<char>>, title: Seq<char>) -> Seq<
    char,
> {
    path_safe(rjcode + " ["@ + circle_or_unknown(circle) + "] "@ + title)
}

/// A character that a path component cannot hold here.
pub open spec fn is_path_separator_like(c: char) -> bool {
    c == '/' || c == '\\' || c == ':'
}

/// Where renaming a folder stands.
#[derive(Debug)]
pub enum RenameState {
    /// Nothing has been done.
    Start,
    /// The metadata has been asked for.
    AwaitingMetadata,
    /// The new name is known; it is being compared with the folder's path.
    AwaitingTargetCheck(String),
    /// The folder is being renamed.
    AwaitingRename,
    /// The cover is being downloaded.
    AwaitingCover,
    /// Renaming is over.
    Finished,
}

/// What happened since the last step.
#[derive(Debug)]
pub enum RenameEvent {
    /// Renaming starts.
    Begin,
    /// The metadata has been fetched, or could not be.
    MetadataFetched(Result<WorkMetadata, ScraperError>),
    /// The path of the folder under the new name was compared with its present path.
    TargetChecked { differs: bool },
    /// The folder was renamed, or renaming failed with the given message.
    Renamed(Result<(), String>),
    /// The cover download is over (whatever came of it).
    CoverDone,
}

/// What to do next.
#[derive(Debug)]
pub enum RenameAction {
    /// Fetch the work's metadata.
    FetchMetadata,
    /// Compare the folder's path with the path under this name.
    CheckTarget(String),
    /// Rename the folder to this name.
    RenameTo(String),
    /// Download the cover into the folder.
    DownloadCover,
    /// Stop without renaming: the metadata could not be fetched (this is no failure).
    Abandon(ScraperError),
    /// Stop with this outcome.
    Finish(Result<(), String>),
    /// The event does not fit the state; nothing to do.
    Wait,
}

/// The renamer of work folders.
pub struct Renamer<S> {
    pub scraper: S,
    pub save_cover: bool,
}

/// The step after the folder has its name: download the cover when asked to, else stop.
pub open spec fn after_naming(save_cover: bool, s: RenameState, a: RenameAction) -> bool {
    if save_cover {
        s is AwaitingCover && a is DownloadCover
    } else {
        s is Finished && a == RenameAction::Finish(Ok(()))
    }
}

/// One step of renaming: from `state` and `event`, the next state `s` and action `a`.
pub open spec fn rename_step_spec(
    save_cover: bool,
    state: RenameState,
    event: RenameEvent,
    s: RenameState,
    a: RenameAction,
) -> bool {
    match (state, event) {
        (RenameState::Start, RenameEvent::Begin) => s is AwaitingMetadata && a is FetchMetadata,
        (RenameState::AwaitingMetadata, RenameEvent::MetadataFetched(r)) => match r {
            Ok(meta) => {
                let name = folder_name(meta.rjcode@, opt_view(meta.circle), meta.title@);
                &&& s matches RenameState::AwaitingTargetCheck(n) && n@ == name
                &&& a matches RenameAction::CheckTarget(n) && n@ == name
            },
            Err(e) => s is Finished && a == RenameAction::Abandon(e),
        },
        (RenameState::AwaitingTargetCheck(name), RenameEvent::TargetChecked { differs }) => {
            if differs {
                s is AwaitingRename && a == RenameAction::RenameTo(name)
            } else {
                after_naming(save_cover, s, a)
            }
        },
        (RenameState::AwaitingRename, RenameEvent::Renamed(r)) => match r {
            Ok(_) => after_naming(save_cover, s, a),
            Err(m) => s is Finished && a == RenameAction::Finish(Err(m)),
        },
        (RenameState::AwaitingCover, RenameEvent::CoverDone) => s is Finished && a
            == RenameAction::Finish(Ok(())),
        (state, _) => s == state && a is Wait,
    }
}

impl<S> Renamer<S> {
    /// A renamer that uses `scraper`, and saves covers when `save_cover` holds.
    pub fn new(scraper: S, save_cover: bool) -> (r: Self)
        ensures
            r.scraper == scraper,
            r.save_cover == save_cover,
    {
        Renamer { scraper, save_cover }
    }

    /// The folder name for `info`: `{rjcode} [{circle}] {title}` with "Unknown" for a
    /// missing circle, and `/`, `\`, `:` replaced by `／`, `＼`, `：`.
    pub fn generate_name(&self, info: &WorkMetadata) -> (r: String)
        ensures
            r@ == folder_name(info.rjcode@, opt_view(info.circle), info.title@),
    {
        let mut raw = info.rjcode.as_str().to_string();
        raw.append(" [");
        match &info.circle {
            Some(c) => raw.append(c.as_str()),
            None => raw.append("Unknown"),
        }
        raw.append("] ");
        raw.append(info.title.as_str());
        let ghost whole = info.rjcode@ + " ["@ + circle_or_unknown(opt_view(info.circle)) + "] "@
            + info.title@;
        assert(raw@ == whole);
        let v = chars_of(raw.as_str());
        let mut r = String::new();
        let n = v.len();
        let mut i: usize = 0;
        while i < n
            invariant
                i <= n == v.len(),
                v@ == whole,
                r@ == path_safe(whole.take(i as int)),
            decreases n - i,
        {
            let c = v[i];
            let d = if c == '/' {
                '／'
            } else if c == '\\' {
                '＼'
            } else if c == ':' {
                '：'
            } else {
                c
            };
            push_char(&mut r, d);
            assert(path_safe(whole.take(i + 1)) =~= path_safe(whole.take(i as int)).push(d));
            i += 1;
        }
        assert(whole.take(n as int) =~= whole);
        r
    }

    /// One step of renaming a folder: what comes after `state` once `event` happened.
    pub fn rename_step(&self, state: RenameState, event: RenameEvent) -> (r: (
        RenameState,
        RenameAction,
    ))
        ensures
            rename_step_spec(self.save_cover, state, event, r.0, r.1),
    {
        match (state, event) {
            (RenameState::Start, RenameEvent::Begin) => (
                RenameState::AwaitingMetadata,
                RenameAction::FetchMetadata,
            ),
            (RenameState::AwaitingMetadata, RenameEvent::MetadataFetched(r)) => match r {
                Ok(meta) => {
                    let name = self.generate_name(&meta);
                    let shown = name.clone();
                    (RenameState::AwaitingTargetCheck(name), RenameAction::CheckTarget(shown))
                },
                Err(e) => (RenameState::Finished, RenameAction::Abandon(e)),
            },
            (RenameState::AwaitingTargetCheck(name), RenameEvent::TargetChecked { differs }) => {
                if differs {
                    (RenameState::AwaitingRename, RenameAction::RenameTo(name))
                } else {
                    self.after_naming()
                }
            },
            (RenameState::AwaitingRename, RenameEvent::Renamed(r)) => match r {
                Ok(_) => self.after_naming(),
                Err(m) => (RenameState::Finished, RenameAction::Finish(Err(m))),
            },
            (RenameState::AwaitingCover, RenameEvent::CoverDone) => (
                RenameState::Finished,
                RenameAction::Finish(Ok(())),
            ),
            (state, _) => (state, RenameAction::Wait),
        }
    }

    /// The step once the folder has its name.
    fn after_naming(&self) -> (r: (RenameState, RenameAction))
        ensures
            after_naming(self.save_cover, r.0, r.1),
    {
        if self.save_cover {
            (RenameState::AwaitingCover, RenameAction::DownloadCover)
        } else {
            (RenameState::Finished, RenameAction::Finish(Ok(())))
        }
    }
}

/// A generated folder name holds no `/`, `\` or `:`: every such character of the
/// metadata has been replaced.
pub proof fn law_folder_name_is_path_safe(
    rjcode: Seq<char>,
    circle: Option<Seq<char>>,
    title: Seq<char>,
)
    ensures
        forall|i: int|
            0 <= i < folder_name(rjcode, circle, title).len() ==> !is_path_separator_like(
                #[trigger] folder_name(rjcode, circle, title)[i],
            ),
        folder_name(rjcode, circle, title).len() == rjcode.len() + 2 + circle_or_unknown(
            circle,
        ).len() + 2 + title.len(),
{
    reveal_strlit(" [");
    reveal_strlit("] ");
}

/// The folder is renamed only after its metadata was fetched and its path under the
/// new name was found to differ, and then only to the name made from that metadata.
pub proof fn law_rename_only_to_a_differing_target(
    save_cover: bool,
    state: RenameState,
    event: RenameEvent,
    s: RenameState,
    name: String,
)
    requires
        rename_step_spec(save_cover, state, event, s, RenameAction::RenameTo(name)),
    ensures
        state matches RenameState::AwaitingTargetCheck(n) && n == name,
        event == (RenameEvent::TargetChecked { differs: true }),
{
}

/// A metadata fetch that fails ends renaming without touching the folder, and is no
/// failure of the rename.
pub proof fn law_failed_fetch_abandons(
    save_cover: bool,
    e: ScraperError,
    s: RenameState,
    a: RenameAction,
)
    requires
        rename_step_spec(
            save_cover,
            RenameState::AwaitingMetadata,
            RenameEvent::MetadataFetched(Err(e)),
            s,
            a,
        ),
    ensures
        s is Finished,
        a == RenameAction::Abandon(e),
{
}

/// The cover is downloaded only when the renamer saves covers, and only once the
/// folder has its name (kept or given).
pub proof fn law_cover_only_when_saving(
    save_cover: bool,
    state: RenameState,
    event: RenameEvent,
    s: RenameState,
)
    requires
        rename_step_spec(save_cover, state, event, s, RenameAction::DownloadCover),
    ensures
        save_cover,
        (state is AwaitingTargetCheck && (event matches RenameEvent::TargetChecked { differs }
            && !differs)) || (state is AwaitingRename && (event matches RenameEvent::Renamed(Ok(_)))),
{
}

/// A generated folder name is `{rjcode} [{circle}] {title}`, with "Unknown" for a
/// missing circle, character for character: `/`, `\` and `:` become `／`, `＼` and `：`,
/// and every other character is kept as it is.
pub proof fn law_folder_name_keeps_all_but_separators(
    rjcode: Seq<char>,
    circle: Option<Seq<char>>,
    title: Seq<char>,
)
    ensures
        ({
            let raw = rjcode + " ["@ + (match circle {
                Some(c) => c,
                None => "Unknown"@,
            }) + "] "@ + title;
            let name = folder_name(rjcode, circle, title);
            &&& name.len() == raw.len()
            &&& forall|k: int|
                0 <= k < raw.len() ==> #[trigger] name[k] == (if raw[k] == '/' {
                    '／'
                } else if raw[k] == '\\' {
                    '＼'
                } else if raw[k] == ':' {
                    '：'
                } else {
                    raw[k]
                })
        }),
{
}

/// Once the target check finds that the folder already has its new name, renaming
/// goes on exactly as after a successful rename: a renamer that saves covers downloads
/// the cover, one that does not stops with success.
pub proof fn law_current_name_goes_on_as_after_rename(
    save_cover: bool,
    name: String,
    s1: RenameState,
    a1: RenameAction,
    s2: RenameState,
    a2: RenameAction,
)
    requires
        rename_step_spec(
            save_cover,
            RenameState::AwaitingTargetCheck(name),
            RenameEvent::TargetChecked { differs: false },
            s1,
            a1,
        ),
        rename_step_spec(
            save_cover,
            RenameState::AwaitingRename,
            RenameEvent::Renamed(Ok(())),
            s2,
            a2,
        ),
    ensures
        save_cover ==> s1 is AwaitingCover && a1 is DownloadCover,
        !save_cover ==> s1 is Finished && a1 == RenameAction::Finish(Ok(())),
        save_cover ==> s2 is AwaitingCover && a2 is DownloadCover,
        !save_cover ==> s2 is Finished && a2 == RenameAction::Finish(Ok(())),
{
}

} // verus!
