use dlsite_rust_renamer::config::{Config, DirStatus};
use dlsite_rust_renamer::dlsite_scraper::ScraperError;
use dlsite_rust_renamer::renamer::{RenameAction, RenameEvent, RenameState, Renamer};
use dlsite_rust_renamer::scaner::{folder_rjcode, ScanerImpl};
use dlsite_rust_renamer::work_metadata::WorkMetadata;

#[test]
fn default_config_values() {
    let c = Config::default();
    assert_eq!(c.scan_depth, 3);
    assert!(c.proxy.is_none());
    assert_eq!(c.rename_template, "[rjcode] [title]");
    assert_eq!(c.date_format, "%Y-%m-%d");
    assert!(c.keep_brackets && c.remove_illegal_chars && c.save_cover);
    assert_eq!(c.tags, vec!["circle".to_string(), "cv".to_string(), "genre".to_string()]);
    assert!(c.replace.is_empty());
    assert!(c.output_dir.is_none() && c.cover_dir.is_none());
}

#[test]
fn default_config_verifies() {
    let c = Config::default();
    assert!(c.verify(DirStatus::Missing, DirStatus::Missing).is_empty());
}

#[test]
fn proxy_must_be_an_address() {
    let mut c = Config::default();
    c.proxy = Some("http://127.0.0.1:7890".to_string());
    assert!(c.verify(DirStatus::Dir, DirStatus::Dir).is_empty());
    c.proxy = Some("socks5://proxy.local".to_string());
    assert!(c.verify(DirStatus::Dir, DirStatus::Dir).is_empty());
    c.proxy = Some("ftp://x y".to_string());
    assert_eq!(
        c.verify(DirStatus::Dir, DirStatus::Dir),
        vec!["代理格式不合法: ftp://x y".to_string()]
    );
}

#[test]
fn template_rules() {
    let mut c = Config::default();
    c.rename_template = "[title]".to_string();
    assert_eq!(
        c.verify(DirStatus::Dir, DirStatus::Dir),
        vec!["rename_template 必须包含 [rjcode]".to_string()]
    );
    c.rename_template = "[rjcode]: [title]?".to_string();
    assert_eq!(
        c.verify(DirStatus::Dir, DirStatus::Dir),
        vec!["rename_template 中包含 Windows 非法字符".to_string()]
    );
    c.rename_template = "a/b".to_string();
    assert_eq!(
        c.verify(DirStatus::Dir, DirStatus::Dir),
        vec![
            "rename_template 必须包含 [rjcode]".to_string(),
            "rename_template 中包含 Windows 非法字符".to_string()
        ]
    );
}

#[test]
fn date_format_must_be_accepted() {
    let mut c = Config::default();
    c.date_format = "%Y年%m月%d日".to_string();
    assert!(c.verify(DirStatus::Dir, DirStatus::Dir).is_empty());
    c.date_format = "%Y-%".to_string();
    assert_eq!(
        c.verify(DirStatus::Dir, DirStatus::Dir),
        vec!["date_format 无法解析: %Y-%".to_string()]
    );
}

#[test]
fn unsupported_tags_are_listed_in_order() {
    let mut c = Config::default();
    c.tags = vec!["cv".to_string(), "series".to_string(), "circle".to_string(), "x".to_string()];
    assert_eq!(
        c.verify(DirStatus::Dir, DirStatus::Dir),
        vec!["不支持的标签: series".to_string(), "不支持的标签: x".to_string()]
    );
}

#[test]
fn replacements_are_never_reported() {
    let mut c = Config::default();
    c.replace = vec![["a".to_string(), "b".to_string()], ["".to_string(), "".to_string()]];
    assert!(c.verify(DirStatus::Dir, DirStatus::Dir).is_empty());
}

#[test]
fn directories_must_exist() {
    let mut c = Config::default();
    c.output_dir = Some("/no/such".to_string());
    c.cover_dir = Some("/etc/hosts".to_string());
    assert_eq!(
        c.verify(DirStatus::Missing, DirStatus::NotDir),
        vec![
            "output_dir 指定的路径不存在: /no/such".to_string(),
            "cover_dir 不是合法目录: /etc/hosts".to_string()
        ]
    );
    assert!(c.verify(DirStatus::Dir, DirStatus::Dir).is_empty());
}

fn meta(code: &str, circle: Option<&str>, title: &str) -> WorkMetadata {
    let mut m = WorkMetadata::new(code);
    m.circle = circle.map(|c| c.to_string());
    m.title = title.to_string();
    m
}

#[test]
fn generated_name_format() {
    let r = Renamer::new((), false);
    assert_eq!(
        r.generate_name(&meta("RJ123456", Some("サークル"), "作品")),
        "RJ123456 [サークル] 作品"
    );
    assert_eq!(r.generate_name(&meta("RJ1", None, "t")), "RJ1 [Unknown] t");
}

#[test]
fn generated_name_is_path_safe() {
    let r = Renamer::new((), true);
    let name = r.generate_name(&meta("RJ1", Some("a/b"), "x:y\\z"));
    assert_eq!(name, "RJ1 [a／b] x：y＼z");
    assert!(!name.contains('/') && !name.contains('\\') && !name.contains(':'));
}

#[test]
fn rename_runs_fetch_check_rename_cover() {
    let r = Renamer::new((), true);
    let (s, a) = r.rename_step(RenameState::Start, RenameEvent::Begin);
    assert!(matches!(a, RenameAction::FetchMetadata));
    let (s, a) = r.rename_step(s, RenameEvent::MetadataFetched(Ok(meta("RJ1", Some("c"), "t"))));
    assert!(matches!(a, RenameAction::CheckTarget(ref n) if n == "RJ1 [c] t"));
    let (s, a) = r.rename_step(s, RenameEvent::TargetChecked { differs: true });
    assert!(matches!(a, RenameAction::RenameTo(ref n) if n == "RJ1 [c] t"));
    let (s, a) = r.rename_step(s, RenameEvent::Renamed(Ok(())));
    assert!(matches!(a, RenameAction::DownloadCover));
    let (s, a) = r.rename_step(s, RenameEvent::CoverDone);
    assert!(matches!(s, RenameState::Finished));
    assert!(matches!(a, RenameAction::Finish(Ok(()))));
}

#[test]
fn rename_skips_when_name_is_current_and_cover_off() {
    let r = Renamer::new((), false);
    let (s, _) = r.rename_step(RenameState::AwaitingMetadata, RenameEvent::MetadataFetched(Ok(meta("RJ1", None, "t"))));
    let (s, a) = r.rename_step(s, RenameEvent::TargetChecked { differs: false });
    assert!(matches!(s, RenameState::Finished));
    assert!(matches!(a, RenameAction::Finish(Ok(()))));
}

#[test]
fn rename_failures() {
    let r = Renamer::new((), true);
    let (s, a) = r.rename_step(
        RenameState::AwaitingMetadata,
        RenameEvent::MetadataFetched(Err(ScraperError::NotFound)),
    );
    assert!(matches!(s, RenameState::Finished));
    assert!(matches!(a, RenameAction::Abandon(ScraperError::NotFound)));
    let (_, a) = r.rename_step(RenameState::AwaitingRename, RenameEvent::Renamed(Err("denied".to_string())));
    assert!(matches!(a, RenameAction::Finish(Err(ref m)) if m == "denied"));
    let (s, a) = r.rename_step(RenameState::AwaitingCover, RenameEvent::Begin);
    assert!(matches!(s, RenameState::AwaitingCover));
    assert!(matches!(a, RenameAction::Wait));
}

#[test]
fn rjcode_found_in_folder_names() {
    let s = ScanerImpl::new(3);
    assert_eq!(s.depth(), 3);
    assert_eq!(s.rjcode_in_name("[サークル] RJ123456 作品").as_deref(), Some("RJ123456"));
    assert_eq!(s.rjcode_in_name("RJ01234567_v2").as_deref(), Some("RJ01234567"));
    assert_eq!(s.rjcode_in_name("RJ12345"), None);
    assert_eq!(s.rjcode_in_name("rj123456"), None);
}

#[test]
fn collect_matches_keeps_order_and_payload() {
    let s = ScanerImpl::new(2);
    let found = s.collect_matches(vec![
        ("a RJ111111".to_string(), 1),
        ("nothing".to_string(), 2),
        ("RJ222222 b".to_string(), 3),
    ]);
    assert_eq!(found, vec![("RJ111111".to_string(), 1), ("RJ222222".to_string(), 3)]);
}

#[test]
fn chosen_rj_folder_is_its_own_target() {
    assert_eq!(folder_rjcode("RJ123456 title").as_deref(), Some("RJ123456 title"));
    assert_eq!(folder_rjcode("works"), None);
}


#[test]
fn generated_name_rescans_to_its_code() {
    let r = Renamer::new((), false);
    let s = ScanerImpl::new(1);
    for (code, circle, title) in [
        ("RJ123456", Some("RJ999999"), "RJ888888 続編"),
        ("RJ01234567", None, "RJ1234567"),
        ("RJ000001", Some("a/b"), "x:y"),
    ] {
        let name = r.generate_name(&meta(code, circle, title));
        assert_eq!(s.rjcode_in_name(&name).as_deref(), Some(code));
    }
}
