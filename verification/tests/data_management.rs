//! Names, listing, deletion and restoration of recordings.

use dl_voice_typing::commands::data_management::deletion::{
    restore_report, sweep_pending_dir, DeleteAction, MovedFile, PendingDeletes, SoftDelete,
    PENDING_DIR, UNDO_WINDOW_SECS,
};
use dl_voice_typing::commands::data_management::listing::{
    get_data_usage, list_saved_recordings, one_holds, scan_and_collect, search_for,
    search_for_lowered, ScannedFile, SizedFile,
};
use dl_voice_typing::commands::data_management::names::{
    friendly_delete_error, friendly_io_error, is_valid_stem, read_recording_audio, recording_stem,
    resolve_base, resolve_base_existing, resolve_child, task_panicked, BaseProbe, ChildProbe,
    IoFault, IoKind,
};
use dl_voice_typing::config::{Language, WhisperModel};
use dl_voice_typing::data_saving::{timestamp_stem, RecordingMetadata};
use dl_voice_typing::error::CommandError;

const A: &str = "2026-06-24_14-30-25";
const B: &str = "2026-06-24_14-30-26";
const C: &str = "2026-06-25_00-00-00";

fn said(e: &CommandError) -> (&str, &str) {
    (e.code.as_str(), e.message.as_str())
}

fn fault(kind: IoKind, message: &str) -> IoFault {
    IoFault { kind, message: message.to_string() }
}

fn inside(path: &str) -> ChildProbe {
    ChildProbe { plain: path.to_string(), canonical: Some((path.to_string(), true)), exists: true }
}

fn outside() -> ChildProbe {
    ChildProbe { plain: "p".to_string(), canonical: Some(("q".to_string(), false)), exists: true }
}

fn missing() -> ChildProbe {
    ChildProbe { plain: "p".to_string(), canonical: None, exists: false }
}

fn base() -> Result<Option<String>, CommandError> {
    Ok(Some("base".to_string()))
}

fn note(stem: &str, timestamp: Option<&str>, transcription: &str) -> ScannedFile {
    ScannedFile {
        name: format!("{stem}.json"),
        json_size: 10,
        wav_size: 100,
        meta: Some(RecordingMetadata {
            timestamp: timestamp.map(|t| t.to_string()),
            transcription: Some(transcription.to_string()),
            ..Default::default()
        }),
    }
}

#[test]
fn names_of_recordings_are_told_apart() {
    assert!(is_valid_stem(A));
    for bad in [
        "",
        "not-a-stem",
        "../../etc/passwd",
        "2026-06-24_14-30-2",
        "2026-06-24_14-30-255",
        "2026-06-24 14-30-25",
        "2026/06-24_14-30-25",
        "2026-06-24_14-30-2x",
        "２026-06-24_14-30-25",
    ] {
        assert!(!is_valid_stem(bad), "{bad}");
    }
    assert_eq!(recording_stem("2026-06-24_14-30-25.json", "json").as_deref(), Some(A));
    assert_eq!(recording_stem("2026-06-24_14-30-25.json", "wav"), None);
    assert_eq!(recording_stem("2026-06-24_14-30-25json", "json"), None);
    assert_eq!(recording_stem("2026-06-24_14-30-25.json.bak", "json"), None);
}

#[test]
fn fresh_names_are_names_of_recordings() {
    let stem = timestamp_stem(2026, 6, 24, 14, 30, 25);
    assert_eq!(stem, A);
    assert!(is_valid_stem(&timestamp_stem(9999, 12, 31, 23, 59, 60)));
    assert_eq!(timestamp_stem(7, 1, 2, 3, 4, 5), "0007-01-02_03-04-05");
}

#[test]
fn test_resolve_child_rejects_traversal() {
    assert!(resolve_child("../../etc/passwd", inside("x")).is_err());
    assert!(resolve_child("not-a-stem", inside("x")).is_err());
    let e = resolve_child(A, outside()).err().unwrap();
    assert_eq!(said(&e), ("VALIDATION", "path escapes data_saving_path"));
    assert_eq!(resolve_child(A, inside("x")).ok().unwrap(), "x");
    assert_eq!(resolve_child(A, missing()).ok().unwrap(), "p");
}

#[test]
fn directories_are_resolved() {
    let found = || BaseProbe::Canonical("c".to_string());
    let failed = || BaseProbe::Failed("loop".to_string());
    assert_eq!(resolve_base("", found()).ok().unwrap(), None);
    assert_eq!(resolve_base("d", BaseProbe::Absent).ok().unwrap(), None);
    assert_eq!(resolve_base("d", found()).ok().unwrap().as_deref(), Some("c"));
    let e = resolve_base("d", failed()).err().unwrap();
    assert_eq!(said(&e), ("IO", "failed to canonicalize data_saving_path: loop"));
    let e = resolve_base_existing("", found()).err().unwrap();
    assert_eq!(said(&e), ("VALIDATION", "data_saving_path is not configured"));
    let e = resolve_base_existing("d", BaseProbe::Absent).err().unwrap();
    assert_eq!(said(&e), ("NOT_FOUND", "data_saving_path does not exist on disk"));
    assert_eq!(resolve_base_existing("d", found()).ok().unwrap(), "c");
    assert!(resolve_base_existing("d", failed()).is_err());
}

#[test]
fn audio_is_read_from_the_directory() {
    let found = || BaseProbe::Canonical("c".to_string());
    let audio = read_recording_audio("d", found(), A, inside("x"), Ok(vec![1, 2, 3]));
    assert_eq!(audio.ok().unwrap(), vec![1, 2, 3]);
    let e = read_recording_audio("d", found(), A, missing(), Ok(vec![])).err().unwrap();
    assert_eq!(said(&e), ("NOT_FOUND", "audio file not found: 2026-06-24_14-30-25.wav"));
    let e = read_recording_audio("d", found(), A, inside("x"), Err("busy".to_string()))
        .err()
        .unwrap();
    assert_eq!(said(&e), ("IO", "failed to read 2026-06-24_14-30-25.wav: busy"));
    assert!(read_recording_audio("", found(), A, inside("x"), Ok(vec![])).is_err());
    assert!(read_recording_audio("d", found(), "..", inside("x"), Ok(vec![])).is_err());
}

#[test]
fn failures_are_explained() {
    let f = |kind, m| friendly_io_error(&fault(kind, m));
    assert_eq!(f(IoKind::PermissionDenied, "x"), "文件被占用或无权限");
    assert_eq!(f(IoKind::NotFound, "x"), "文件不存在");
    assert_eq!(f(IoKind::Other, "is used by another process."), "文件被其他程序占用");
    assert_eq!(f(IoKind::Other, "x"), "删除失败：x");
    assert_eq!(f(IoKind::Unlisted, "used by another process"), "删除失败：used by another process");
    assert_eq!(friendly_delete_error(&CommandError::validation("x")), "文件名不合法");
    assert_eq!(friendly_delete_error(&CommandError::new("IO", "x")), "x");
    assert_eq!(said(&task_panicked("list", "boom")), ("TASK", "list task panicked: boom"));
}

#[test]
fn recordings_are_listed_newest_first() {
    let files = vec![
        note(A, Some("2026-06-24T14:30:25"), "first"),
        note(C, None, "third"),
        note(B, Some("2026-06-24T14:30:26"), "second"),
        ScannedFile { name: format!("{A}.txt"), json_size: 1, wav_size: 1, meta: None },
        ScannedFile { name: "2026-06-26_00-00-00.json".to_string(), json_size: 1, wav_size: 1, meta: None },
    ];
    let read = Ok(files);
    let r = list_saved_recordings("d", base(), &read, 0, 2, None).ok().unwrap();
    assert_eq!(r.items.iter().map(|e| e.filename.as_str()).collect::<Vec<_>>(), vec![C, B]);
    assert_eq!((r.total, r.total_bytes, r.offset, r.limit), (3, 330, 0, 2));
    assert!(r.path_configured);
    assert_eq!(r.items[0].source, "classic");
    let r = list_saved_recordings("d", base(), &read, 2, 2, None).ok().unwrap();
    assert_eq!(r.items.iter().map(|e| e.filename.as_str()).collect::<Vec<_>>(), vec![A]);
    let r = list_saved_recordings("d", base(), &read, 9, 2, None).ok().unwrap();
    assert!(r.items.is_empty());
    assert_eq!(r.total, 3);
    let all = scan_and_collect(&read, Some("seco")).ok().unwrap();
    assert_eq!(all.len(), 1);
    assert_eq!(all[0].transcription.as_deref(), Some("second"));
}

#[test]
fn entries_tell_what_is_noted() {
    let mut file = note(A, Some("t"), "x");
    if let Some(m) = &mut file.meta {
        m.language = Some(Language::En);
        m.whisper_model = Some(WhisperModel::Custom("my.bin".to_string()));
        m.duration_ms = Some(1234);
        m.source = Some("record_only".to_string());
        m.transcription_status = Some("pending".to_string());
        m.dropped_blocks = 4;
    }
    let r = list_saved_recordings("d", base(), &Ok(vec![file]), 0, 10, None).ok().unwrap();
    let e = &r.items[0];
    assert_eq!(e.language.as_deref(), Some("en"));
    assert_eq!(e.whisper_model.as_deref(), Some("custom:my.bin"));
    assert_eq!(e.duration_ms, Some(1234));
    assert_eq!(e.source, "record_only");
    assert_eq!(e.transcription_status.as_deref(), Some("pending"));
    assert_eq!(e.dropped_blocks, 4);
    assert_eq!((e.wav_size, e.json_size), (100, 10));
}

#[test]
fn a_search_ignores_case_and_space_around() {
    let read = Ok(vec![note(A, None, "Guten TAG, Österreich"), note(B, None, "good day")]);
    let find = |q| list_saved_recordings("d", base(), &read, 0, 9, Some(q)).ok().unwrap().items;
    assert_eq!(find(" tag ").len(), 1);
    assert_eq!(find("TAG")[0].filename, A);
    assert_eq!(find("öSTERR")[0].filename, A);
    assert_eq!(find("DAY")[0].filename, B);
    assert!(find("night").is_empty());
    assert_eq!(find("   ").len(), 2);
    assert_eq!(search_for(Some(" ÄB ")).as_deref(), Some("äb"));
    assert_eq!(search_for(None), None);
    assert_eq!(search_for_lowered(String::new()), None);
    let t = |s: &str| Some(s.to_string());
    assert!(one_holds(&None, &None, &t("abc"), "bc"));
    assert!(one_holds(&t("abc"), &None, &None, "a"));
    assert!(!one_holds(&t("abc"), &t("d"), &None, "ad"));
}

#[test]
fn listing_reports_what_is_wrong() {
    let none = Ok(Vec::new());
    let e = list_saved_recordings("d", base(), &none, 0, 0, None).err().unwrap();
    assert_eq!(said(&e), ("VALIDATION", "limit must be > 0"));
    let r = list_saved_recordings("", Ok(None), &none, 3, 5, None).ok().unwrap();
    assert!(!r.path_configured && r.items.is_empty());
    assert_eq!((r.offset, r.limit), (3, 5));
    assert!(list_saved_recordings("d", Ok(None), &none, 0, 5, None).ok().unwrap().path_configured);
    let e = Err(CommandError::new("IO", "x"));
    assert!(list_saved_recordings("d", e, &none, 0, 5, None).is_err());
    let denied = Err(fault(IoKind::PermissionDenied, "no"));
    assert_eq!(list_saved_recordings("d", base(), &denied, 0, 5, None).ok().unwrap().total, 0);
    let broken = Err(fault(IoKind::Other, "disk"));
    let e = list_saved_recordings("d", base(), &broken, 0, 5, None).err().unwrap();
    assert_eq!(said(&e), ("IO", "failed to read data_saving_path: disk"));
    assert!(scan_and_collect(&broken, None).is_err());
    assert!(scan_and_collect(&denied, None).ok().unwrap().is_empty());
}

fn sized(name: &str, size: u64, json_sibling: bool) -> SizedFile {
    SizedFile { name: name.to_string(), size, json_sibling }
}

#[test]
fn usage_counts_files_of_recordings() {
    let read = Ok(vec![
        sized("2026-06-24_14-30-25.json", 10, true),
        sized("2026-06-24_14-30-25.wav", 1000, true),
        sized("2026-06-24_14-30-26.wav", 5000, false),
        sized("notes.json", 7, true),
    ]);
    let u = get_data_usage(base(), &read).ok().unwrap();
    assert_eq!((u.total_bytes, u.recording_count), (1010, 1));
    let u = get_data_usage(Ok(None), &read).ok().unwrap();
    assert_eq!((u.total_bytes, u.recording_count), (0, 0));
    let read = Ok(vec![sized("2026-06-24_14-30-25.json", u64::MAX, true), sized("2026-06-24_14-30-26.json", 1, true)]);
    let u = get_data_usage(base(), &read).ok().unwrap();
    assert_eq!((u.total_bytes, u.recording_count), (u64::MAX, 2));
    assert!(get_data_usage(base(), &Err(fault(IoKind::Other, "x"))).is_err());
    assert!(get_data_usage(base(), &Err(fault(IoKind::NotFound, "x"))).is_ok());
}

fn moved(name: &str) -> MovedFile {
    MovedFile { orig: format!("d/{name}"), name: name.to_string() }
}

#[test]
fn deletions_can_be_undone_once() {
    let mut p = PendingDeletes::new();
    let first = p.schedule(vec![moved("a"), moved("b")]);
    let second = p.schedule(vec![moved("c")]);
    assert_eq!((first, second), (1, 2));
    let entry = p.restore_with_id(first).ok().unwrap();
    assert_eq!(entry.pairs.len(), 2);
    assert_eq!(entry.pairs[0].orig, "d/a");
    let e = p.restore_with_id(first).err().unwrap();
    assert_eq!(said(&e), ("VALIDATION", "撤销机会已过期或不存在"));
    assert!(p.finalize_by_id(first).is_empty());
    assert!(p.has_entry(second));
    assert_eq!(p.finalize_by_id(second), vec!["c".to_string()]);
    assert!(!p.has_entry(second));
    assert!(p.restore_with_id(second).is_err());
    assert!(p.take_entry(7).is_none());
    let files = vec![
        moved(&format!("{A}.wav")),
        moved(&format!("{A}.json")),
        moved(&format!("{B}.wav")),
        moved(&format!("{B}.json")),
        moved(&format!("{C}.json")),
    ];
    let r = restore_report(&files, &vec![true, true, true, false, true]);
    assert_eq!((r.restored, r.failed), (2, 1));
    let r = restore_report(&files, &vec![true; 5]);
    assert_eq!((r.restored, r.failed), (3, 0));
    let r = restore_report(&vec![], &vec![]);
    assert_eq!((r.restored, r.failed), (0, 0));
    assert_eq!((PENDING_DIR, UNDO_WINDOW_SECS), (".dl_pending", 5));
}

#[test]
fn a_whole_batch_comes_back_once() {
    let mut p = PendingDeletes::new();
    let stems = [A, B, C];
    let mut d = SoftDelete::new(stems.iter().map(|s| s.to_string()).collect());
    for _ in stems {
        d.begin_stem();
        d.pending_prepared(Ok(true));
        for file in ["w", "j"] {
            d.child_resolved(inside(file));
            d.file_moved(Ok(()));
        }
    }
    assert!(matches!(d.begin_stem(), DeleteAction::Report));
    let b = d.soft_delete_recordings(&mut p);
    assert_eq!((b.id, b.moved, b.failed.len()), (1, 3, 0));
    let entry = p.restore_with_id(b.id).ok().unwrap();
    assert_eq!(entry.pairs.len(), 6);
    let r = restore_report(&entry.pairs, &vec![true; 6]);
    assert_eq!((r.restored, r.failed), (b.moved, 0));
    assert_eq!(p.restore_with_id(b.id).err().unwrap().code, "VALIDATION");
}

#[test]
fn a_recording_is_moved_aside() {
    let mut d = SoftDelete::new(vec![A.to_string()]);
    assert!(matches!(d.begin_stem(), DeleteAction::PreparePending));
    assert!(matches!(d.pending_prepared(Ok(true)), DeleteAction::Resolve(n) if n == format!("{A}.wav")));
    assert!(matches!(d.child_resolved(inside("w")), DeleteAction::Move));
    assert!(matches!(d.file_moved(Ok(())), DeleteAction::Resolve(n) if n == format!("{A}.json")));
    assert!(matches!(d.child_resolved(inside("j")), DeleteAction::Move));
    assert!(matches!(d.file_moved(Ok(())), DeleteAction::Continue));
    assert!(matches!(d.begin_stem(), DeleteAction::Report));
    let mut pending = PendingDeletes::new();
    let batch = d.soft_delete_recordings(&mut pending);
    assert_eq!((batch.id, batch.moved, batch.failed.len()), (1, 1, 0));
    let entry = pending.take_entry(1).unwrap();
    assert_eq!(entry.pairs[1].orig, "j");
    assert_eq!(entry.pairs[1].name, format!("{A}.json"));
}

#[test]
fn a_failed_recording_is_moved_back() {
    let mut d = SoftDelete::new(vec![A.to_string(), "x".to_string(), B.to_string(), C.to_string()]);
    d.begin_stem();
    d.pending_prepared(Ok(true));
    d.child_resolved(inside("w"));
    d.file_moved(Ok(()));
    d.child_resolved(inside("j"));
    let action = d.file_moved(Err(fault(IoKind::PermissionDenied, "locked")));
    match action {
        DeleteAction::RollBack(files) => assert_eq!(files[0].orig, "w"),
        _ => panic!("expected to move back"),
    }
    assert!(matches!(d.begin_stem(), DeleteAction::Continue));
    d.begin_stem();
    d.pending_prepared(Ok(true));
    assert!(matches!(d.child_resolved(outside()), DeleteAction::RollBack(files) if files.is_empty()));
    d.begin_stem();
    assert!(matches!(d.pending_prepared(Ok(false)), DeleteAction::Continue));
    assert!(matches!(d.begin_stem(), DeleteAction::Report));
    let mut pending = PendingDeletes::new();
    let batch = d.soft_delete_recordings(&mut pending);
    assert_eq!((batch.id, batch.moved), (0, 0));
    assert!(!pending.has_entry(1));
    let errors: Vec<&str> = batch.failed.iter().map(|f| f.error.as_str()).collect();
    assert_eq!(
        errors,
        vec![
            "文件被占用或无权限",
            "文件名不合法",
            "文件名不合法",
            "删除失败：pending dir escapes base (junction?)"
        ]
    );
}

#[test]
fn a_missing_file_is_passed_over() {
    let mut d = SoftDelete::new(vec![A.to_string()]);
    d.begin_stem();
    d.pending_prepared(Ok(true));
    assert!(matches!(d.child_resolved(missing()), DeleteAction::Resolve(_)));
    assert!(matches!(d.child_resolved(missing()), DeleteAction::Continue));
    let mut pending = PendingDeletes::new();
    let batch = d.soft_delete_recordings(&mut pending);
    assert_eq!((batch.id, batch.moved), (0, 1));
}

#[test]
fn a_sweep_leaves_foreign_files() {
    let files = vec![format!("{A}.wav"), "keep.txt".to_string(), format!("{B}.json")];
    assert_eq!(sweep_pending_dir("d", true, &files), vec![files[0].clone(), files[2].clone()]);
    assert!(sweep_pending_dir("d", false, &files).is_empty());
    assert!(sweep_pending_dir("", true, &files).is_empty());
}

#[test]
fn only_the_files_that_were_asked_for_are_moved() {
    let mut d = SoftDelete::new(vec![A.to_string(), B.to_string()]);
    for _ in 0..2 {
        d.begin_stem();
        d.pending_prepared(Ok(true));
        d.child_resolved(inside("w"));
        d.file_moved(Ok(()));
        d.child_resolved(inside("j"));
        d.file_moved(Ok(()));
    }
    let names: Vec<&str> = d.pairs.iter().map(|f| f.name.as_str()).collect();
    let expected: Vec<String> = [A, B]
        .iter()
        .flat_map(|stem| [format!("{stem}.wav"), format!("{stem}.json")])
        .collect();
    assert_eq!(names, expected);
}
