//! Names of recordings, where they may lie, and what is said when something is wrong with one.

use crate::data_saving;
use crate::error;
use crate::error::CommandError;
use crate::text;
use vstd::prelude::*;

verus! {

/// The length of the name of a recording, `YYYY-MM-DD_HH-MM-SS`.
pub const FILENAME_LEN: usize = 19;

/// Whether a character is a decimal digit.
pub open spec fn is_digit(c: char) -> bool {
    '0' <= c <= '9'
}

/// Whether the character is the one that the name of a recording has at a position.
pub open spec fn fits(c: char, i: int) -> bool {
    if i == 4 || i == 7 || i == 13 || i == 16 {
        c == '-'
    } else if i == 10 {
        c == '_'
    } else {
        is_digit(c)
    }
}

/// Whether a text is the name of a recording, `YYYY-MM-DD_HH-MM-SS`.
pub open spec fn valid_stem(s: Seq<char>) -> bool {
    &&& s.len() == FILENAME_LEN
    &&& forall|i: int| 0 <= i < s.len() ==> fits(#[trigger] s[i], i)
}

/// Whether a text is the name of a recording. Such a name holds no path separator.
pub fn is_valid_stem(filename: &str) -> (r: bool)
    ensures
        r == valid_stem(filename@),
{
    let chars = text::chars_of(filename);
    if chars.len() != FILENAME_LEN {
        return false;
    }
    let mut i: usize = 0;
    while i < chars.len()
        invariant
            i <= chars@.len(),
            chars@ == filename@,
            forall|k: int| 0 <= k < i ==> fits(#[trigger] chars@[k], k),
        decreases chars@.len() - i,
    {
        let c = chars[i];
        let ok = if i == 4 || i == 7 || i == 13 || i == 16 {
            c == '-'
        } else if i == 10 {
            c == '_'
        } else {
            '0' <= c && c <= '9'
        };
        if !ok {
            assert(!fits(filename@[i as int], i as int));
            return false;
        }
        i = i + 1;
    }
    true
}

/// The name of the file of a recording.
pub open spec fn file_of(stem: Seq<char>, ext: Seq<char>) -> Seq<char> {
    stem + "."@ + ext
}

/// The name of the file of a recording.
pub fn file_name(stem: &str, ext: &str) -> (s: String)
    ensures
        s@ == file_of(stem@, ext@),
{
    stem.to_owned().concat(".").concat(ext)
}

/// Whether a file name is that of a recording with the given extension.
pub open spec fn is_file_of_recording(name: Seq<char>, ext: Seq<char>) -> bool {
    &&& name.len() == FILENAME_LEN + 1 + ext.len()
    &&& valid_stem(name.take(FILENAME_LEN as int))
    &&& name == file_of(name.take(FILENAME_LEN as int), ext)
}

/// The name of the recording that a file with the given extension belongs to.
pub fn recording_stem(name: &str, ext: &str) -> (r: Option<String>)
    ensures
        r is Some <==> is_file_of_recording(name@, ext@),
        r matches Some(stem) ==> stem@ == name@.take(FILENAME_LEN as int),
{
    let chars = text::chars_of(name);
    if chars.len() < FILENAME_LEN {
        return None;
    }
    let stem = text::text_between(&chars, 0, FILENAME_LEN);
    assert(stem@ =~= name@.take(FILENAME_LEN as int));
    if !is_valid_stem(stem.as_str()) {
        return None;
    }
    let whole = file_name(stem.as_str(), ext);
    proof {
        reveal_strlit(".");
    }
    if text::same_text(whole.as_str(), name) {
        Some(stem)
    } else {
        None
    }
}

/// Kinds of failures of the file system that are told apart.
#[derive(Debug, Clone, Copy, PartialEq, Eq, Structural)]
pub enum IoKind {
    PermissionDenied,
    NotFound,
    Other,
    Unlisted,
}

/// A failure of the file system.
#[derive(Debug)]
pub struct IoFault {
    pub kind: IoKind,
    /// The failure as a line of text.
    pub message: String,
}

/// What a user is told about a failure.
pub open spec fn io_advice(kind: IoKind, message: Seq<char>) -> Seq<char> {
    match kind {
        IoKind::PermissionDenied => "文件被占用或无权限"@,
        IoKind::NotFound => "文件不存在"@,
        IoKind::Other if text::occurs_in(message, "used by another process"@) => {
            "文件被其他程序占用"@
        },
        _ => "删除失败："@ + message,
    }
}

/// What a user is told about a failure of the file system.
pub fn friendly_io_error(e: &IoFault) -> (s: String)
    ensures
        s@ == io_advice(e.kind, e.message@),
{
    match e.kind {
        IoKind::PermissionDenied => "文件被占用或无权限".to_owned(),
        IoKind::NotFound => "文件不存在".to_owned(),
        IoKind::Other => {
            if text::contains(e.message.as_str(), "used by another process") {
                "文件被其他程序占用".to_owned()
            } else {
                "删除失败：".to_owned().concat(e.message.as_str())
            }
        },
        IoKind::Unlisted => "删除失败：".to_owned().concat(e.message.as_str()),
    }
}

/// What a user is told about an error of a command that deletes.
pub open spec fn delete_advice(code: Seq<char>, message: Seq<char>) -> Seq<char> {
    if code == "VALIDATION"@ {
        "文件名不合法"@
    } else {
        message
    }
}

/// What a user is told about an error of a command that deletes.
pub fn friendly_delete_error(e: &CommandError) -> (s: String)
    ensures
        s@ == delete_advice(e.code@, e.message@),
{
    if text::same_text(e.code.as_str(), "VALIDATION") {
        "文件名不合法".to_owned()
    } else {
        e.message.clone()
    }
}

/// The error of a command whose task died.
pub fn task_panicked(task: &str, e: &str) -> (r: CommandError)
    ensures
        r.says("TASK"@, task@ + " task panicked: "@ + e@),
{
    let message = task.to_owned().concat(" task panicked: ").concat(e);
    CommandError::new("TASK", message.as_str())
}

/// What the host finds at the directory of the recordings.
pub enum BaseProbe {
    /// Nothing.
    Absent,
    /// The directory, under its canonical path.
    Canonical(String),
    /// The path could not be made canonical.
    Failed(String),
}

/// The canonical directory of the recordings, none where none is configured or found.
pub fn resolve_base(path_str: &str, probe: BaseProbe) -> (r: Result<Option<String>, CommandError>)
    ensures
        path_str@.len() == 0 || probe is Absent ==> r == Ok::<Option<String>, CommandError>(None),
        path_str@.len() > 0 ==> match probe {
            BaseProbe::Absent => true,
            BaseProbe::Canonical(p) => r == Ok::<Option<String>, CommandError>(Some(p)),
            BaseProbe::Failed(e) => error::refused(
                r,
                "IO"@,
                "failed to canonicalize data_saving_path: "@ + e@,
            ),
        },
{
    if path_str.is_empty() {
        return Ok(None);
    }
    match probe {
        BaseProbe::Absent => Ok(None),
        BaseProbe::Canonical(p) => Ok(Some(p)),
        BaseProbe::Failed(e) => {
            let message = "failed to canonicalize data_saving_path: ".to_owned().concat(e.as_str());
            Err(CommandError::new("IO", message.as_str()))
        },
    }
}

/// The canonical directory of the recordings, which must be there.
pub fn resolve_base_existing(path_str: &str, probe: BaseProbe) -> (r: Result<String, CommandError>)
    ensures
        path_str@.len() == 0 ==> error::refused(
            r,
            "VALIDATION"@,
            "data_saving_path is not configured"@,
        ),
        path_str@.len() > 0 ==> match probe {
            BaseProbe::Absent => error::refused(
                r,
                "NOT_FOUND"@,
                "data_saving_path does not exist on disk"@,
            ),
            BaseProbe::Canonical(p) => r == Ok::<String, CommandError>(p),
            BaseProbe::Failed(e) => error::refused(
                r,
                "IO"@,
                "failed to canonicalize data_saving_path: "@ + e@,
            ),
        },
{
    if path_str.is_empty() {
        return Err(CommandError::validation("data_saving_path is not configured"));
    }
    match probe {
        BaseProbe::Absent => Err(
            CommandError::new("NOT_FOUND", "data_saving_path does not exist on disk"),
        ),
        BaseProbe::Canonical(p) => Ok(p),
        BaseProbe::Failed(e) => {
            let message = "failed to canonicalize data_saving_path: ".to_owned().concat(e.as_str());
            Err(CommandError::new("IO", message.as_str()))
        },
    }
}

/// What the host finds at the file of a recording.
pub struct ChildProbe {
    /// The path below the directory of the recordings.
    pub plain: String,
    /// The canonical path, and whether it still lies in the directory; none where the path cannot
    /// be made canonical, as that of a missing file.
    pub canonical: Option<(String, bool)>,
    /// Whether there is a file.
    pub exists: bool,
}

/// The path of the file of a recording: none outside the directory of the recordings.
pub fn resolve_child(filename: &str, probe: ChildProbe) -> (r: Result<String, CommandError>)
    ensures
        !valid_stem(filename@) ==> error::refused(
            r,
            "VALIDATION"@,
            "invalid recording filename: "@ + filename@,
        ),
        valid_stem(filename@) ==> match probe.canonical {
            Some((path, true)) => r == Ok::<String, CommandError>(path),
            Some((path, false)) => error::refused(
                r,
                "VALIDATION"@,
                "path escapes data_saving_path"@,
            ),
            None => r == Ok::<String, CommandError>(probe.plain),
        },
{
    if !is_valid_stem(filename) {
        let message = "invalid recording filename: ".to_owned().concat(filename);
        return Err(CommandError::validation(message.as_str()));
    }
    match probe.canonical {
        Some((path, inside)) => {
            if inside {
                Ok(path)
            } else {
                Err(CommandError::validation("path escapes data_saving_path"))
            }
        },
        None => Ok(probe.plain),
    }
}

/// The audio of a recording, given what the host found and read.
pub fn read_recording_audio(
    path_str: &str,
    base: BaseProbe,
    filename: &str,
    wav: ChildProbe,
    bytes: Result<Vec<u8>, String>,
) -> (r: Result<Vec<u8>, CommandError>)
    ensures
        path_str@.len() == 0 ==> error::refused(
            r,
            "VALIDATION"@,
            "data_saving_path is not configured"@,
        ),
        path_str@.len() > 0 ==> match base {
            BaseProbe::Absent => error::refused(
                r,
                "NOT_FOUND"@,
                "data_saving_path does not exist on disk"@,
            ),
            BaseProbe::Failed(e) => error::refused(
                r,
                "IO"@,
                "failed to canonicalize data_saving_path: "@ + e@,
            ),
            BaseProbe::Canonical(_) => if !valid_stem(filename@) {
                error::refused(
                    r,
                    "VALIDATION"@,
                    "invalid recording filename: "@ + filename@,
                )
            } else if wav.canonical matches Some((_, false)) {
                error::refused(r, "VALIDATION"@, "path escapes data_saving_path"@)
            } else if !wav.exists {
                error::refused(
                    r,
                    "NOT_FOUND"@,
                    "audio file not found: "@ + file_of(filename@, "wav"@),
                )
            } else {
                match bytes {
                    Ok(b) => r == Ok::<Vec<u8>, CommandError>(b),
                    Err(e) => error::refused(
                        r,
                        "IO"@,
                        "failed to read "@ + file_of(filename@, "wav"@) + ": "@ + e@,
                    ),
                }
            },
        },
{
    if let Err(e) = resolve_base_existing(path_str, base) {
        return Err(e);
    }
    let exists = wav.exists;
    if let Err(e) = resolve_child(filename, wav) {
        return Err(e);
    }
    let file = file_name(filename, "wav");
    if !exists {
        let message = "audio file not found: ".to_owned().concat(file.as_str());
        return Err(CommandError::new("NOT_FOUND", message.as_str()));
    }
    match bytes {
        Ok(b) => Ok(b),
        Err(e) => {
            let message = "failed to read ".to_owned().concat(file.as_str()).concat(": ").concat(
                e.as_str(),
            );
            Err(CommandError::new("IO", message.as_str()))
        },
    }
}

/// The name of a recording holds nothing that could lead out of its directory.
pub proof fn valid_stems_hold_no_separator(s: Seq<char>)
    requires
        valid_stem(s),
    ensures
        !s.contains('/'),
        !s.contains('\\'),
        !s.contains('.'),
        !s.contains(':'),
{
    assert forall|i: int| 0 <= i < s.len() implies s[i] != '/' && s[i] != '\\' && s[i] != '.'
        && s[i] != ':' by {
        assert(fits(s[i], i));
    }
}

/// The name that a recording gets when it is made is the name of a recording.
pub proof fn fresh_stems_are_valid(
    year: nat,
    month: nat,
    day: nat,
    hour: nat,
    minute: nat,
    second: nat,
)
    ensures
        valid_stem(data_saving::stem_at(year, month, day, hour, minute, second)),
{
    let s = data_saving::stem_at(year, month, day, hour, minute, second);
    assert(s.len() == 19);
    assert forall|i: int| 0 <= i < s.len() implies fits(#[trigger] s[i], i) by {
    }
}

/// The name of a recording is a date and a time, `YYYY-MM-DD_HH-MM-SS`: fourteen digits, four
/// hyphens and an underscore, each in its place.
pub proof fn names_are_dates(name: &str, r: bool)
    requires
        call_ensures(is_valid_stem, (name,), r),
    ensures
        r == valid_stem(name@),
        r ==> name@.len() == 19 && name@[4] == '-' && name@[7] == '-' && name@[10] == '_'
            && name@[13] == '-' && name@[16] == '-' && forall|i: int|
            0 <= i < 19 && i != 4 && i != 7 && i != 10 && i != 13 && i != 16 ==> '0'
                <= #[trigger] name@[i] <= '9',
        name@.len() == 19 && name@[4] == '-' && name@[7] == '-' && name@[10] == '_' && name@[13]
            == '-' && name@[16] == '-' && (forall|i: int|
            0 <= i < 19 && i != 4 && i != 7 && i != 10 && i != 13 && i != 16 ==> '0'
                <= #[trigger] name@[i] <= '9') ==> r,
{
    let s = name@;
    if r {
        assert(fits(s[4], 4) && fits(s[7], 7) && fits(s[10], 10) && fits(s[13], 13) && fits(
            s[16],
            16,
        ));
        assert forall|i: int| 0 <= i < 19 && i != 4 && i != 7 && i != 10 && i != 13 && i != 16 implies
            '0' <= #[trigger] s[i] <= '9' by {
            assert(fits(s[i], i));
        }
    }
}

/// A file belongs to a recording if its name is that of the recording, a dot and the extension.
pub proof fn files_are_named_after_recordings(name: &str, ext: &str, r: Option<String>)
    requires
        call_ensures(recording_stem, (name, ext), r),
    ensures
        r matches Some(stem) ==> valid_stem(stem@) && name@ == stem@ + seq!['.'] + ext@,
        forall|stem: Seq<char>|
            valid_stem(stem) && name@ == #[trigger] (stem + seq!['.'] + ext@) ==> (r matches Some(
                s,
            ) && s@ == stem),
        r is Some == is_file_of_recording(name@, ext@),
{
    reveal_strlit(".");
    assert("."@ =~= seq!['.']);
    assert forall|stem: Seq<char>|
        valid_stem(stem) && name@ == #[trigger] (stem + seq!['.'] + ext@) implies (r matches Some(
        s,
    ) && s@ == stem) by {
        assert(name@.take(FILENAME_LEN as int) =~= stem);
        assert(is_file_of_recording(name@, ext@));
    }
}

/// A path is only ever handed out for the name of a recording, and never one that leads out of the
/// directory.
pub proof fn paths_stay_in_the_directory(
    filename: &str,
    probe: ChildProbe,
    r: Result<String, CommandError>,
)
    requires
        call_ensures(resolve_child, (filename, probe), r),
    ensures
        r is Ok <==> valid_stem(filename@) && !(probe.canonical matches Some((_, false))),
        r matches Ok(path) ==> path == (match probe.canonical {
            Some(c) => c.0,
            None => probe.plain,
        }),
        r matches Err(e) ==> e.code@ == "VALIDATION"@,
{
}

/// Audio is read where there is a directory, a name that stays in it, a file and no failure; then it
/// is the bytes of the file.
pub proof fn audio_is_what_the_file_holds(
    path_str: &str,
    base: BaseProbe,
    filename: &str,
    wav: ChildProbe,
    bytes: Result<Vec<u8>, String>,
    r: Result<Vec<u8>, CommandError>,
)
    requires
        call_ensures(read_recording_audio, (path_str, base, filename, wav, bytes), r),
    ensures
        r is Ok <==> path_str@.len() > 0 && base is Canonical && valid_stem(filename@) && !(
        wav.canonical matches Some((_, false))) && wav.exists && bytes is Ok,
        r matches Ok(b) ==> bytes == Ok::<Vec<u8>, String>(b),
        r is Err && path_str@.len() > 0 && base is Canonical && valid_stem(filename@)
            && wav.canonical is None && !wav.exists ==> r->Err_0.code@ == "NOT_FOUND"@,
{
}

/// A directory is there if one is configured and found; only where it must be there is its absence
/// a failure.
pub proof fn directories_are_as_found(
    path_str: &str,
    probe: BaseProbe,
    r: Result<Option<String>, CommandError>,
    must: Result<String, CommandError>,
)
    requires
        call_ensures(resolve_base, (path_str, probe), r),
        call_ensures(resolve_base_existing, (path_str, probe), must),
    ensures
        (r matches Ok(Some(p)) && path_str@.len() > 0 && probe == BaseProbe::Canonical(p)) == (
        path_str@.len() > 0 && probe is Canonical),
        r is Err <==> path_str@.len() > 0 && probe is Failed,
        must is Ok <==> (r matches Ok(Some(_))),
        must matches Ok(p) ==> r->Ok_0 == Some(p),
        r matches Ok(None) ==> (must->Err_0.code@ == (if path_str@.len() == 0 {
            "VALIDATION"@
        } else {
            "NOT_FOUND"@
        })),
{
}

/// What a user is told about a file that is locked or missing says so; anything else names the
/// failure.
pub proof fn advice_names_the_failure(e: IoFault, s: String)
    requires
        call_ensures(friendly_io_error, (&e,), s),
    ensures
        e.kind is PermissionDenied ==> s@ == "文件被占用或无权限"@,
        e.kind is NotFound ==> s@ == "文件不存在"@,
        e.kind is Unlisted ==> s@ == "删除失败："@ + e.message@,
        e.kind is Other ==> s@ == (if text::occurs_in(e.message@, "used by another process"@) {
            "文件被其他程序占用"@
        } else {
            "删除失败："@ + e.message@
        }),
{
}

/// What a user is told about a refused name is that it is not valid; anything else is told as it is.
pub proof fn refused_names_are_told_as_such(
    e: CommandError,
    s: String,
    task: &str,
    m: &str,
    p: CommandError,
)
    requires
        call_ensures(friendly_delete_error, (&e,), s),
        call_ensures(task_panicked, (task, m), p),
    ensures
        e.code@ == "VALIDATION"@ ==> s@ == "文件名不合法"@,
        e.code@ != "VALIDATION"@ ==> s@ == e.message@,
        p.code@ == "TASK"@ && p.message@ == task@ + " task panicked: "@ + m@,
{
}

} // verus!
