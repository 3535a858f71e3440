//! Deleting recordings with a chance to undo it.
//!
//! The files of a deleted recording are moved aside; after a while they are removed for good unless
//! the user has asked for them back. Looking at files and moving them is the host's.

use crate::commands::data_management::names;
use crate::commands::data_management::names::{
    file_name, friendly_delete_error, friendly_io_error, is_valid_stem, recording_stem,
    resolve_child, ChildProbe, IoFault, IoKind,
};
use crate::error;
use crate::error::CommandError;
use crate::text;
use std::collections::HashMap;
use vstd::prelude::*;

verus! {

broadcast use vstd::std_specs::hash::group_hash_axioms;

/// The directory, below that of the recordings, that holds files which can still be restored.
pub const PENDING_DIR: &'static str = ".dl_pending";

/// How long a deletion can be undone, in seconds.
pub const UNDO_WINDOW_SECS: u64 = 5;

/// A recording that was not deleted, and why.
pub struct FailedDelete {
    pub filename: String,
    pub error: String,
}

/// What became of a request to delete recordings.
pub struct SoftDeleteBatch {
    /// The handle for undoing it, 0 where there is nothing to undo.
    pub id: u64,
    /// How many recordings were deleted.
    pub moved: u32,
    pub failed: Vec<FailedDelete>,
}

/// A file that was moved aside.
pub struct MovedFile {
    /// Where it was.
    pub orig: String,
    /// Its name in the directory of files that can be restored.
    pub name: String,
}

/// The files of one request.
pub struct PendingEntry {
    pub pairs: Vec<MovedFile>,
}

/// What became of undoing a request.
#[derive(Debug, Clone, Copy, PartialEq, Eq)]
pub struct RestoreReport {
    /// How many recordings are back with all their files.
    pub restored: u32,
    /// How many files did not come back.
    pub failed: u32,
}

/// The requests that can still be undone.
pub struct PendingDeletes {
    inner: HashMap<u64, PendingEntry>,
    next_id: u64,
}

impl View for PendingDeletes {
    type V = Map<u64, PendingEntry>;

    closed spec fn view(&self) -> Map<u64, PendingEntry> {
        self.inner@
    }
}

/// The number after another; the largest is followed by 0.
pub open spec fn id_after(id: u64) -> u64 {
    if id == u64::MAX {
        0
    } else {
        (id + 1) as u64
    }
}

impl PendingDeletes {
    /// The handle that the next request gets.
    pub closed spec fn upcoming(self) -> u64 {
        self.next_id
    }

    pub fn new() -> (p: Self)
        ensures
            p@ == Map::<u64, PendingEntry>::empty(),
            p.upcoming() == 1,
    {
        PendingDeletes { inner: HashMap::new(), next_id: 1 }
    }

    /// Keep the files of a request; hands out its handle.
    pub fn schedule(&mut self, pairs: Vec<MovedFile>) -> (id: u64)
        ensures
            id == old(self).upcoming(),
            final(self).upcoming() == id_after(id),
            final(self)@ == old(self)@.insert(id, PendingEntry { pairs }),
    {
        let id: u64 = self.next_id;
        self.next_id = id.wrapping_add(1);
        self.inner.insert(id, PendingEntry { pairs });
        id
    }

    /// Take a request out (once).
    pub fn take_entry(&mut self, id: u64) -> (e: Option<PendingEntry>)
        ensures
            e == (if old(self)@.contains_key(id) {
                Some(old(self)@[id])
            } else {
                None
            }),
            final(self)@ == old(self)@.remove(id),
            final(self).upcoming() == old(self).upcoming(),
    {
        let e = self.inner.remove(&id);
        assert(self@ =~= old(self)@.remove(id));
        e
    }

    /// The time to undo a request is over: the names of the files that are to be removed for good.
    /// None, where the request was undone or is not known.
    pub fn finalize_by_id(&mut self, id: u64) -> (v: Vec<String>)
        ensures
            final(self)@ == old(self)@.remove(id),
            final(self).upcoming() == old(self).upcoming(),
            !old(self)@.contains_key(id) ==> v@.len() == 0,
            old(self)@.contains_key(id) ==> {
                let pairs = old(self)@[id].pairs@;
                &&& v@.len() == pairs.len()
                &&& forall|i: int| 0 <= i < v@.len() ==> #[trigger] v@[i] == pairs[i].name
            },
    {
        let mut v: Vec<String> = Vec::new();
        if let Some(entry) = self.take_entry(id) {
            let mut i: usize = 0;
            while i < entry.pairs.len()
                invariant
                    i <= entry.pairs@.len(),
                    v@.len() == i,
                    forall|k: int| 0 <= k < i ==> #[trigger] v@[k] == entry.pairs@[k].name,
                decreases entry.pairs@.len() - i,
            {
                v.push(entry.pairs[i].name.clone());
                i = i + 1;
            }
        }
        v
    }

    /// Whether a request can still be undone.
    pub fn has_entry(&self, id: u64) -> (r: bool)
        ensures
            r == self@.contains_key(id),
    {
        self.inner.contains_key(&id)
    }

    /// Undo a request: the files that are to be moved back. It can be undone once, and only in time.
    pub fn restore_with_id(&mut self, id: u64) -> (r: Result<PendingEntry, CommandError>)
        ensures
            final(self)@ == old(self)@.remove(id),
            final(self).upcoming() == old(self).upcoming(),
            old(self)@.contains_key(id) ==> r == Ok::<PendingEntry, CommandError>(old(self)@[id]),
            !old(self)@.contains_key(id) ==> error::refused(
                r,
                "VALIDATION"@,
                "撤销机会已过期或不存在"@,
            ),
    {
        match self.take_entry(id) {
            Some(entry) => Ok(entry),
            None => Err(CommandError::validation("撤销机会已过期或不存在")),
        }
    }
}

impl Default for PendingDeletes {
    fn default() -> (p: Self)
        ensures
            p@ == Map::<u64, PendingEntry>::empty(),
            p.upcoming() == 1,
    {
        Self::new()
    }
}

/// The position of the last dot in a text, -1 where there is none.
pub open spec fn last_dot(s: Seq<char>) -> int
    decreases s.len(),
{
    if s.len() == 0 {
        -1
    } else if s.last() == '.' {
        s.len() - 1
    } else {
        last_dot(s.drop_last())
    }
}

/// The name of the recording that a file belongs to: that of the file without its extension.
pub open spec fn stem_of(name: Seq<char>) -> Seq<char> {
    if last_dot(name) < 0 {
        name
    } else {
        name.take(last_dot(name))
    }
}

/// No earlier file belongs to the same recording.
pub open spec fn first_of_recording(files: Seq<MovedFile>, i: int) -> bool {
    forall|j: int|
        0 <= j < i ==> stem_of((#[trigger] files[j]).name@) != stem_of(files[i].name@)
}

/// All files of the recording that the file belongs to came back.
pub open spec fn came_back(files: Seq<MovedFile>, outcomes: Seq<bool>, i: int) -> bool {
    forall|j: int|
        0 <= j < files.len() && stem_of((#[trigger] files[j]).name@) == stem_of(files[i].name@)
            ==> outcomes[j]
}

/// How many recordings, of those whose first file is among the first `n`, are back with all their
/// files.
pub open spec fn recordings_back(files: Seq<MovedFile>, outcomes: Seq<bool>, n: int) -> nat
    decreases n,
{
    if n <= 0 {
        0
    } else {
        recordings_back(files, outcomes, n - 1) + (if first_of_recording(files, n - 1)
            && came_back(files, outcomes, n - 1) {
            1nat
        } else {
            0
        })
    }
}

/// How many of the attempts failed.
pub open spec fn failures(outcomes: Seq<bool>) -> nat
    decreases outcomes.len(),
{
    if outcomes.len() == 0 {
        0
    } else {
        failures(outcomes.drop_last()) + (if outcomes.last() {
            0nat
        } else {
            1
        })
    }
}

fn stem_text(name: &str) -> (r: String)
    ensures
        r@ == stem_of(name@),
{
    let v = text::chars_of(name);
    let mut i: usize = v.len();
    assert(v@.take(i as int) =~= v@);
    while i > 0
        invariant
            i <= v@.len(),
            v@ == name@,
            last_dot(v@) == last_dot(v@.take(i as int)),
        decreases i,
    {
        assert(v@.take(i as int).drop_last() =~= v@.take(i - 1));
        if v[i - 1] == '.' {
            let r = text::text_between(&v, 0, i - 1);
            assert(r@ =~= name@.take(i - 1));
            return r;
        }
        i = i - 1;
    }
    name.to_owned()
}

fn is_first(stems: &Vec<String>, i: usize, Ghost(files): Ghost<Seq<MovedFile>>) -> (r: bool)
    requires
        i < stems@.len() == files.len(),
        forall|j: int|
            0 <= j < files.len() ==> (#[trigger] stems@[j])@ == stem_of(files[j].name@),
    ensures
        r == first_of_recording(files, i as int),
{
    let mut j: usize = 0;
    while j < i
        invariant
            j <= i < stems@.len() == files.len(),
            forall|k: int|
                0 <= k < files.len() ==> (#[trigger] stems@[k])@ == stem_of(files[k].name@),
            forall|k: int|
                0 <= k < j ==> stem_of((#[trigger] files[k]).name@) != stem_of(files[i as int].name@),
        decreases i - j,
    {
        if text::same_text(stems[j].as_str(), stems[i].as_str()) {
            assert(stem_of(files[j as int].name@) == stem_of(files[i as int].name@));
            return false;
        }
        assert(stem_of(files[j as int].name@) != stem_of(files[i as int].name@));
        j = j + 1;
    }
    true
}

fn is_back(
    stems: &Vec<String>,
    outcomes: &Vec<bool>,
    i: usize,
    Ghost(files): Ghost<Seq<MovedFile>>,
) -> (r: bool)
    requires
        i < stems@.len() == files.len(),
        outcomes@.len() == files.len(),
        forall|j: int|
            0 <= j < files.len() ==> (#[trigger] stems@[j])@ == stem_of(files[j].name@),
    ensures
        r == came_back(files, outcomes@, i as int),
{
    let mut j: usize = 0;
    while j < stems.len()
        invariant
            i < stems@.len() == files.len(),
            outcomes@.len() == files.len(),
            j <= stems@.len(),
            forall|k: int|
                0 <= k < files.len() ==> (#[trigger] stems@[k])@ == stem_of(files[k].name@),
            forall|k: int|
                0 <= k < j && stem_of((#[trigger] files[k]).name@) == stem_of(
                    files[i as int].name@,
                ) ==> outcomes@[k],
        decreases stems@.len() - j,
    {
        let same = text::same_text(stems[j].as_str(), stems[i].as_str());
        assert(same == (stem_of(files[j as int].name@) == stem_of(files[i as int].name@)));
        if same && !outcomes[j] {
            return false;
        }
        j = j + 1;
    }
    true
}

/// Sum up the attempts to move the files of a request back. A recording is restored when all its
/// files came back. A file that is gone counts as failed; the others stay restored.
pub fn restore_report(files: &Vec<MovedFile>, outcomes: &Vec<bool>) -> (r: RestoreReport)
    requires
        files@.len() == outcomes@.len() <= u32::MAX,
    ensures
        r.restored == recordings_back(files@, outcomes@, files@.len() as int),
        r.failed == failures(outcomes@),
{
    let mut stems: Vec<String> = Vec::new();
    let mut i: usize = 0;
    while i < files.len()
        invariant
            i <= files@.len(),
            stems@.len() == i,
            forall|j: int| 0 <= j < i ==> (#[trigger] stems@[j])@ == stem_of(files@[j].name@),
        decreases files@.len() - i,
    {
        stems.push(stem_text(files[i].name.as_str()));
        i = i + 1;
    }
    let mut restored: u32 = 0;
    let mut failed: u32 = 0;
    let mut i: usize = 0;
    while i < outcomes.len()
        invariant
            i <= outcomes@.len() == files@.len() <= u32::MAX,
            stems@.len() == files@.len(),
            forall|j: int|
                0 <= j < files@.len() ==> (#[trigger] stems@[j])@ == stem_of(files@[j].name@),
            restored == recordings_back(files@, outcomes@, i as int),
            restored <= i,
            failed == failures(outcomes@.take(i as int)),
            failed <= i,
        decreases outcomes@.len() - i,
    {
        assert(outcomes@.take(i + 1).drop_last() =~= outcomes@.take(i as int));
        if is_first(&stems, i, Ghost(files@)) && is_back(&stems, outcomes, i, Ghost(files@)) {
            restored = restored + 1;
        }
        if !outcomes[i] {
            failed = failed + 1;
        }
        i = i + 1;
    }
    assert(outcomes@.take(outcomes@.len() as int) =~= outcomes@);
    RestoreReport { restored, failed }
}

/// What the host does next for a deletion.
pub enum DeleteAction {
    /// Go on with the next recording.
    Continue,
    /// Make sure that there is a directory for files which can be restored; tell whether it lies in
    /// the directory of the recordings.
    PreparePending,
    /// Look at the file of this name.
    Resolve(String),
    /// Move the file aside that is being moved.
    Move,
    /// Move these files back, and go on with the next recording.
    RollBack(Vec<MovedFile>),
    /// Every recording has been dealt with.
    Report,
}

/// The extension of the files of a recording, audio first.
pub open spec fn extension(i: usize) -> Seq<char> {
    if i == 0 {
        "wav"@
    } else {
        "json"@
    }
}

/// A deletion in progress.
pub struct SoftDelete {
    pub filenames: Vec<String>,
    /// The recording that is being dealt with.
    pub at: usize,
    /// Which of its files is being dealt with.
    pub ext: usize,
    /// The file that is being moved.
    pub moving: Option<MovedFile>,
    /// The files of this recording that were moved.
    pub pair_moved: Vec<MovedFile>,
    pub moved: u32,
    pub failed: Vec<FailedDelete>,
    /// The files of the deleted recordings.
    pub pairs: Vec<MovedFile>,
}

/// A name is that of a file of a recording in the list.
pub open spec fn asked_for(filenames: Seq<String>, name: Seq<char>) -> bool {
    exists|k: int, i: usize|
        0 <= k < filenames.len() && names::valid_stem(filenames[k]@) && name
            == #[trigger] names::file_of(filenames[k]@, extension(i))
}

impl SoftDelete {
    /// Every recording that was dealt with is either deleted or failed; only files of the recordings
    /// that the deletion was asked for are moved, and those of the recording that is being dealt with
    /// are kept apart.
    pub open spec fn wf(self) -> bool {
        &&& self.filenames@.len() <= u32::MAX
        &&& self.at <= self.filenames@.len()
        &&& self.moved + self.failed@.len() == self.at
        &&& forall|i: int|
            0 <= i < self.pairs@.len() ==> asked_for(
                self.filenames@,
                (#[trigger] self.pairs@[i]).name@,
            )
        &&& forall|i: int|
            0 <= i < self.pair_moved@.len() ==> asked_for(
                self.filenames@,
                (#[trigger] self.pair_moved@[i]).name@,
            )
        &&& self.moving matches Some(m) ==> asked_for(self.filenames@, m.name@)
    }

    /// The files that are aside: those of the deleted recordings, and those of the recording that is
    /// being dealt with.
    pub open spec fn aside(self) -> Seq<MovedFile> {
        self.pairs@ + self.pair_moved@
    }

    pub fn new(filenames: Vec<String>) -> (s: Self)
        requires
            filenames@.len() <= u32::MAX,
        ensures
            s.wf(),
            s.filenames == filenames,
            s.at == 0,
            s.ext == 0,
            s.moving is None,
            s.pair_moved@.len() == 0,
            s.moved == 0,
            s.failed@.len() == 0,
            s.pairs@.len() == 0,
    {
        SoftDelete {
            filenames,
            at: 0,
            ext: 0,
            moving: None,
            pair_moved: Vec::new(),
            moved: 0,
            failed: Vec::new(),
            pairs: Vec::new(),
        }
    }

    /// The recording is not deleted: it is listed as failed, and nothing of it counts as moved.
    pub open spec fn gave_up(self, after: Self, error: Seq<char>) -> bool {
        &&& after.filenames == self.filenames
        &&& after.at == self.at + 1
        &&& after.ext == 0
        &&& after.moving is None
        &&& after.pair_moved@.len() == 0
        &&& after.moved == self.moved
        &&& after.pairs == self.pairs
        &&& after.failed@.len() == self.failed@.len() + 1
        &&& after.failed@.drop_last() == self.failed@
        &&& after.failed@.last().filename@ == self.filenames@[self.at as int]@
        &&& after.failed@.last().error@ == error
    }

    /// The recording is deleted: it counts, and its files can be restored.
    pub open spec fn deleted(self, after: Self, files: Seq<MovedFile>) -> bool {
        &&& after.filenames == self.filenames
        &&& after.at == self.at + 1
        &&& after.ext == 0
        &&& after.moving is None
        &&& after.pair_moved@.len() == 0
        &&& after.moved == self.moved + 1
        &&& after.failed == self.failed
        &&& after.pairs@ == self.pairs@ + files
    }

    /// The next file of the recording is looked at; after the last one the recording is deleted.
    pub open spec fn moves_on(self, after: Self, files: Seq<MovedFile>, action: DeleteAction) -> bool {
        if self.ext == 0 {
            &&& after == (SoftDelete {
                ext: 1,
                moving: None,
                pair_moved: after.pair_moved,
                ..self
            })
            &&& after.pair_moved@ == files
            &&& action matches DeleteAction::Resolve(name)
            &&& name@ == names::file_of(self.filenames@[self.at as int]@, "json"@)
        } else {
            &&& self.deleted(after, files)
            &&& action is Continue
        }
    }

    fn give_up(&mut self, error: String) -> (files: Vec<MovedFile>)
        requires
            old(self).wf(),
            old(self).at < old(self).filenames@.len(),
        ensures
            final(self).wf(),
            old(self).gave_up(*final(self), error@),
            files == old(self).pair_moved,
    {
        let filename = self.filenames[self.at].clone();
        self.failed.push(FailedDelete { filename, error });
        assert(self.failed@.drop_last() =~= old(self).failed@);
        self.at = self.at + 1;
        self.ext = 0;
        self.moving = None;
        let mut files: Vec<MovedFile> = Vec::new();
        std::mem::swap(&mut files, &mut self.pair_moved);
        files
    }

    fn next_file(&mut self) -> (action: DeleteAction)
        requires
            old(self).wf(),
            old(self).at < old(self).filenames@.len(),
            old(self).moving is None,
        ensures
            final(self).wf(),
            old(self).moves_on(*final(self), old(self).pair_moved@, action),
    {
        if self.ext == 0 {
            self.ext = 1;
            return DeleteAction::Resolve(file_name(self.filenames[self.at].as_str(), "json"));
        }
        self.moved = self.moved + 1;
        self.at = self.at + 1;
        self.ext = 0;
        let mut files: Vec<MovedFile> = Vec::new();
        std::mem::swap(&mut files, &mut self.pair_moved);
        self.pairs.append(&mut files);
        DeleteAction::Continue
    }

    /// Take up the next recording. A name that is not that of a recording fails at once.
    pub fn begin_stem(&mut self) -> (action: DeleteAction)
        requires
            old(self).wf(),
        ensures
            final(self).wf(),
            old(self).at == old(self).filenames@.len() ==> {
                &&& *final(self) == *old(self)
                &&& action is Report
            },
            old(self).at < old(self).filenames@.len() ==> if names::valid_stem(
                old(self).filenames@[old(self).at as int]@,
            ) {
                &&& *final(self) == *old(self)
                &&& action is PreparePending
            } else {
                &&& old(self).gave_up(*final(self), "文件名不合法"@)
                &&& action is Continue
            },
    {
        if self.at >= self.filenames.len() {
            return DeleteAction::Report;
        }
        if !is_valid_stem(self.filenames[self.at].as_str()) {
            self.give_up("文件名不合法".to_owned());
            return DeleteAction::Continue;
        }
        DeleteAction::PreparePending
    }

    /// The directory for files that can be restored is there and lies in that of the recordings, or
    /// not.
    pub fn pending_prepared(&mut self, prepared: Result<bool, IoFault>) -> (action: DeleteAction)
        requires
            old(self).wf(),
        ensures
            final(self).wf(),
            old(self).at == old(self).filenames@.len() ==> {
                &&& *final(self) == *old(self)
                &&& action is Report
            },
            old(self).at < old(self).filenames@.len() ==> match prepared {
                Ok(true) => {
                    &&& *final(self) == (SoftDelete { ext: 0, ..*old(self) })
                    &&& action matches DeleteAction::Resolve(name)
                    &&& name@ == names::file_of(
                        old(self).filenames@[old(self).at as int]@,
                        "wav"@,
                    )
                },
                Ok(false) => {
                    &&& old(self).gave_up(
                        *final(self),
                        names::io_advice(
                            IoKind::Other,
                            "pending dir escapes base (junction?)"@,
                        ),
                    )
                    &&& action is Continue
                },
                Err(e) => {
                    &&& old(self).gave_up(*final(self), names::io_advice(e.kind, e.message@))
                    &&& action is Continue
                },
            },
    {
        if self.at >= self.filenames.len() {
            return DeleteAction::Report;
        }
        match prepared {
            Ok(inside) => {
                if inside {
                    self.ext = 0;
                    DeleteAction::Resolve(file_name(self.filenames[self.at].as_str(), "wav"))
                } else {
                    let e = IoFault {
                        kind: IoKind::Other,
                        message: "pending dir escapes base (junction?)".to_owned(),
                    };
                    self.give_up(friendly_io_error(&e));
                    DeleteAction::Continue
                }
            },
            Err(e) => {
                self.give_up(friendly_io_error(&e));
                DeleteAction::Continue
            },
        }
    }

    /// A file of the recording has been looked at: one that leads out of the directory fails the
    /// recording, one that is not there is passed over, any other is moved aside. A recording is
    /// deleted as a whole or not at all, so what was moved of a failed one is moved back.
    pub fn child_resolved(&mut self, probe: ChildProbe) -> (action: DeleteAction)
        requires
            old(self).wf(),
        ensures
            final(self).wf(),
            old(self).at == old(self).filenames@.len() ==> {
                &&& *final(self) == *old(self)
                &&& action is Report
            },
            old(self).at < old(self).filenames@.len() ==> {
                let stem = old(self).filenames@[old(self).at as int]@;
                let outside = probe.canonical matches Some((_, false));
                if !names::valid_stem(stem) || outside {
                    &&& old(self).gave_up(*final(self), "文件名不合法"@)
                    &&& action == DeleteAction::RollBack(old(self).pair_moved)
                } else if !probe.exists {
                    (SoftDelete { moving: None, ..*old(self) }).moves_on(
                        *final(self),
                        old(self).pair_moved@,
                        action,
                    )
                } else {
                    &&& final(self).moving matches Some(m)
                    &&& *final(self) == (SoftDelete { moving: Some(m), ..*old(self) })
                    &&& m.orig == (match probe.canonical {
                        Some((path, _)) => path,
                        None => probe.plain,
                    })
                    &&& m.name@ == names::file_of(stem, extension(old(self).ext))
                    &&& action is Move
                }
            },
    {
        if self.at >= self.filenames.len() {
            return DeleteAction::Report;
        }
        let exists = probe.exists;
        match resolve_child(self.filenames[self.at].as_str(), probe) {
            Err(e) => {
                let advice = friendly_delete_error(&e);
                let files = self.give_up(advice);
                DeleteAction::RollBack(files)
            },
            Ok(orig) => {
                if !exists {
                    self.moving = None;
                    return self.next_file();
                }
                let name = if self.ext == 0 {
                    file_name(self.filenames[self.at].as_str(), "wav")
                } else {
                    file_name(self.filenames[self.at].as_str(), "json")
                };
                assert(name@ == names::file_of(
                    self.filenames@[self.at as int]@,
                    extension(self.ext),
                ));
                self.moving = Some(MovedFile { orig, name });
                DeleteAction::Move
            },
        }
    }

    /// The file that was being moved has been moved, or not. A failure fails the recording, and its
    /// files are moved back.
    pub fn file_moved(&mut self, outcome: Result<(), IoFault>) -> (action: DeleteAction)
        requires
            old(self).wf(),
        ensures
            final(self).wf(),
            old(self).at == old(self).filenames@.len() ==> {
                &&& *final(self) == *old(self)
                &&& action is Report
            },
            old(self).at < old(self).filenames@.len() ==> match outcome {
                Err(e) => {
                    &&& old(self).gave_up(*final(self), names::io_advice(e.kind, e.message@))
                    &&& action == DeleteAction::RollBack(old(self).pair_moved)
                },
                Ok(_) => {
                    let files = match old(self).moving {
                        Some(m) => old(self).pair_moved@.push(m),
                        None => old(self).pair_moved@,
                    };
                    (SoftDelete { moving: None, ..*old(self) }).moves_on(
                        *final(self),
                        files,
                        action,
                    )
                },
            },
    {
        if self.at >= self.filenames.len() {
            return DeleteAction::Report;
        }
        match outcome {
            Err(e) => {
                let files = self.give_up(friendly_io_error(&e));
                DeleteAction::RollBack(files)
            },
            Ok(_) => {
                if let Some(m) = self.moving.take() {
                    self.pair_moved.push(m);
                }
                self.next_file()
            },
        }
    }

    /// Report a deletion. Where files were moved aside, it can be undone.
    pub fn soft_delete_recordings(self, pending: &mut PendingDeletes) -> (b: SoftDeleteBatch)
        ensures
            b.moved == self.moved,
            b.failed == self.failed,
            self.pairs@.len() == 0 ==> {
                &&& b.id == 0
                &&& final(pending)@ == old(pending)@
                &&& final(pending).upcoming() == old(pending).upcoming()
            },
            self.pairs@.len() > 0 ==> {
                &&& b.id == old(pending).upcoming()
                &&& final(pending)@ == old(pending)@.insert(
                    b.id,
                    PendingEntry { pairs: self.pairs },
                )
                &&& final(pending).upcoming() == id_after(b.id)
            },
    {
        let id: u64 = if self.pairs.len() > 0 {
            pending.schedule(self.pairs)
        } else {
            0
        };
        SoftDeleteBatch { id, moved: self.moved, failed: self.failed }
    }
}

/// Whether a file that was left behind by an earlier run may be removed: only files of recordings.
pub open spec fn sweepable(name: Seq<char>) -> bool {
    names::is_file_of_recording(name, "wav"@) || names::is_file_of_recording(name, "json"@)
}

/// The files that may be removed.
pub open spec fn swept(files: Seq<String>) -> Seq<String>
    decreases files.len(),
{
    if files.len() == 0 {
        seq![]
    } else if sweepable(files.last()@) {
        swept(files.drop_last()).push(files.last())
    } else {
        swept(files.drop_last())
    }
}

/// The files left behind by an earlier run that are to be removed, given what the host found in the
/// directory for files that can be restored and whether it lies in that of the recordings. Nothing
/// is removed where no directory is configured.
pub fn sweep_pending_dir(path_str: &str, inside: bool, files: &Vec<String>) -> (v: Vec<String>)
    ensures
        v@ == (if path_str@.len() > 0 && inside {
            swept(files@)
        } else {
            Seq::<String>::empty()
        }),
{
    let mut v: Vec<String> = Vec::new();
    if path_str.is_empty() || !inside {
        return v;
    }
    let mut i: usize = 0;
    while i < files.len()
        invariant
            i <= files@.len(),
            v@ == swept(files@.take(i as int)),
        decreases files@.len() - i,
    {
        assert(files@.take(i + 1).drop_last() =~= files@.take(i as int));
        let name = files[i].as_str();
        if recording_stem(name, "wav").is_some() || recording_stem(name, "json").is_some() {
            v.push(files[i].clone());
        }
        i = i + 1;
    }
    assert(files@.take(files@.len() as int) =~= files@);
    v
}

/// Of every recording that a deletion was asked for, it is told in the end whether it was deleted.
pub proof fn every_recording_is_accounted_for(s: SoftDelete)
    requires
        s.wf(),
        s.at == s.filenames@.len(),
    ensures
        s.moved + s.failed@.len() == s.filenames@.len(),
{
}

/// Only files of the recordings that a deletion was asked for are ever aside.
pub proof fn only_what_was_asked_for_is_deleted(s: SoftDelete, i: int)
    requires
        s.wf(),
        0 <= i < s.aside().len(),
    ensures
        asked_for(s.filenames@, s.aside()[i].name@),
{
    if i < s.pairs@.len() {
        assert(s.aside()[i] == s.pairs@[i]);
    } else {
        assert(s.aside()[i] == s.pair_moved@[i - s.pairs@.len()]);
    }
}

/// A recording is deleted as a whole or not at all: when it is given up, the files that are moved
/// back are all that was aside of it; when it is deleted, all that was moved of it stays aside.
pub proof fn recordings_are_deleted_whole_or_not_at_all(
    before: SoftDelete,
    after: SoftDelete,
    error: Seq<char>,
    files: Seq<MovedFile>,
)
    ensures
        before.gave_up(after, error) ==> after.aside() + before.pair_moved@ == before.aside(),
        before.deleted(after, files) ==> after.aside() == before.pairs@ + files,
{
    if before.gave_up(after, error) {
        assert(after.aside() =~= before.pairs@);
    }
    if before.deleted(after, files) {
        assert(after.aside() =~= before.pairs@ + files);
    }
}

/// A request is undone or finalized once: whoever comes second finds nothing.
pub proof fn requests_are_taken_once(pending: Map<u64, PendingEntry>, id: u64)
    ensures
        !pending.remove(id).contains_key(id),
        pending.remove(id).remove(id) == pending.remove(id),
{
    assert(pending.remove(id).remove(id) =~= pending.remove(id));
}

/// Undoing one request leaves the others.
pub proof fn requests_are_independent(pending: Map<u64, PendingEntry>, id: u64, other: u64)
    requires
        id != other,
        pending.contains_key(other),
    ensures
        pending.remove(id).contains_key(other),
        pending.remove(id)[other] == pending[other],
{
}

/// What was scheduled comes back when it is undone.
pub proof fn undoing_returns_what_was_deleted(
    pending: Map<u64, PendingEntry>,
    id: u64,
    entry: PendingEntry,
)
    ensures
        pending.insert(id, entry).contains_key(id),
        pending.insert(id, entry)[id] == entry,
        !pending.contains_key(id) ==> pending.insert(id, entry).remove(id) == pending,
{
    assert(!pending.contains_key(id) ==> pending.insert(id, entry).remove(id) =~= pending);
}

/// A recording counts once, whether it has one file or two: where the files of one recording came
/// back, one recording is restored; where one of them did not, none is.
pub proof fn a_recording_counts_once(files: Seq<MovedFile>, outcomes: Seq<bool>)
    requires
        files.len() > 0,
        outcomes.len() == files.len(),
        forall|i: int|
            0 <= i < files.len() ==> stem_of((#[trigger] files[i]).name@) == stem_of(files[0].name@),
    ensures
        recordings_back(files, outcomes, files.len() as int) == (if outcomes.contains(false) {
            0nat
        } else {
            1
        }),
{
    counted_at_its_first_file(files, outcomes, files.len() as int);
    if outcomes.contains(false) {
        let k = choose|k: int| 0 <= k < outcomes.len() && outcomes[k] == false;
        assert(stem_of(files[k].name@) == stem_of(files[0].name@));
        assert(!came_back(files, outcomes, 0));
    } else {
        assert forall|j: int| 0 <= j < files.len() implies outcomes[j] by {
            assert(outcomes.contains(outcomes[j]));
        }
        assert(came_back(files, outcomes, 0));
    }
}

/// One of the files belongs to the recording.
pub open spec fn has_file(files: Seq<MovedFile>, stem: Seq<char>) -> bool {
    exists|j: int| 0 <= j < files.len() && stem_of((#[trigger] files[j]).name@) == stem
}

/// The files are those of these recordings: each belongs to one of them, and each of them has one.
pub open spec fn grouped_into(files: Seq<MovedFile>, stems: Seq<Seq<char>>) -> bool {
    &&& stems.no_duplicates()
    &&& forall|j: int|
        0 <= j < files.len() ==> stems.contains(stem_of((#[trigger] files[j]).name@))
    &&& forall|i: int| 0 <= i < stems.len() ==> has_file(files, #[trigger] stems[i])
}

/// The files are the audio and the metadata of each of these recordings, in their order.
pub open spec fn whole_recordings(files: Seq<MovedFile>, stems: Seq<Seq<char>>) -> bool {
    &&& stems.no_duplicates()
    &&& files.len() == 2 * stems.len()
    &&& forall|i: int|
        0 <= i < stems.len() ==> {
            &&& files[2 * i].name@ == names::file_of(#[trigger] stems[i], extension(0))
            &&& files[2 * i + 1].name@ == names::file_of(stems[i], extension(1))
        }
}

/// Where every file came back, as many recordings are restored as the files belong to.
pub proof fn every_recording_comes_back(
    files: Seq<MovedFile>,
    outcomes: Seq<bool>,
    stems: Seq<Seq<char>>,
)
    requires
        outcomes.len() == files.len(),
        forall|i: int| 0 <= i < outcomes.len() ==> outcomes[i],
        grouped_into(files, stems),
    ensures
        recordings_back(files, outcomes, files.len() as int) == stems.len(),
        failures(outcomes) == 0,
{
    let n = files.len() as int;
    let all = stems_among(files, n);
    recordings_are_counted(files, outcomes, n);
    assert forall|s: Seq<char>| #[trigger] all.contains(s) == stems.to_set().contains(s) by {
        belongs_to_a_file(files, n, s);
        if stems.contains(s) {
            let i = choose|i: int| 0 <= i < stems.len() && stems[i] == s;
            assert(stems[i] == s);
        }
    }
    assert(all =~= stems.to_set());
    stems.unique_seq_to_set();
    no_failures(outcomes);
}

/// A batch of whole recordings is restored as a whole: where every file came back, all its
/// recordings are restored, and the request is used up.
pub proof fn a_whole_batch_is_restored(
    pending: Map<u64, PendingEntry>,
    id: u64,
    stems: Seq<Seq<char>>,
    outcomes: Seq<bool>,
)
    requires
        pending.contains_key(id),
        whole_recordings(pending[id].pairs@, stems),
        outcomes.len() == pending[id].pairs@.len(),
        forall|i: int| 0 <= i < outcomes.len() ==> outcomes[i],
    ensures
        recordings_back(pending[id].pairs@, outcomes, outcomes.len() as int) == stems.len(),
        failures(outcomes) == 0,
        !pending.remove(id).contains_key(id),
{
    let files = pending[id].pairs@;
    assert forall|j: int| 0 <= j < files.len() implies stems.contains(
        stem_of((#[trigger] files[j]).name@),
    ) by {
        let i = j / 2;
        assert(stems[i] == stems[i]);
        files_belong_to_their_recording(stems[i], 0);
        files_belong_to_their_recording(stems[i], 1);
        assert(j == 2 * i || j == 2 * i + 1);
    }
    assert forall|i: int| 0 <= i < stems.len() implies has_file(files, #[trigger] stems[i]) by {
        files_belong_to_their_recording(stems[i], 0);
        assert(stem_of(files[2 * i].name@) == stems[i]);
    }
    every_recording_comes_back(files, outcomes, stems);
}

/// A deletion that finds both files of each recording keeps a batch of whole recordings, as many as
/// it counts: deleting one more adds that one, and giving one up changes nothing.
pub proof fn deleted_recordings_stay_whole(
    before: SoftDelete,
    after: SoftDelete,
    stems: Seq<Seq<char>>,
    stem: Seq<char>,
    files: Seq<MovedFile>,
    error: Seq<char>,
)
    requires
        whole_recordings(before.pairs@, stems),
        before.moved == stems.len(),
    ensures
        before.deleted(after, files) && whole_recordings(files, seq![stem]) && !stems.contains(stem)
            ==> whole_recordings(after.pairs@, stems.push(stem)) && after.moved == stems.push(
            stem,
        ).len(),
        before.gave_up(after, error) ==> whole_recordings(after.pairs@, stems) && after.moved
            == stems.len(),
{
    if before.deleted(after, files) && whole_recordings(files, seq![stem]) && !stems.contains(
        stem,
    ) {
        let longer = stems.push(stem);
        assert(seq![stem][0] == stem);
        assert forall|i: int| 0 <= i < longer.len() implies {
            &&& after.pairs@[2 * i].name@ == names::file_of(#[trigger] longer[i], extension(0))
            &&& after.pairs@[2 * i + 1].name@ == names::file_of(longer[i], extension(1))
        } by {
            if i < stems.len() {
                assert(longer[i] == stems[i]);
            }
        }
    }
}

/// The names of the recordings that the first `n` files belong to.
spec fn stems_among(files: Seq<MovedFile>, n: int) -> Set<Seq<char>>
    decreases n,
{
    if n <= 0 {
        Set::empty()
    } else {
        stems_among(files, n - 1).insert(stem_of(files[n - 1].name@))
    }
}

proof fn belongs_to_a_file(files: Seq<MovedFile>, n: int, s: Seq<char>)
    requires
        0 <= n <= files.len(),
    ensures
        stems_among(files, n).contains(s) <==> exists|j: int|
            0 <= j < n && stem_of((#[trigger] files[j]).name@) == s,
    decreases n,
{
    if n > 0 {
        belongs_to_a_file(files, n - 1, s);
        if stem_of(files[n - 1].name@) == s {
            assert(0 <= n - 1 < n);
        }
    }
}

proof fn recordings_are_counted(files: Seq<MovedFile>, outcomes: Seq<bool>, n: int)
    requires
        0 <= n <= files.len(),
        outcomes.len() == files.len(),
        forall|i: int| 0 <= i < outcomes.len() ==> outcomes[i],
    ensures
        stems_among(files, n).finite(),
        recordings_back(files, outcomes, n) == stems_among(files, n).len(),
    decreases n,
{
    if n > 0 {
        recordings_are_counted(files, outcomes, n - 1);
        let s = stem_of(files[n - 1].name@);
        belongs_to_a_file(files, n - 1, s);
        assert(came_back(files, outcomes, n - 1));
        assert(first_of_recording(files, n - 1) <==> !stems_among(files, n - 1).contains(s));
    }
}

proof fn no_failures(outcomes: Seq<bool>)
    requires
        forall|i: int| 0 <= i < outcomes.len() ==> outcomes[i],
    ensures
        failures(outcomes) == 0,
    decreases outcomes.len(),
{
    if outcomes.len() > 0 {
        assert forall|i: int| 0 <= i < outcomes.len() - 1 implies outcomes.drop_last()[i] by {
            assert(outcomes[i]);
        }
        no_failures(outcomes.drop_last());
        assert(outcomes[outcomes.len() - 1]);
    }
}

/// The files of a recording belong to it.
pub proof fn files_belong_to_their_recording(stem: Seq<char>, i: usize)
    ensures
        stem_of(names::file_of(stem, extension(i))) == stem,
{
    reveal_strlit("wav");
    reveal_strlit("json");
    reveal_strlit(".");
    reveal_with_fuel(last_dot, 6);
    let name = names::file_of(stem, extension(i));
    let dotted = stem + "."@;
    assert(dotted.last() == '.');
    if i == 0 {
        assert(name.drop_last().drop_last().drop_last() =~= dotted);
    } else {
        assert(name.drop_last().drop_last().drop_last().drop_last() =~= dotted);
    }
    assert(name.take(stem.len() as int) =~= stem);
}

proof fn counted_at_its_first_file(files: Seq<MovedFile>, outcomes: Seq<bool>, n: int)
    requires
        1 <= n <= files.len(),
        forall|i: int|
            0 <= i < files.len() ==> stem_of((#[trigger] files[i]).name@) == stem_of(files[0].name@),
    ensures
        recordings_back(files, outcomes, n) == (if came_back(files, outcomes, 0) {
            1nat
        } else {
            0
        }),
    decreases n,
{
    if n == 1 {
        reveal_with_fuel(recordings_back, 2);
        assert(first_of_recording(files, 0));
    } else {
        counted_at_its_first_file(files, outcomes, n - 1);
        assert(stem_of(files[n - 1].name@) == stem_of(files[0].name@));
        assert(!first_of_recording(files, n - 1));
    }
}

/// Only files of recordings are ever removed by a sweep.
pub proof fn a_sweep_removes_only_recordings(files: Seq<String>, i: int)
    requires
        0 <= i < swept(files).len(),
    ensures
        sweepable(swept(files)[i]@),
        files.contains(swept(files)[i]),
    decreases files.len(),
{
    let rest = swept(files.drop_last());
    if sweepable(files.last()@) && i == rest.len() {
        assert(files[files.len() - 1] == swept(files)[i]);
    } else {
        a_sweep_removes_only_recordings(files.drop_last(), i);
        let k = choose|k: int|
            0 <= k < files.drop_last().len() && files.drop_last()[k] == rest[i];
        assert(files[k] == swept(files)[i]);
    }
}

/// A recording both of whose files can be moved is deleted as a whole: it counts once, both files are
/// kept for an undo under their names, and nothing is told as failed.
pub proof fn a_recording_is_deleted_with_both_files(
    s0: &mut SoftDelete,
    a0: DeleteAction,
    s1: &mut SoftDelete,
    a1: DeleteAction,
    s2: &mut SoftDelete,
    wav: ChildProbe,
    a2: DeleteAction,
    s3: &mut SoftDelete,
    a3: DeleteAction,
    s4: &mut SoftDelete,
    json: ChildProbe,
    a4: DeleteAction,
    s5: &mut SoftDelete,
    a5: DeleteAction,
)
    requires
        old(s0).wf(),
        old(s0).at < old(s0).filenames@.len(),
        old(s0).pair_moved@.len() == 0,
        names::valid_stem(old(s0).filenames@[old(s0).at as int]@),
        call_ensures(SoftDelete::begin_stem, (s0,), a0),
        *old(s1) == *final(s0),
        call_ensures(SoftDelete::pending_prepared, (s1, Ok(true)), a1),
        *old(s2) == *final(s1),
        call_ensures(SoftDelete::child_resolved, (s2, wav), a2),
        wav.exists,
        !(wav.canonical matches Some((_, false))),
        *old(s3) == *final(s2),
        call_ensures(SoftDelete::file_moved, (s3, Ok(())), a3),
        *old(s4) == *final(s3),
        call_ensures(SoftDelete::child_resolved, (s4, json), a4),
        json.exists,
        !(json.canonical matches Some((_, false))),
        *old(s5) == *final(s4),
        call_ensures(SoftDelete::file_moved, (s5, Ok(())), a5),
    ensures
        a0 is PreparePending,
        ({
            let stem = old(s0).filenames@[old(s0).at as int]@;
            let n = old(s0).pairs@.len() as int;
            let after = *final(s5);
            &&& a1 matches DeleteAction::Resolve(name) && name@ == stem + ".wav"@
            &&& a2 is Move
            &&& a3 matches DeleteAction::Resolve(name) && name@ == stem + ".json"@
            &&& a4 is Move
            &&& a5 is Continue
            &&& after.at == old(s0).at + 1
            &&& after.moved == old(s0).moved + 1
            &&& after.failed == old(s0).failed
            &&& after.pairs@.len() == n + 2
            &&& after.pairs@.take(n) == old(s0).pairs@
            &&& after.pairs@[n].name@ == stem + ".wav"@
            &&& after.pairs@[n + 1].name@ == stem + ".json"@
            &&& after.pairs@[n].orig == (match wav.canonical {
                Some(c) => c.0,
                None => wav.plain,
            })
            &&& after.pairs@[n + 1].orig == (match json.canonical {
                Some(c) => c.0,
                None => json.plain,
            })
            &&& after.pair_moved@.len() == 0
        }),
{
    reveal_strlit(".");
    reveal_strlit("wav");
    reveal_strlit("json");
    reveal_strlit(".wav");
    reveal_strlit(".json");
    let stem = old(s0).filenames@[old(s0).at as int]@;
    assert(names::file_of(stem, "wav"@) =~= stem + ".wav"@);
    assert(names::file_of(stem, "json"@) =~= stem + ".json"@);
    let n = old(s0).pairs@.len() as int;
    assert(final(s5).pairs@.take(n) =~= old(s0).pairs@);
}

/// Where the second file of a recording cannot be moved, the first is moved back, the recording is
/// told as failed, and nothing of it counts.
pub proof fn a_half_deleted_recording_is_put_back(
    s: &mut SoftDelete,
    e: IoFault,
    action: DeleteAction,
    advice: String,
    t: &mut SoftDelete,
    probe: ChildProbe,
    refusal: DeleteAction,
)
    requires
        old(s).wf(),
        old(s).at < old(s).filenames@.len(),
        call_ensures(SoftDelete::file_moved, (s, Err(e)), action),
        call_ensures(names::friendly_io_error, (&e,), advice),
        old(t).wf(),
        old(t).at < old(t).filenames@.len(),
        call_ensures(SoftDelete::child_resolved, (t, probe), refusal),
        probe.canonical matches Some((_, false)),
    ensures
        action == DeleteAction::RollBack(old(s).pair_moved),
        final(s).pairs == old(s).pairs && final(s).moved == old(s).moved && final(s).at
            == old(s).at + 1 && final(s).pair_moved@.len() == 0,
        final(s).failed@.len() == old(s).failed@.len() + 1,
        final(s).failed@.last().filename@ == old(s).filenames@[old(s).at as int]@,
        final(s).failed@.last().error@ == advice@,
        refusal == DeleteAction::RollBack(old(t).pair_moved),
        final(t).pairs == old(t).pairs && final(t).moved == old(t).moved && final(t).at
            == old(t).at + 1,
        final(t).failed@.len() == old(t).failed@.len() + 1,
{
}

/// A name that is not that of a recording is told as failed and nothing is looked at; when all names
/// have been dealt with, the deletion is reported.
pub proof fn only_recordings_are_deleted(s: &mut SoftDelete, action: DeleteAction)
    requires
        old(s).wf(),
        call_ensures(SoftDelete::begin_stem, (s,), action),
    ensures
        action is Report <==> old(s).at == old(s).filenames@.len(),
        old(s).at < old(s).filenames@.len() ==> (action is PreparePending <==> names::valid_stem(
            old(s).filenames@[old(s).at as int]@,
        )),
        action is Continue ==> final(s).at == old(s).at + 1 && final(s).failed@.len()
            == old(s).failed@.len() + 1 && final(s).failed@.last().filename@
            == old(s).filenames@[old(s).at as int]@ && final(s).pairs == old(s).pairs
            && final(s).moved == old(s).moved,
        !(action is Continue) ==> *final(s) == *old(s),
{
}

/// What was deleted can be undone once, under the handle that was handed out: the undo gives back
/// just the files that were moved, and another one is refused, as is one after the time is over.
pub proof fn a_deletion_is_undone_once(
    s: SoftDelete,
    p: &mut PendingDeletes,
    b: SoftDeleteBatch,
    q: &mut PendingDeletes,
    first: Result<PendingEntry, CommandError>,
    x: &mut PendingDeletes,
    second: Result<PendingEntry, CommandError>,
    y: &mut PendingDeletes,
    late: Vec<String>,
)
    requires
        call_ensures(SoftDelete::soft_delete_recordings, (s, p), b),
        s.pairs@.len() > 0,
        *old(q) == *final(p),
        call_ensures(PendingDeletes::restore_with_id, (q, b.id), first),
        *old(x) == *final(q),
        call_ensures(PendingDeletes::restore_with_id, (x, b.id), second),
        *old(y) == *final(q),
        call_ensures(PendingDeletes::finalize_by_id, (y, b.id), late),
    ensures
        b.moved == s.moved && b.failed == s.failed,
        first is Ok && first->Ok_0.pairs == s.pairs,
        second is Err && second->Err_0.code@ == "VALIDATION"@,
        late@.len() == 0,
{
}

/// Once the time to undo is over, the files of the deletion are removed for good, and it cannot be
/// undone any more; other deletions are left alone.
pub proof fn a_deletion_becomes_final(
    p: &mut PendingDeletes,
    id: u64,
    v: Vec<String>,
    q: &mut PendingDeletes,
    undo: Result<PendingEntry, CommandError>,
    other: u64,
    there: bool,
    i: int,
)
    requires
        call_ensures(PendingDeletes::finalize_by_id, (p, id), v),
        *old(q) == *final(p),
        call_ensures(PendingDeletes::restore_with_id, (q, id), undo),
        other != id,
        call_ensures(PendingDeletes::has_entry, (&*final(p), other), there),
    ensures
        old(p)@.contains_key(id) ==> v@.len() == old(p)@[id].pairs@.len(),
        old(p)@.contains_key(id) && 0 <= i < v@.len() ==> v@[i] == old(p)@[id].pairs@[i].name,
        !old(p)@.contains_key(id) ==> v@.len() == 0,
        undo is Err,
        there <==> old(p)@.contains_key(other),
{
}

/// As many recordings are told as restored as have all their files back, and as many files as failed
/// as did not come back.
pub proof fn restored_recordings_are_those_that_are_whole(
    files: Vec<MovedFile>,
    outcomes: Vec<bool>,
    whole: Seq<Seq<char>>,
    r: RestoreReport,
)
    requires
        call_ensures(restore_report, (&files, &outcomes), r),
        files@.len() == outcomes@.len(),
        files@.len() <= u32::MAX,
        whole.no_duplicates(),
        forall|s: Seq<char>|
            #[trigger] whole.contains(s) <==> has_file(files@, s) && (forall|j: int|
                0 <= j < files@.len() && stem_of((#[trigger] files@[j]).name@) == s
                    ==> outcomes@[j]),
    ensures
        r.restored == whole.len(),
        r.failed == outcomes@.filter(|came: bool| !came).len(),
{
    let n = files@.len() as int;
    whole_recordings_are_counted(files@, outcomes@, n);
    let all = stems_back(files@, outcomes@, n);
    assert forall|s: Seq<char>| #[trigger] all.contains(s) == whole.to_set().contains(s) by {
        back_with_all_files(files@, outcomes@, n, s);
        assert(whole.to_set().contains(s) == whole.contains(s));
    }
    assert(all =~= whole.to_set());
    whole.unique_seq_to_set();
    failures_are_counted(outcomes@);
}

proof fn failures_are_counted(outcomes: Seq<bool>)
    ensures
        failures(outcomes) == outcomes.filter(|came: bool| !came).len(),
    decreases outcomes.len(),
{
    reveal(Seq::filter);
    if outcomes.len() > 0 {
        failures_are_counted(outcomes.drop_last());
    }
}

/// The names of the recordings with a file among the first `n` whose files are all back.
spec fn stems_back(files: Seq<MovedFile>, outcomes: Seq<bool>, n: int) -> Set<Seq<char>>
    decreases n,
{
    if n <= 0 {
        Set::empty()
    } else if came_back(files, outcomes, n - 1) {
        stems_back(files, outcomes, n - 1).insert(stem_of(files[n - 1].name@))
    } else {
        stems_back(files, outcomes, n - 1)
    }
}

proof fn back_with_all_files(files: Seq<MovedFile>, outcomes: Seq<bool>, n: int, s: Seq<char>)
    requires
        0 <= n <= files.len(),
    ensures
        stems_back(files, outcomes, n).contains(s) <==> (exists|j: int|
            0 <= j < n && stem_of((#[trigger] files[j]).name@) == s) && (forall|j: int|
            0 <= j < files.len() && stem_of((#[trigger] files[j]).name@) == s ==> outcomes[j]),
    decreases n,
{
    if n > 0 {
        back_with_all_files(files, outcomes, n - 1, s);
        let last = stem_of(files[n - 1].name@);
        if last == s {
            assert(came_back(files, outcomes, n - 1) <==> (forall|j: int|
                0 <= j < files.len() && stem_of((#[trigger] files[j]).name@) == s
                    ==> outcomes[j]));
        }
    }
}

proof fn whole_recordings_are_counted(files: Seq<MovedFile>, outcomes: Seq<bool>, n: int)
    requires
        0 <= n <= files.len(),
    ensures
        stems_back(files, outcomes, n).finite(),
        recordings_back(files, outcomes, n) == stems_back(files, outcomes, n).len(),
    decreases n,
{
    if n > 0 {
        whole_recordings_are_counted(files, outcomes, n - 1);
        let s = stem_of(files[n - 1].name@);
        back_with_all_files(files, outcomes, n - 1, s);
        if came_back(files, outcomes, n - 1) {
            assert(first_of_recording(files, n - 1) <==> !stems_back(
                files,
                outcomes,
                n - 1,
            ).contains(s));
        }
    }
}

/// What an earlier run left behind is removed if it is a file of a recording, in a directory that
/// is configured and where it should be; all such files are, and no other.
pub proof fn leftovers_of_recordings_are_swept(
    path: &str,
    inside: bool,
    files: Vec<String>,
    v: Vec<String>,
)
    requires
        call_ensures(sweep_pending_dir, (path, inside, &files), v),
    ensures
        path@.len() == 0 || !inside ==> v@.len() == 0,
        path@.len() > 0 && inside ==> v@ == files@.filter(
            |f: String|
                names::is_file_of_recording(f@, "wav"@) || names::is_file_of_recording(
                    f@,
                    "json"@,
                ),
        ),
{
    swept_is_filtered(files@);
}

proof fn swept_is_filtered(files: Seq<String>)
    ensures
        swept(files) == files.filter(
            |f: String|
                names::is_file_of_recording(f@, "wav"@) || names::is_file_of_recording(
                    f@,
                    "json"@,
                ),
        ),
    decreases files.len(),
{
    reveal(Seq::filter);
    if files.len() > 0 {
        swept_is_filtered(files.drop_last());
    } else {
        assert(swept(files) =~= files);
    }
}

/// A file that is not there is passed over: without the audio the note is looked at, and without the
/// note the recording counts as deleted with what was moved of it.
pub proof fn missing_files_are_passed_over(
    s: &mut SoftDelete,
    probe: ChildProbe,
    action: DeleteAction,
)
    requires
        old(s).wf(),
        old(s).at < old(s).filenames@.len(),
        names::valid_stem(old(s).filenames@[old(s).at as int]@),
        !probe.exists,
        !(probe.canonical matches Some((_, false))),
        call_ensures(SoftDelete::child_resolved, (s, probe), action),
    ensures
        old(s).ext == 0 ==> (action matches DeleteAction::Resolve(name) && name@
            == old(s).filenames@[old(s).at as int]@ + ".json"@) && final(s).at == old(s).at
            && final(s).pair_moved@ == old(s).pair_moved@ && final(s).pairs == old(s).pairs,
        old(s).ext != 0 ==> action is Continue && final(s).at == old(s).at + 1 && final(s).moved
            == old(s).moved + 1 && final(s).pairs@ == old(s).pairs@ + old(s).pair_moved@,
        final(s).failed == old(s).failed,
{
    reveal_strlit(".");
    reveal_strlit("json");
    reveal_strlit(".json");
    let stem = old(s).filenames@[old(s).at as int]@;
    assert(names::file_of(stem, "json"@) =~= stem + ".json"@);
}

/// Nothing is moved into a directory that cannot be made or leads elsewhere: the recording fails.
pub proof fn files_are_only_moved_into_their_own_directory(
    s: &mut SoftDelete,
    prepared: Result<bool, IoFault>,
    action: DeleteAction,
)
    requires
        old(s).wf(),
        old(s).at < old(s).filenames@.len(),
        call_ensures(SoftDelete::pending_prepared, (s, prepared), action),
    ensures
        action is Resolve <==> prepared is Ok && prepared->Ok_0,
        action is Continue <==> !(prepared is Ok && prepared->Ok_0),
        action is Continue ==> final(s).at == old(s).at + 1 && final(s).failed@.len()
            == old(s).failed@.len() + 1 && final(s).moved == old(s).moved && final(s).pairs
            == old(s).pairs,
        action is Resolve ==> final(s).at == old(s).at && final(s).failed == old(s).failed,
{
}

/// Two deletions have two handles, and undoing one leaves the other.
pub proof fn deletions_are_undone_one_by_one(
    p: &mut PendingDeletes,
    a: Vec<MovedFile>,
    first: u64,
    q: &mut PendingDeletes,
    b: Vec<MovedFile>,
    second: u64,
    x: &mut PendingDeletes,
    undone: Result<PendingEntry, CommandError>,
    y: &mut PendingDeletes,
    other: Result<PendingEntry, CommandError>,
    taken: &mut PendingDeletes,
    id: u64,
    entry: Option<PendingEntry>,
)
    requires
        call_ensures(PendingDeletes::schedule, (p, a), first),
        *old(q) == *final(p),
        call_ensures(PendingDeletes::schedule, (q, b), second),
        *old(x) == *final(q),
        call_ensures(PendingDeletes::restore_with_id, (x, first), undone),
        *old(y) == *final(x),
        call_ensures(PendingDeletes::restore_with_id, (y, second), other),
        call_ensures(PendingDeletes::take_entry, (taken, id), entry),
    ensures
        first != second,
        undone is Ok && undone->Ok_0.pairs == a,
        other is Ok && other->Ok_0.pairs == b,
        entry is Some <==> old(taken)@.contains_key(id),
        !final(taken)@.contains_key(id),
{
}

} // verus!
