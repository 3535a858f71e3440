//! Listing saved recordings and measuring what they take.

use crate::commands::data_management::names;
use crate::commands::data_management::names::{recording_stem, IoFault, IoKind};
use crate::config::schema;
use crate::data_saving;
use crate::data_saving::RecordingMetadata;
use crate::error;
use crate::error::CommandError;
use crate::order;
use crate::order::stable_order;
use crate::text;
use vstd::prelude::*;

verus! {

/// A file in the directory of the recordings, as the host finds it.
pub struct ScannedFile {
    pub name: String,
    pub json_size: u64,
    /// The size of the audio file beside it, 0 where there is none.
    pub wav_size: u64,
    /// What is noted in it; none where it cannot be read.
    pub meta: Option<RecordingMetadata>,
}

/// A recording in a list.
pub struct RecordingEntry {
    /// The name of the recording, e.g. `2026-06-24_14-30-25`.
    pub filename: String,
    pub timestamp: Option<String>,
    pub language: Option<String>,
    pub whisper_model: Option<String>,
    pub duration_ms: Option<u64>,
    pub transcription: Option<String>,
    pub llm_corrected: Option<String>,
    pub final_text: Option<String>,
    /// "classic" or "record_only".
    pub source: String,
    /// "pending", "done" or "failed"; none for recordings of the dictation pipeline.
    pub transcription_status: Option<String>,
    /// The number of audio blocks that were lost.
    pub dropped_blocks: u64,
    /// 0 where there is no audio file.
    pub wav_size: u64,
    pub json_size: u64,
}

fn copy_text(s: &Option<String>) -> (r: Option<String>)
    ensures
        r == *s,
{
    match s {
        Some(t) => Some(t.clone()),
        None => None,
    }
}

impl Clone for RecordingEntry {
    fn clone(&self) -> (r: Self)
        ensures
            r == *self,
    {
        RecordingEntry {
            filename: self.filename.clone(),
            timestamp: copy_text(&self.timestamp),
            language: copy_text(&self.language),
            whisper_model: copy_text(&self.whisper_model),
            duration_ms: self.duration_ms,
            transcription: copy_text(&self.transcription),
            llm_corrected: copy_text(&self.llm_corrected),
            final_text: copy_text(&self.final_text),
            source: self.source.clone(),
            transcription_status: copy_text(&self.transcription_status),
            dropped_blocks: self.dropped_blocks,
            wav_size: self.wav_size,
            json_size: self.json_size,
        }
    }
}

/// A page of a list of recordings.
pub struct RecordingListResponse {
    pub items: Vec<RecordingEntry>,
    /// How many recordings match, on all pages, in 32 bits.
    pub total: u32,
    /// What the matching recordings take in bytes, in 64 bits.
    pub total_bytes: u64,
    pub offset: u32,
    pub limit: u32,
    /// Whether a directory is configured.
    pub path_configured: bool,
}

/// What `str::to_lowercase` makes of a text.
pub uninterp spec fn unicode_lower(text: Seq<char>) -> Seq<char>;

/// `str::to_lowercase` of std. The result depends on the text alone; what the lower-case form of a
/// character is, is not stated.
#[verifier::external_body]
fn lower_case(s: &str) -> (r: String)
    ensures
        r@ == unicode_lower(s@),
{
    s.to_lowercase()
}

/// The text that is searched for, if any: the query without space around it, in lower case.
pub open spec fn search_text(query: Option<Seq<char>>) -> Option<Seq<char>> {
    match query {
        Some(q) => {
            let lowered = unicode_lower(text::trimmed(q));
            if lowered.len() == 0 {
                None
            } else {
                Some(lowered)
            }
        },
        None => None,
    }
}

/// A lowered query is searched for, unless it is empty.
pub fn search_for_lowered(lowered: String) -> (r: Option<String>)
    ensures
        r == (if lowered@.len() == 0 {
            None
        } else {
            Some(lowered)
        }),
{
    if lowered.as_str().is_empty() {
        None
    } else {
        Some(lowered)
    }
}

/// The text that is searched for, if any.
pub fn search_for(query: Option<&str>) -> (r: Option<String>)
    ensures
        data_saving::text_of(r) == search_text(data_saving::str_of(query)),
{
    match query {
        Some(q) => search_for_lowered(lower_case(text::trim(q).as_str())),
        None => None,
    }
}

/// The lower-case form of an optional text.
pub open spec fn lowered_text(field: Option<Seq<char>>) -> Option<Seq<char>> {
    match field {
        Some(t) => Some(unicode_lower(t)),
        None => None,
    }
}

/// Whether the lower-case form of a text holds what is searched for.
pub open spec fn holds(field: Option<String>, q: Seq<char>) -> bool {
    match field {
        Some(t) => text::occurs_in(unicode_lower(t@), q),
        None => false,
    }
}

/// Whether one of the texts of a recording holds what is searched for.
pub open spec fn matches_search(m: RecordingMetadata, query: Option<Seq<char>>) -> bool {
    match query {
        Some(q) => holds(m.transcription, q) || holds(m.llm_corrected, q) || holds(m.final_text, q),
        None => true,
    }
}

fn lowered(field: &Option<String>) -> (r: Option<String>)
    ensures
        data_saving::text_of(r) == lowered_text(data_saving::text_of(*field)),
{
    match field {
        Some(t) => Some(lower_case(t.as_str())),
        None => None,
    }
}

fn lowered_holds(field: &Option<String>, q: &str) -> (r: bool)
    ensures
        r == (field matches Some(t) && text::occurs_in(t@, q@)),
{
    match field {
        Some(t) => text::contains(t.as_str(), q),
        None => false,
    }
}

/// Whether one of three lowered texts holds what is searched for.
pub fn one_holds(
    transcription: &Option<String>,
    llm_corrected: &Option<String>,
    final_text: &Option<String>,
    q: &str,
) -> (r: bool)
    ensures
        r == ((transcription matches Some(t) && text::occurs_in(t@, q@)) || (
        llm_corrected matches Some(t) && text::occurs_in(t@, q@)) || (final_text matches Some(t)
            && text::occurs_in(t@, q@))),
{
    lowered_holds(transcription, q) || lowered_holds(llm_corrected, q) || lowered_holds(
        final_text,
        q,
    )
}

fn is_match(m: &RecordingMetadata, query: Option<&str>) -> (r: bool)
    ensures
        r == matches_search(*m, data_saving::str_of(query)),
{
    match query {
        Some(q) => one_holds(
            &lowered(&m.transcription),
            &lowered(&m.llm_corrected),
            &lowered(&m.final_text),
            q,
        ),
        None => true,
    }
}

/// Whether a file is listed: it is the readable note about a recording, and matches the search.
pub open spec fn listed(f: ScannedFile, query: Option<Seq<char>>) -> bool {
    &&& names::is_file_of_recording(f.name@, "json"@)
    &&& f.meta is Some
    &&& matches_search(f.meta->0, query)
}

/// The files that are listed, in the order in which they were found.
pub open spec fn kept(files: Seq<ScannedFile>, query: Option<Seq<char>>) -> Seq<ScannedFile>
    decreases files.len(),
{
    if files.len() == 0 {
        seq![]
    } else {
        let rest = kept(files.drop_last(), query);
        if listed(files.last(), query) {
            rest.push(files.last())
        } else {
            rest
        }
    }
}

/// The entry of a listed file.
pub open spec fn describes(e: RecordingEntry, f: ScannedFile) -> bool {
    let m = f.meta->0;
    &&& e.filename@ == f.name@.take(names::FILENAME_LEN as int)
    &&& e.timestamp == m.timestamp
    &&& data_saving::text_of(e.language) == (match m.language {
        Some(l) => Some(schema::language_code(l)),
        None => None,
    })
    &&& data_saving::text_of(e.whisper_model) == (match m.whisper_model {
        Some(w) => Some(w.key()),
        None => None,
    })
    &&& e.duration_ms == m.duration_ms
    &&& e.transcription == m.transcription
    &&& e.llm_corrected == m.llm_corrected
    &&& e.final_text == m.final_text
    &&& e.source@ == (match m.source {
        Some(s) => s@,
        None => "classic"@,
    })
    &&& e.transcription_status == m.transcription_status
    &&& e.dropped_blocks == m.dropped_blocks
    &&& e.wav_size == f.wav_size
    &&& e.json_size == f.json_size
}

fn entry_for(stem: String, f: &ScannedFile, m: &RecordingMetadata) -> (e: RecordingEntry)
    requires
        f.meta == Some(*m),
        stem@ == f.name@.take(names::FILENAME_LEN as int),
    ensures
        describes(e, *f),
{
    RecordingEntry {
        filename: stem,
        timestamp: copy_text(&m.timestamp),
        language: match m.language {
            Some(l) => Some(l.code().to_owned()),
            None => None,
        },
        whisper_model: match &m.whisper_model {
            Some(w) => Some(w.to_key()),
            None => None,
        },
        duration_ms: m.duration_ms,
        transcription: copy_text(&m.transcription),
        llm_corrected: copy_text(&m.llm_corrected),
        final_text: copy_text(&m.final_text),
        source: match &m.source {
            Some(s) => s.clone(),
            None => "classic".to_owned(),
        },
        transcription_status: copy_text(&m.transcription_status),
        dropped_blocks: m.dropped_blocks,
        wav_size: f.wav_size,
        json_size: f.json_size,
    }
}

/// What recordings take in bytes.
pub open spec fn entry_bytes(v: Seq<RecordingEntry>) -> nat
    decreases v.len(),
{
    if v.len() == 0 {
        0
    } else {
        entry_bytes(v.drop_last()) + v.last().json_size as nat + v.last().wav_size as nat
    }
}

/// The entries of the listed files, in the order in which they were found.
pub fn collect(files: &Vec<ScannedFile>, query: Option<&str>) -> (v: Vec<RecordingEntry>)
    ensures
        v@.len() == kept(files@, data_saving::str_of(query)).len(),
        forall|k: int|
            0 <= k < v@.len() ==> describes(
                #[trigger] v@[k],
                kept(files@, data_saving::str_of(query))[k],
            ),
{
    let ghost q = data_saving::str_of(query);
    let mut v: Vec<RecordingEntry> = Vec::new();
    let mut i: usize = 0;
    while i < files.len()
        invariant
            i <= files@.len(),
            q == data_saving::str_of(query),
            v@.len() == kept(files@.take(i as int), q).len(),
            forall|k: int|
                0 <= k < v@.len() ==> describes(
                    #[trigger] v@[k],
                    kept(files@.take(i as int), q)[k],
                ),
        decreases files@.len() - i,
    {
        let f = &files[i];
        let ghost upto = files@.take(i + 1);
        assert(upto.drop_last() =~= files@.take(i as int));
        assert(upto.last() == *f);
        if let Some(stem) = recording_stem(f.name.as_str(), "json") {
            if let Some(m) = &f.meta {
                if is_match(m, query) {
                    let e = entry_for(stem, f, m);
                    v.push(e);
                    assert(kept(upto, q) == kept(upto.drop_last(), q).push(*f));
                }
            }
        }
        i = i + 1;
    }
    assert(files@.take(files@.len() as int) =~= files@);
    v
}

/// The text by which recordings are ordered: the time of the recording, or its name, which tells
/// the time too.
pub open spec fn order_key(e: RecordingEntry) -> Seq<char> {
    match e.timestamp {
        Some(t) => t@,
        None => e.filename@,
    }
}

/// The entries at the given positions come newest first; entries of the same time keep the order of
/// their positions.
pub open spec fn newest_order(v: Seq<RecordingEntry>, p: Seq<usize>) -> bool {
    forall|i: int, j: int|
        0 <= i < j < p.len() ==> {
            let a = order_key(v[(#[trigger] p[i]) as int]);
            let b = order_key(v[(#[trigger] p[j]) as int]);
            order::stands_before(b, a) || (a == b && p[i] < p[j])
        }
}

/// `r` holds the entries of `v`, each once, newest first.
pub open spec fn arranged(v: Seq<RecordingEntry>, r: Seq<RecordingEntry>) -> bool {
    exists|p: Seq<usize>|
        {
            &&& #[trigger] order::lists_all(p, v.len())
            &&& newest_order(v, p)
            &&& r == Seq::new(v.len(), |i: int| v[p[i] as int])
        }
}

/// Order recordings newest first.
pub fn newest_first(v: Vec<RecordingEntry>) -> (r: Vec<RecordingEntry>)
    ensures
        arranged(v@, r@),
        r@.len() == v@.len(),
{
    let mut keys: Vec<String> = Vec::new();
    let mut i: usize = 0;
    while i < v.len()
        invariant
            i <= v@.len(),
            keys@.len() == i,
            forall|k: int| 0 <= k < i ==> (#[trigger] keys@[k])@ == order_key(v@[k]),
        decreases v@.len() - i,
    {
        let key = match &v[i].timestamp {
            Some(t) => t.clone(),
            None => v[i].filename.clone(),
        };
        keys.push(key);
        i = i + 1;
    }
    let p = stable_order(&keys, true);
    let mut r: Vec<RecordingEntry> = Vec::new();
    let mut j: usize = 0;
    while j < p.len()
        invariant
            j <= p@.len(),
            p@.len() == v@.len(),
            order::lists_all(p@, v@.len()),
            r@.len() == j,
            forall|k: int| 0 <= k < j ==> #[trigger] r@[k] == v@[p@[k] as int],
        decreases p@.len() - j,
    {
        r.push(v[p[j]].clone());
        j = j + 1;
    }
    assert(newest_order(v@, p@)) by {
        assert forall|a: int, b: int| 0 <= a < b < p@.len() implies ({
            let x = order_key(v@[(#[trigger] p@[a]) as int]);
            let y = order_key(v@[(#[trigger] p@[b]) as int]);
            order::stands_before(y, x) || (x == y && p@[a] < p@[b])
        }) by {
            assert(keys@[p@[a] as int]@ == order_key(v@[p@[a] as int]));
            assert(keys@[p@[b] as int]@ == order_key(v@[p@[b] as int]));
        }
    }
    assert(r@ =~= Seq::new(v@.len(), |k: int| v@[p@[k] as int]));
    r
}

/// What became of reading the directory of the recordings: a directory that is not there or may not
/// be read counts as empty.
pub open spec fn unreadable(e: IoFault) -> bool {
    !(e.kind == IoKind::NotFound || e.kind == IoKind::PermissionDenied)
}

fn read_failed(e: &IoFault) -> (c: CommandError)
    ensures
        c.says("IO"@, "failed to read data_saving_path: "@ + e.message@),
{
    let message = "failed to read data_saving_path: ".to_owned().concat(e.message.as_str());
    CommandError::new("IO", message.as_str())
}

fn is_unreadable(e: &IoFault) -> (r: bool)
    ensures
        r == unreadable(*e),
{
    match e.kind {
        IoKind::NotFound | IoKind::PermissionDenied => false,
        _ => true,
    }
}

/// The recordings of a directory that match a search, newest first. A file that cannot be read is
/// left out.
pub fn scan_and_collect(read: &Result<Vec<ScannedFile>, IoFault>, query_lower: Option<&str>) -> (r:
    Result<Vec<RecordingEntry>, CommandError>)
    ensures
        match *read {
            Err(e) => if unreadable(e) {
                error::refused(r, "IO"@, "failed to read data_saving_path: "@ + e.message@)
            } else {
                r matches Ok(v) && v@.len() == 0
            },
            Ok(files) => {
                &&& r matches Ok(v)
                &&& exists|found: Seq<RecordingEntry>|
                    #![trigger arranged(found, v@)]
                    arranged(found, v@) && lists(found, files@, data_saving::str_of(query_lower))
            },
        },
{
    match read {
        Err(e) => {
            if is_unreadable(e) {
                Err(read_failed(e))
            } else {
                Ok(Vec::new())
            }
        },
        Ok(files) => {
            let found = collect(files, query_lower);
            let ghost all = found@;
            let v = newest_first(found);
            assert(lists(all, files@, data_saving::str_of(query_lower)));
            let answer: Result<Vec<RecordingEntry>, CommandError> = Ok(v);
            assert(arranged(all, answer->Ok_0@));
            answer
        },
    }
}

/// The entries are those of the listed files, in the order in which they were found.
pub open spec fn lists(
    found: Seq<RecordingEntry>,
    files: Seq<ScannedFile>,
    query: Option<Seq<char>>,
) -> bool {
    &&& found.len() == kept(files, query).len()
    &&& forall|k: int|
        0 <= k < found.len() ==> describes(#[trigger] found[k], kept(files, query)[k])
}

/// The page of a list that begins at an offset and holds at most so many items.
pub open spec fn page(all: Seq<RecordingEntry>, offset: nat, limit: nat) -> Seq<RecordingEntry> {
    if offset >= all.len() {
        seq![]
    } else if offset + limit <= all.len() {
        all.subrange(offset as int, (offset + limit) as int)
    } else {
        all.skip(offset as int)
    }
}

fn page_of(all: &Vec<RecordingEntry>, offset: u32, limit: u32) -> (v: Vec<RecordingEntry>)
    ensures
        v@ == page(all@, offset as nat, limit as nat),
{
    let len: usize = all.len();
    let from: usize = offset as usize;
    let mut v: Vec<RecordingEntry> = Vec::new();
    if from < len {
        let to: usize = if limit as usize <= len - from {
            from + limit as usize
        } else {
            len
        };
        let mut i: usize = from;
        while i < to
            invariant
                from <= i <= to <= all@.len(),
                v@ == all@.subrange(from as int, i as int),
            decreases to - i,
        {
            v.push(all[i].clone());
            i = i + 1;
        }
        assert(v@ =~= page(all@, offset as nat, limit as nat));
    }
    v
}

fn bytes_of(v: &Vec<RecordingEntry>) -> (n: u64)
    ensures
        n == entry_bytes(v@) % 0x1_0000_0000_0000_0000,
{
    let mut n: u64 = 0;
    let mut i: usize = 0;
    while i < v.len()
        invariant
            i <= v@.len(),
            n == entry_bytes(v@.take(i as int)) % 0x1_0000_0000_0000_0000,
        decreases v@.len() - i,
    {
        assert(v@.take(i + 1).drop_last() =~= v@.take(i as int));
        n = n.wrapping_add(v[i].json_size).wrapping_add(v[i].wav_size);
        i = i + 1;
    }
    assert(v@.take(v@.len() as int) =~= v@);
    n
}

/// The response without recordings.
pub open spec fn empty_list(
    r: RecordingListResponse,
    offset: u32,
    limit: u32,
    path_configured: bool,
) -> bool {
    &&& r.items@.len() == 0
    &&& r.total == 0
    &&& r.total_bytes == 0
    &&& r.offset == offset
    &&& r.limit == limit
    &&& r.path_configured == path_configured
}

/// The response with a page of the recordings found.
pub open spec fn page_list(
    r: RecordingListResponse,
    found: Seq<RecordingEntry>,
    all: Seq<RecordingEntry>,
    offset: u32,
    limit: u32,
) -> bool {
    &&& arranged(found, all)
    &&& r.items@ == page(all, offset as nat, limit as nat)
    &&& r.total == all.len() % 0x1_0000_0000
    &&& r.total_bytes == entry_bytes(found) % 0x1_0000_0000_0000_0000
    &&& r.offset == offset
    &&& r.limit == limit
    &&& r.path_configured
}

/// A page of the recordings that match a search, given the directory and what the host found in it.
/// A page must have room for something.
pub fn list_saved_recordings(
    path_str: &str,
    base: Result<Option<String>, CommandError>,
    read: &Result<Vec<ScannedFile>, IoFault>,
    offset: u32,
    limit: u32,
    query: Option<&str>,
) -> (r: Result<RecordingListResponse, CommandError>)
    ensures
        limit == 0 ==> error::refused(r, "VALIDATION"@, "limit must be > 0"@),
        limit > 0 ==> match base {
            Err(e) => r == Err::<RecordingListResponse, CommandError>(e),
            Ok(None) => r is Ok && empty_list(r->Ok_0, offset, limit, path_str@.len() > 0),
            Ok(Some(_)) => match *read {
                Err(e) => if unreadable(e) {
                    error::refused(r, "IO"@, "failed to read data_saving_path: "@ + e.message@)
                } else {
                    r is Ok && empty_list(r->Ok_0, offset, limit, true)
                },
                Ok(files) => {
                    &&& r is Ok
                    &&& exists|found: Seq<RecordingEntry>, all: Seq<RecordingEntry>|
                        {
                            &&& #[trigger] page_list(r->Ok_0, found, all, offset, limit)
                            &&& lists(found, files@, search_text(data_saving::str_of(query)))
                        }
                },
            },
        },
{
    if limit == 0 {
        return Err(CommandError::validation("limit must be > 0"));
    }
    let wanted = search_for(query);
    let there = match base {
        Err(e) => {
            return Err(e);
        },
        Ok(None) => false,
        Ok(Some(_)) => true,
    };
    if !there {
        return Ok(
            RecordingListResponse {
                items: Vec::new(),
                total: 0,
                total_bytes: 0,
                offset,
                limit,
                path_configured: !path_str.is_empty(),
            },
        );
    }
    match read {
        Err(e) => {
            if is_unreadable(e) {
                Err(read_failed(e))
            } else {
                Ok(
                    RecordingListResponse {
                        items: Vec::new(),
                        total: 0,
                        total_bytes: 0,
                        offset,
                        limit,
                        path_configured: true,
                    },
                )
            }
        },
        Ok(files) => {
            let wanted = match &wanted {
                Some(w) => Some(w.as_str()),
                None => None,
            };
            let found = collect(files, wanted);
            let ghost before = found@;
            let total_bytes: u64 = bytes_of(&found);
            let all = newest_first(found);
            let items = page_of(&all, offset, limit);
            let count: u64 = all.len() as u64;
            assert(count as u32 == count % 0x1_0000_0000) by (bit_vector);
            let response = RecordingListResponse {
                items,
                total: count as u32,
                total_bytes,
                offset,
                limit,
                path_configured: true,
            };
            assert(lists(before, files@, search_text(data_saving::str_of(query))));
            let answer: Result<RecordingListResponse, CommandError> = Ok(response);
            assert(page_list(answer->Ok_0, before, all@, offset, limit));
            answer
        },
    }
}

/// What the saved recordings take.
pub struct DataUsage {
    pub total_bytes: u64,
    pub recording_count: u32,
}

/// A file of the directory of the recordings, with its size.
pub struct SizedFile {
    pub name: String,
    pub size: u64,
    /// Whether there is a file of the same name with the extension `json`.
    pub json_sibling: bool,
}

/// Whether a file counts: it is the note about a recording, or audio that has one.
pub open spec fn counts(f: SizedFile) -> bool {
    names::is_file_of_recording(f.name@, "json"@) || (names::is_file_of_recording(
        f.name@,
        "wav"@,
    ) && f.json_sibling)
}

/// What the files that count take in bytes.
pub open spec fn used_bytes(files: Seq<SizedFile>) -> nat
    decreases files.len(),
{
    if files.len() == 0 {
        0
    } else {
        used_bytes(files.drop_last()) + (if counts(files.last()) {
            files.last().size as nat
        } else {
            0
        })
    }
}

/// How many notes about recordings there are.
pub open spec fn noted(files: Seq<SizedFile>) -> nat
    decreases files.len(),
{
    if files.len() == 0 {
        0
    } else {
        noted(files.drop_last()) + (if names::is_file_of_recording(files.last().name@, "json"@) {
            1nat
        } else {
            0
        })
    }
}

/// A number, or the limit where it lies above it.
pub open spec fn capped(n: nat, limit: nat) -> nat {
    if n <= limit {
        n
    } else {
        limit
    }
}

/// What the saved recordings take, given the directory and what the host found in it.
pub fn get_data_usage(
    base: Result<Option<String>, CommandError>,
    read: &Result<Vec<SizedFile>, IoFault>,
) -> (r: Result<DataUsage, CommandError>)
    ensures
        match base {
            Err(e) => r == Err::<DataUsage, CommandError>(e),
            Ok(None) => r is Ok && r->Ok_0 == (DataUsage { total_bytes: 0, recording_count: 0 }),
            Ok(Some(_)) => match *read {
                Err(e) => if unreadable(e) {
                    error::refused(r, "IO"@, "failed to read data_saving_path: "@ + e.message@)
                } else {
                    r is Ok && r->Ok_0 == (DataUsage { total_bytes: 0, recording_count: 0 })
                },
                Ok(files) => {
                    &&& r is Ok
                    &&& r->Ok_0.total_bytes == capped(used_bytes(files@), u64::MAX as nat)
                    &&& r->Ok_0.recording_count == capped(noted(files@), u32::MAX as nat)
                },
            },
        },
{
    match base {
        Err(e) => {
            return Err(e);
        },
        Ok(None) => {
            return Ok(DataUsage { total_bytes: 0, recording_count: 0 });
        },
        Ok(Some(_)) => {},
    }
    let files = match read {
        Err(e) => {
            if is_unreadable(e) {
                return Err(read_failed(e));
            }
            return Ok(DataUsage { total_bytes: 0, recording_count: 0 });
        },
        Ok(files) => files,
    };
    let mut total_bytes: u64 = 0;
    let mut recording_count: u32 = 0;
    let mut i: usize = 0;
    while i < files.len()
        invariant
            i <= files@.len(),
            total_bytes == capped(used_bytes(files@.take(i as int)), u64::MAX as nat),
            recording_count == capped(noted(files@.take(i as int)), u32::MAX as nat),
        decreases files@.len() - i,
    {
        let f = &files[i];
        assert(files@.take(i + 1).drop_last() =~= files@.take(i as int));
        assert(files@.take(i + 1).last() == *f);
        let is_json = recording_stem(f.name.as_str(), "json").is_some();
        let is_wav = recording_stem(f.name.as_str(), "wav").is_some();
        if is_json || (is_wav && f.json_sibling) {
            total_bytes = total_bytes.saturating_add(f.size);
            if is_json {
                recording_count = recording_count.saturating_add(1);
            }
        }
        i = i + 1;
    }
    assert(files@.take(files@.len() as int) =~= files@);
    Ok(DataUsage { total_bytes, recording_count })
}

/// In a list that was ordered newest first, no recording stands before a newer one.
pub proof fn listings_are_newest_first(
    found: Seq<RecordingEntry>,
    all: Seq<RecordingEntry>,
    i: int,
    j: int,
)
    requires
        arranged(found, all),
        0 <= i < j < all.len(),
    ensures
        !order::stands_before(order_key(all[i]), order_key(all[j])),
{
    let p = choose|p: Seq<usize>|
        {
            &&& #[trigger] order::lists_all(p, found.len())
            &&& newest_order(found, p)
            &&& all == Seq::new(found.len(), |k: int| found[p[k] as int])
        };
    let a = order_key(found[p[i] as int]);
    let b = order_key(found[p[j] as int]);
    assert(all[i] == found[p[i] as int] && all[j] == found[p[j] as int]);
    order::order_is_total(a, b);
}

/// Two pages that follow each other hold what one page of their joint size holds.
pub proof fn pages_join_up(all: Seq<RecordingEntry>, offset: nat, n: nat, m: nat)
    ensures
        page(all, offset, n) + page(all, offset + n, m) == page(all, offset, n + m),
{
    assert(page(all, offset, n) + page(all, offset + n, m) =~= page(all, offset, n + m));
}

/// A note about a recording that can be read: the file is named after a recording, with the
/// extension `json`.
pub open spec fn readable_note(f: ScannedFile) -> bool {
    &&& f.meta is Some
    &&& f.name@.len() == 24
    &&& names::valid_stem(f.name@.take(19))
    &&& f.name@.skip(19) == ".json"@
}

/// A text is there and holds what is searched for, in lower case.
pub open spec fn found_in(field: Option<String>, q: Seq<char>) -> bool {
    field is Some && text::occurs_in(unicode_lower(field->0@), q)
}

/// The entries tell of the files at the given places, each once and in that order: what the note
/// says of the recording, and the sizes of its files.
pub open spec fn tells_of(
    files: Seq<ScannedFile>,
    entries: Seq<RecordingEntry>,
    places: Seq<int>,
) -> bool {
    &&& places.len() == entries.len()
    &&& places.no_duplicates()
    &&& forall|k: int|
        0 <= k < places.len() ==> {
            let f = files[#[trigger] places[k]];
            let m = f.meta->0;
            let e = entries[k];
            &&& 0 <= places[k] < files.len()
            &&& readable_note(f)
            &&& e.filename@ == f.name@.take(19)
            &&& e.timestamp == m.timestamp
            &&& e.transcription == m.transcription
            &&& e.llm_corrected == m.llm_corrected
            &&& e.final_text == m.final_text
            &&& e.duration_ms == m.duration_ms
            &&& e.transcription_status == m.transcription_status
            &&& e.dropped_blocks == m.dropped_blocks
            &&& e.source@ == (if m.source is Some {
                m.source->0@
            } else {
                "classic"@
            })
            &&& e.language is Some == m.language is Some
            &&& e.language is Some ==> e.language->0@ == schema::language_code(m.language->0)
            &&& e.whisper_model is Some == m.whisper_model is Some
            &&& e.whisper_model is Some ==> e.whisper_model->0@ == m.whisper_model->0.key()
            &&& e.wav_size == f.wav_size
            &&& e.json_size == f.json_size
        }
}

/// The time of a recording as it is compared: what is noted, or the name where nothing is.
pub open spec fn noted_time(e: RecordingEntry) -> Seq<char> {
    if e.timestamp is Some {
        e.timestamp->0@
    } else {
        e.filename@
    }
}

/// The entries come newest first; those of the same time in the order in which they were found.
pub open spec fn newest_come_first(entries: Seq<RecordingEntry>, places: Seq<int>) -> bool {
    forall|i: int, j: int|
        0 <= i < j < entries.len() ==> {
            &&& !order::stands_before(
                noted_time(#[trigger] entries[i]),
                noted_time(#[trigger] entries[j]),
            )
            &&& noted_time(entries[i]) == noted_time(entries[j]) ==> places[i] < places[j]
        }
}

/// A search finds a readable note by each of its three texts alone: the transcription, the corrected
/// text and the final text. What it finds holds what is searched for in one of them.
pub open spec fn finds_by_each_text(
    files: Seq<ScannedFile>,
    query: Option<Seq<char>>,
    places: Seq<int>,
) -> bool {
    &&& forall|i: int|
        0 <= i < files.len() && readable_note(#[trigger] files[i]) && query is None
            ==> places.contains(i)
    &&& forall|i: int|
        0 <= i < files.len() && readable_note(#[trigger] files[i]) && query is Some && found_in(
            files[i].meta->0.transcription,
            query->0,
        ) ==> places.contains(i)
    &&& forall|i: int|
        0 <= i < files.len() && readable_note(#[trigger] files[i]) && query is Some && found_in(
            files[i].meta->0.llm_corrected,
            query->0,
        ) ==> places.contains(i)
    &&& forall|i: int|
        0 <= i < files.len() && readable_note(#[trigger] files[i]) && query is Some && found_in(
            files[i].meta->0.final_text,
            query->0,
        ) ==> places.contains(i)
    &&& forall|k: int|
        0 <= k < places.len() && query is Some ==> {
            let m = files[#[trigger] places[k]].meta->0;
            ||| found_in(m.transcription, query->0)
            ||| found_in(m.llm_corrected, query->0)
            ||| found_in(m.final_text, query->0)
        }
}

/// The entries are all that a search finds among the files, each once, newest first.
pub open spec fn found_newest_first(
    files: Seq<ScannedFile>,
    query: Option<Seq<char>>,
    entries: Seq<RecordingEntry>,
    places: Seq<int>,
) -> bool {
    &&& tells_of(files, entries, places)
    &&& finds_by_each_text(files, query, places)
    &&& newest_come_first(entries, places)
}

proof fn notes_are_json_files(f: ScannedFile)
    ensures
        readable_note(f) <==> f.meta is Some && names::is_file_of_recording(f.name@, "json"@),
{
    reveal_strlit("json");
    reveal_strlit(".json");
    reveal_strlit(".");
    let n = f.name@;
    if n.len() == 24 {
        let stem = n.take(19);
        assert(n =~= stem + n.skip(19));
        if n.skip(19) == ".json"@ {
            assert(names::file_of(stem, "json"@) =~= stem + ".json"@);
        }
        if n == names::file_of(stem, "json"@) {
            assert(n.skip(19) =~= ".json"@);
        }
    }
}

proof fn places_of_kept(files: Seq<ScannedFile>, query: Option<Seq<char>>) -> (f: Seq<int>)
    ensures
        f.len() == kept(files, query).len(),
        forall|i: int, j: int| 0 <= i < j < f.len() ==> #[trigger] f[i] < #[trigger] f[j],
        forall|k: int|
            0 <= k < f.len() ==> 0 <= #[trigger] f[k] < files.len() && listed(files[f[k]], query)
                && kept(files, query)[k] == files[f[k]],
        forall|i: int|
            0 <= i < files.len() && listed(#[trigger] files[i], query) ==> f.contains(i),
    decreases files.len(),
{
    if files.len() == 0 {
        seq![]
    } else {
        let n = files.len() - 1;
        let before = files.drop_last();
        let g = places_of_kept(before, query);
        let last = files.last();
        let f = if listed(last, query) {
            g.push(n)
        } else {
            g
        };
        assert forall|k: int| 0 <= k < f.len() implies 0 <= #[trigger] f[k] < files.len() && listed(
            files[f[k]],
            query,
        ) && kept(files, query)[k] == files[f[k]] by {
            if k < g.len() {
                assert(f[k] == g[k]);
                assert(before[g[k]] == files[g[k]]);
            }
        }
        assert forall|i: int| 0 <= i < files.len() && listed(#[trigger] files[i], query) implies f.contains(
            i,
        ) by {
            if i < n {
                assert(before[i] == files[i]);
                let w = choose|w: int| 0 <= w < g.len() && g[w] == i;
                assert(f[w] == i);
            } else {
                assert(f[f.len() - 1] == i);
            }
        }
        assert forall|i: int, j: int| 0 <= i < j < f.len() implies #[trigger] f[i]
            < #[trigger] f[j] by {
            assert(f[i] == g[i]);
            if j < g.len() {
                assert(f[j] == g[j]);
            }
        }
        f
    }
}

proof fn arranged_entries_have_places(
    files: Seq<ScannedFile>,
    query: Option<Seq<char>>,
    found: Seq<RecordingEntry>,
    all: Seq<RecordingEntry>,
) -> (places: Seq<int>)
    requires
        lists(found, files, query),
        arranged(found, all),
    ensures
        found_newest_first(files, query, all, places),
        entry_bytes(all) == entry_bytes(found),
        all.len() == found.len(),
{
    let f = places_of_kept(files, query);
    let p = choose|p: Seq<usize>|
        {
            &&& #[trigger] order::lists_all(p, found.len())
            &&& newest_order(found, p)
            &&& all == Seq::new(found.len(), |k: int| found[p[k] as int])
        };
    rearranging_keeps_the_sum(found, p, all);
    let places = Seq::new(p.len(), |k: int| f[p[k] as int]);
    assert forall|k: int| 0 <= k < places.len() implies {
        let x = files[#[trigger] places[k]];
        let m = x.meta->0;
        let e = all[k];
        &&& 0 <= places[k] < files.len()
        &&& readable_note(x)
        &&& e.filename@ == x.name@.take(19)
        &&& e.timestamp == m.timestamp
        &&& e.transcription == m.transcription
        &&& e.llm_corrected == m.llm_corrected
        &&& e.final_text == m.final_text
        &&& e.duration_ms == m.duration_ms
        &&& e.transcription_status == m.transcription_status
        &&& e.dropped_blocks == m.dropped_blocks
        &&& e.source@ == (if m.source is Some {
            m.source->0@
        } else {
            "classic"@
        })
        &&& e.language is Some == m.language is Some
        &&& e.language is Some ==> e.language->0@ == schema::language_code(m.language->0)
        &&& e.whisper_model is Some == m.whisper_model is Some
        &&& e.whisper_model is Some ==> e.whisper_model->0@ == m.whisper_model->0.key()
        &&& e.wav_size == x.wav_size
        &&& e.json_size == x.json_size
        &&& listed(x, query)
    } by {
        let c = p[k] as int;
        assert(p[k] < found.len());
        assert(places[k] == f[c]);
        assert(describes(found[c], kept(files, query)[c]));
        notes_are_json_files(files[f[c]]);
    }
    assert(places.no_duplicates()) by {
        assert forall|i: int, j: int| 0 <= i < places.len() && 0 <= j < places.len() && i != j implies places[i]
            != places[j] by {
            assert(p[i] < found.len() && p[j] < found.len());
            if i < j {
                assert(p[i] != p[j]);
            } else {
                assert(p[j] != p[i]);
            }
            let (a, b) = (p[i] as int, p[j] as int);
            assert(places[i] == f[a] && places[j] == f[b]);
            if a < b {
                assert(f[a] < f[b]);
            } else {
                assert(f[b] < f[a]);
            }
        }
    }
    assert forall|i: int| 0 <= i < files.len() && listed(#[trigger] files[i], query) implies places.contains(
        i,
    ) by {
        let c = choose|c: int| 0 <= c < f.len() && f[c] == i;
        order::every_position_is_listed(p, found.len(), c);
        let j = choose|j: int| 0 <= j < p.len() && #[trigger] p[j] == c;
        assert(places[j] == i);
    }
    assert forall|i: int| 0 <= i < files.len() && readable_note(#[trigger] files[i]) implies (
    listed(files[i], query) <==> matches_search(files[i].meta->0, query)) by {
        notes_are_json_files(files[i]);
    }
    assert(finds_by_each_text(files, query, places)) by {
        assert forall|k: int| 0 <= k < places.len() && query is Some implies {
            let m = files[#[trigger] places[k]].meta->0;
            ||| found_in(m.transcription, query->0)
            ||| found_in(m.llm_corrected, query->0)
            ||| found_in(m.final_text, query->0)
        } by {
            assert(listed(files[places[k]], query));
        }
    }
    assert forall|i: int, j: int| 0 <= i < j < all.len() implies {
        &&& !order::stands_before(
            noted_time(#[trigger] all[i]),
            noted_time(#[trigger] all[j]),
        )
        &&& noted_time(all[i]) == noted_time(all[j]) ==> places[i] < places[j]
    } by {
        let (a, b) = (p[i] as int, p[j] as int);
        assert(p[i] < found.len() && p[j] < found.len());
        assert(all[i] == found[a] && all[j] == found[b]);
        order::order_is_total(noted_time(all[i]), noted_time(all[j]));
        assert(order_key(found[a]) == noted_time(all[i]));
        assert(order_key(found[b]) == noted_time(all[j]));
        assert(places[i] == f[a] && places[j] == f[b]);
    }
    places
}

/// A search lists every readable note that holds what is searched for in its transcription, its
/// corrected text or its final text, each once and no other, newest first.
pub proof fn a_search_finds_by_each_text(
    read: Result<Vec<ScannedFile>, IoFault>,
    query: Option<&str>,
    r: Result<Vec<RecordingEntry>, CommandError>,
)
    requires
        call_ensures(scan_and_collect, (&read, query), r),
        read is Ok,
    ensures
        r is Ok,
        exists|places: Seq<int>|
            #[trigger] found_newest_first(
                read->Ok_0@,
                data_saving::str_of(query),
                r->Ok_0@,
                places,
            ),
{
    let files = read->Ok_0@;
    let q = data_saving::str_of(query);
    let v = r->Ok_0@;
    let found = choose|found: Seq<RecordingEntry>|
        #![trigger arranged(found, v)]
        arranged(found, v) && lists(found, files, q);
    let places = arranged_entries_have_places(files, q, found, v);
    assert(found_newest_first(files, q, v, places));
}

/// A list of recordings shows a part of all that the search finds, newest first: from the offset on,
/// as many as asked for. It tells how many there are in all and what they take. A query is trimmed
/// and put in lower case; a blank one searches for nothing.
pub proof fn a_list_is_a_part_of_what_is_found(
    path_str: &str,
    base: Option<String>,
    read: Result<Vec<ScannedFile>, IoFault>,
    offset: u32,
    limit: u32,
    query: Option<&str>,
    wanted: Option<Seq<char>>,
    r: Result<RecordingListResponse, CommandError>,
)
    requires
        call_ensures(list_saved_recordings, (path_str, Ok(base), &read, offset, limit, query), r),
        base is Some,
        read is Ok,
        limit > 0,
        wanted == (if query is Some && unicode_lower(text::trimmed(query->0@)).len() > 0 {
            Some(unicode_lower(text::trimmed(query->0@)))
        } else {
            None
        }),
    ensures
        r is Ok,
        r->Ok_0.offset == offset && r->Ok_0.limit == limit && r->Ok_0.path_configured,
        exists|all: Seq<RecordingEntry>, places: Seq<int>|
            {
                &&& #[trigger] found_newest_first(read->Ok_0@, wanted, all, places)
                &&& r->Ok_0.total == all.len() % 0x1_0000_0000
                &&& r->Ok_0.total_bytes == entry_bytes(all) % 0x1_0000_0000_0000_0000
                &&& r->Ok_0.items@.len() <= limit
                &&& forall|k: int|
                    0 <= k < r->Ok_0.items@.len() ==> offset + k < all.len()
                        && #[trigger] r->Ok_0.items@[k] == all[offset + k]
                &&& r->Ok_0.items@.len() < limit ==> offset + r->Ok_0.items@.len() >= all.len()
            },
{
    let files = read->Ok_0@;
    let (found, all) = choose|found: Seq<RecordingEntry>, all: Seq<RecordingEntry>|
        {
            &&& #[trigger] page_list(r->Ok_0, found, all, offset, limit)
            &&& lists(found, files, search_text(data_saving::str_of(query)))
        };
    let places = arranged_entries_have_places(files, wanted, found, all);
    assert(found_newest_first(files, wanted, all, places));
}

/// A list must have room for something; a directory that is not there, or may not be read, holds no
/// recording, and any other failure to read it is told.
pub proof fn lists_of_nothing(
    path_str: &str,
    base: Result<Option<String>, CommandError>,
    read: Result<Vec<ScannedFile>, IoFault>,
    offset: u32,
    limit: u32,
    query: Option<&str>,
    r: Result<RecordingListResponse, CommandError>,
)
    requires
        call_ensures(list_saved_recordings, (path_str, base, &read, offset, limit, query), r),
        base is Err || base->Ok_0 is None || read is Err || limit == 0,
    ensures
        limit == 0 ==> r is Err && r->Err_0.code@ == "VALIDATION"@,
        limit > 0 && base is Err ==> r is Err && r->Err_0 == base->Err_0,
        limit > 0 && base is Ok ==> {
            let missing = base->Ok_0 is None;
            let barred = read is Err && (read->Err_0.kind is NotFound
                || read->Err_0.kind is PermissionDenied);
            &&& r is Ok <==> missing || barred
            &&& r is Ok ==> r->Ok_0.items@.len() == 0 && r->Ok_0.total == 0 && r->Ok_0.total_bytes
                == 0 && r->Ok_0.path_configured == (!missing || path_str@.len() > 0)
            &&& r is Err ==> r->Err_0.code@ == "IO"@
        },
{
}

/// What entries take is what each of their two files takes, summed up.
pub proof fn sizes_add_up(a: Seq<RecordingEntry>, b: Seq<RecordingEntry>, e: RecordingEntry)
    ensures
        entry_bytes(a + b) == entry_bytes(a) + entry_bytes(b),
        entry_bytes(seq![e]) == e.json_size + e.wav_size,
        entry_bytes(Seq::empty()) == 0,
    decreases b.len(),
{
    reveal_with_fuel(entry_bytes, 2);
    assert(seq![e].drop_last() =~= Seq::<RecordingEntry>::empty());
    if b.len() == 0 {
        assert(a + b =~= a);
    } else {
        assert((a + b).drop_last() =~= a + b.drop_last());
        sizes_add_up(a, b.drop_last(), e);
    }
}

proof fn rearranging_keeps_the_sum(
    v: Seq<RecordingEntry>,
    p: Seq<usize>,
    r: Seq<RecordingEntry>,
)
    requires
        order::lists_all(p, v.len()),
        r == Seq::new(v.len(), |i: int| v[p[i] as int]),
    ensures
        entry_bytes(r) == entry_bytes(v),
    decreases v.len(),
{
    if v.len() > 0 {
        let n = v.len() - 1;
        order::every_position_is_listed(p, v.len(), n);
        let j = choose|j: int| 0 <= j < p.len() && #[trigger] p[j] == n;
        let q = p.remove(j);
        let w = v.drop_last();
        let s = r.remove(j);
        assert forall|i: int| 0 <= i < q.len() implies #[trigger] q[i] < n by {
            let x = if i < j {
                i
            } else {
                i + 1
            };
            assert(q[i] == p[x]);
            assert(p[x] < v.len());
            if x < j {
                assert(p[x] != p[j]);
            } else {
                assert(p[j] != p[x]);
            }
        }
        assert forall|i: int, k: int| 0 <= i < k < q.len() implies #[trigger] q[i]
            != #[trigger] q[k] by {
            let x = if i < j {
                i
            } else {
                i + 1
            };
            let y = if k < j {
                k
            } else {
                k + 1
            };
            assert(q[i] == p[x] && q[k] == p[y]);
        }
        assert(s =~= Seq::new(w.len(), |i: int| w[q[i] as int])) by {
            assert forall|i: int| 0 <= i < s.len() implies s[i] == #[trigger] w[q[i] as int] by {
                assert(q[i] < n);
            }
        }
        rearranging_keeps_the_sum(w, q, s);
        let a = r.take(j);
        let b = r.skip(j + 1);
        assert(s =~= a + b);
        assert(r =~= a + seq![r[j]] + b);
        sizes_add_up(a, b, r[j]);
        sizes_add_up(a + seq![r[j]], b, r[j]);
        sizes_add_up(a, seq![r[j]], r[j]);
        assert(r[j] == v.last());
    }
}

/// What recordings take grows, file by file, by the notes about recordings and by the audio that has
/// one; a note counts as a recording. The sums stay at the limits of their ranges.
pub proof fn usage_grows_file_by_file(
    base: String,
    some: Vec<SizedFile>,
    more: Vec<SizedFile>,
    f: SizedFile,
    r: Result<DataUsage, CommandError>,
    s: Result<DataUsage, CommandError>,
)
    requires
        call_ensures(
            get_data_usage,
            (Ok(Some(base)), &Ok::<Vec<SizedFile>, IoFault>(some)),
            r,
        ),
        call_ensures(
            get_data_usage,
            (Ok(Some(base)), &Ok::<Vec<SizedFile>, IoFault>(more)),
            s,
        ),
        more@ == some@.push(f),
    ensures
        r is Ok && s is Ok,
        some@.len() == 0 ==> r->Ok_0.total_bytes == 0 && r->Ok_0.recording_count == 0,
        ({
            let n = f.name@;
            let note = n.len() == 24 && names::valid_stem(n.take(19)) && n.skip(19) == ".json"@;
            let audio = n.len() == 23 && names::valid_stem(n.take(19)) && n.skip(19) == ".wav"@;
            let bytes = r->Ok_0.total_bytes + (if note || (audio && f.json_sibling) {
                f.size as int
            } else {
                0
            });
            let count = r->Ok_0.recording_count + (if note {
                1int
            } else {
                0
            });
            &&& s->Ok_0.total_bytes == (if bytes > u64::MAX {
                u64::MAX as int
            } else {
                bytes
            })
            &&& s->Ok_0.recording_count == (if count > u32::MAX {
                u32::MAX as int
            } else {
                count
            })
        }),
{
    let n = f.name@;
    assert(more@.drop_last() =~= some@);
    notes_and_audio_by_name(n);
}

proof fn notes_and_audio_by_name(n: Seq<char>)
    ensures
        names::is_file_of_recording(n, "json"@) <==> n.len() == 24 && names::valid_stem(n.take(19))
            && n.skip(19) == ".json"@,
        names::is_file_of_recording(n, "wav"@) <==> n.len() == 23 && names::valid_stem(n.take(19))
            && n.skip(19) == ".wav"@,
{
    reveal_strlit("json");
    reveal_strlit(".json");
    reveal_strlit("wav");
    reveal_strlit(".wav");
    reveal_strlit(".");
    let stem = n.take(19);
    if n.len() >= 19 {
        assert(n =~= stem + n.skip(19));
        assert(names::file_of(stem, "json"@) =~= stem + ".json"@);
        assert(names::file_of(stem, "wav"@) =~= stem + ".wav"@);
        if n == names::file_of(stem, "json"@) {
            assert(n.skip(19) =~= ".json"@);
        }
        if n == names::file_of(stem, "wav"@) {
            assert(n.skip(19) =~= ".wav"@);
        }
    }
}

} // verus!
