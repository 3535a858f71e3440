//! Downloading and deleting speech models.
//!
//! Requests and files are the host's.

use crate::commands::actions::{acts, nothing, queue, Act, Action};
use crate::commands::{Content, Field, FieldContent, FieldValue, Payload};
use crate::config::persistence;
use crate::config::schema;
use crate::config::{
    check_whisper_models, scan_custom_models, AppConfig, DownloadMirror, WhisperModel,
    Q8_MODELS_BASE_URL,
};
use crate::error;
use crate::error::CommandError;
use crate::numeric;
use crate::text;
use vstd::prelude::*;

verus! {

/// Which models there are.
pub struct ModelsResponse {
    /// The built-in models, each with whether it has been downloaded.
    pub built_in: Vec<(String, bool)>,
    /// The models that the user has added.
    pub custom: Vec<String>,
}

/// Which models there are, given the files of the models directory.
pub fn get_whisper_models(files: &Vec<String>) -> (r: ModelsResponse)
    ensures
        r.built_in@.len() == 8,
        forall|i: int|
            0 <= i < 8 ==> (#[trigger] r.built_in@[i]).0@ == WhisperModel::built_in()[i].size_name()
                && r.built_in@[i].1 == persistence::listed(
                files@,
                WhisperModel::built_in()[i].file(),
            ),
        persistence::alphabetic(r.custom@),
        persistence::rearranged(r.custom@, files@, persistence::custom_positions(files@)),
{
    ModelsResponse { built_in: check_whisper_models(files), custom: scan_custom_models(files) }
}

/// State of the download.
pub struct DownloadState {
    /// Set to cancel the download.
    pub cancel: bool,
    /// The model that is being downloaded, if any.
    pub active: Option<String>,
}

/// A download that may begin.
pub struct DownloadTarget {
    pub model: WhisperModel,
    pub filename: String,
    /// The name of the file while the download is incomplete.
    pub temp_name: String,
    pub url: String,
}

/// A size is that of a built-in model.
pub open spec fn known_size(size: Seq<char>) -> bool {
    exists|i: int|
        0 <= i < 8 && (#[trigger] WhisperModel::built_in()[i]).size_name() == size
}

/// Where a model is downloaded from: quantized ones have a place of their own.
pub open spec fn model_url(m: WhisperModel, mirror: DownloadMirror) -> Seq<char> {
    (if m is TinyQ8 || m is BaseQ8 || m is SmallQ8 || m is MediumQ8 {
        Q8_MODELS_BASE_URL@
    } else {
        schema::mirror_url(mirror)
    }) + "/"@ + m.file()
}

/// The built-in model of a size.
pub fn model_of_size(size: &str) -> (r: Option<WhisperModel>)
    ensures
        r is Some <==> known_size(size@),
        r matches Some(m) ==> WhisperModel::built_in().contains(m) && m.size_name() == size@,
{
    let all = WhisperModel::all_built_in();
    let mut i: usize = 0;
    while i < all.len()
        invariant
            i <= all@.len(),
            all@ == WhisperModel::built_in(),
            forall|k: int|
                0 <= k < i ==> (#[trigger] WhisperModel::built_in()[k]).size_name() != size@,
        decreases all@.len() - i,
    {
        if text::same_text(all[i].size_str(), size) {
            assert(WhisperModel::built_in()[i as int].size_name() == size@);
            return Some(all[i].clone());
        }
        i = i + 1;
    }
    None
}

impl DownloadState {
    pub fn new() -> (s: Self)
        ensures
            s == (DownloadState { cancel: false, active: None }),
    {
        DownloadState { cancel: false, active: None }
    }

    /// Begin the download of a built-in model: one at a time. A cancellation of an earlier download
    /// is forgotten.
    pub fn begin(&mut self, size: &str, mirror: DownloadMirror) -> (r: Result<
        DownloadTarget,
        CommandError,
    >)
        ensures
            !known_size(size@) ==> {
                &&& error::refused(r, "VALIDATION"@, "unknown model size: "@ + size@)
                &&& *final(self) == *old(self)
            },
            known_size(size@) && old(self).active is Some ==> {
                &&& error::refused(r, "CONFLICT"@, "a download is already in progress"@)
                &&& *final(self) == *old(self)
            },
            known_size(size@) && old(self).active is None ==> {
                &&& !final(self).cancel
                &&& final(self).active matches Some(a)
                &&& a@ == size@
                &&& r matches Ok(t)
                &&& WhisperModel::built_in().contains(t.model)
                &&& t.model.size_name() == size@
                &&& t.filename@ == t.model.file()
                &&& t.temp_name@ == t.model.file() + ".tmp"@
                &&& t.url@ == model_url(t.model, mirror)
            },
    {
        let model = match model_of_size(size) {
            Some(m) => m,
            None => {
                let message = "unknown model size: ".to_owned().concat(size);
                return Err(CommandError::validation(message.as_str()));
            },
        };
        if self.active.is_some() {
            return Err(CommandError::new("CONFLICT", "a download is already in progress"));
        }
        self.cancel = false;
        self.active = Some(size.to_owned());
        let filename = model.filename();
        let base_url = if model.is_q8() {
            Q8_MODELS_BASE_URL
        } else {
            mirror.base_url()
        };
        let url = base_url.to_owned().concat("/").concat(filename.as_str());
        let temp_name = filename.clone().concat(".tmp");
        Ok(DownloadTarget { model, filename, temp_name, url })
    }

    /// The download is over, however it ended.
    pub fn finish(&mut self)
        ensures
            *final(self) == (DownloadState { active: None, ..*old(self) }),
    {
        self.active = None;
    }

    /// Cancel the download: it is given up when its next part arrives.
    pub fn cancel_download(&mut self) -> (r: Result<(), CommandError>)
        ensures
            r is Ok,
            *final(self) == (DownloadState { cancel: true, ..*old(self) }),
    {
        self.cancel = true;
        Ok(())
    }
}

impl Default for DownloadState {
    fn default() -> (s: Self)
        ensures
            s == (DownloadState { cancel: false, active: None }),
    {
        Self::new()
    }
}

/// How much of a download there is, in whole percent up to 255, as double-precision arithmetic
/// gives it: both numbers, their quotient and a hundred times the quotient are rounded to 53 binary
/// digits before the fraction is dropped. What is there of nothing is 255 percent.
pub open spec fn percent(downloaded: nat, total: nat) -> nat {
    let d = numeric::rounded(downloaded, 0x20_0000_0000_0000);
    let t = numeric::rounded(total, 0x20_0000_0000_0000);
    if d == 0 || 128 * d < t {
        0
    } else if t == 0 {
        255
    } else {
        let unit = numeric::binary_unit(128 * d, t);
        let quotient = numeric::nearest_even(128 * d * 0x10_0000_0000_0000, unit);
        let hundredfold = numeric::rounded(100 * quotient, 0x20_0000_0000_0000);
        let whole = hundredfold * (unit / t) / 0x800_0000_0000_0000;
        if whole <= 255 {
            whole
        } else {
            255
        }
    }
}

/// How much of a download there is, in percent.
pub fn percent_of(downloaded: u64, total: u64) -> (p: u8)
    ensures
        p == percent(downloaded as nat, total as nat),
{
    let d: u128 = numeric::round_to_bits(downloaded, 0x20_0000_0000_0000);
    let t: u128 = numeric::round_to_bits(total, 0x20_0000_0000_0000);
    if d == 0 || 128 * d < t {
        return 0;
    }
    if t == 0 {
        return 255;
    }
    let unit: u128 = numeric::find_unit(128 * d, t);
    let quotient: u128 = numeric::round_even(128 * d * 0x10_0000_0000_0000, unit);
    proof {
        let n = (128 * d * 0x10_0000_0000_0000) as int;
        let u = unit as int;
        assert(u * 0x10_0000_0000_0000 <= n < u * 0x20_0000_0000_0000);
        assert(0x10_0000_0000_0000 <= n / u <= 0x20_0000_0000_0000) by (nonlinear_arith)
            requires
                u * 0x10_0000_0000_0000 <= n,
                n < u * 0x20_0000_0000_0000,
                u > 0,
        ;
    }
    let hundredfold: u128 = numeric::round_to_bits(100 * quotient as u64, 0x20_0000_0000_0000);
    let w: u128 = unit / t;
    if w >= 1024 {
        proof {
            assert(hundredfold * w >= 0x320_0000_0000_0000 * 1024) by (nonlinear_arith)
                requires
                    hundredfold >= 0x320_0000_0000_0000,
                    w >= 1024,
            ;
        }
        return 255;
    }
    assert(hundredfold * w <= 0x1_0000_0000_0000_0000 * 1024) by (nonlinear_arith)
        requires
            hundredfold <= 0x1_0000_0000_0000_0000,
            w < 1024,
    ;
    let whole: u128 = hundredfold * w / 0x800_0000_0000_0000;
    if whole <= 255 {
        whole as u8
    } else {
        255
    }
}

/// The event that reports how far a download is.
pub open spec fn download_event(size: Seq<char>, percent: u8, downloaded: u64, total: u64) -> Act {
    Act::Emit(
        "download-progress"@,
        Content::Fields(
            seq![
                ("size"@, FieldContent::Text(size)),
                ("percent"@, FieldContent::Number(percent as u64)),
                ("downloaded"@, FieldContent::Number(downloaded)),
                ("total"@, FieldContent::Number(total)),
            ],
        ),
    )
}

/// What follows once the host has received a part of a model.
pub enum ChunkStep {
    /// Write it down.
    Write,
    /// Remove what there is, and fail.
    Abort(CommandError),
}

/// A part of a model has arrived, or the download was cancelled or broke off.
pub fn chunk_arrived(cancelled: bool, chunk: Result<(), String>) -> (step: ChunkStep)
    ensures
        cancelled ==> (step matches ChunkStep::Abort(e) && e.says(
            "CANCELLED"@,
            "download cancelled"@,
        )),
        !cancelled ==> match chunk {
            Ok(_) => step is Write,
            Err(e) => step matches ChunkStep::Abort(c) && c.says(
                "NETWORK"@,
                "download stream error: "@ + e@,
            ),
        },
{
    if cancelled {
        return ChunkStep::Abort(CommandError::new("CANCELLED", "download cancelled"));
    }
    match chunk {
        Ok(_) => ChunkStep::Write,
        Err(e) => {
            let message = "download stream error: ".to_owned().concat(e.as_str());
            ChunkStep::Abort(CommandError::new("NETWORK", message.as_str()))
        },
    }
}

/// A download in progress.
pub struct Download {
    pub size: String,
    /// The size of the model in bytes, where the server tells.
    pub total: Option<u64>,
    pub downloaded: u64,
    pub last_percent: u8,
}

impl Download {
    pub fn new(size: String, total: Option<u64>) -> (d: Self)
        ensures
            d == (Download { size, total, downloaded: 0, last_percent: 0 }),
    {
        Download { size, total, downloaded: 0, last_percent: 0 }
    }

    /// A part of so many bytes has been written down, or not: progress is reported whenever the
    /// percentage has changed. A failure ends the download.
    pub fn chunk_written(&mut self, len: u64, written: Result<(), String>) -> (r: Result<
        Vec<Action>,
        CommandError,
    >)
        requires
            old(self).downloaded + len <= u64::MAX,
        ensures
            match written {
                Err(e) => {
                    &&& error::refused(r, "IO"@, "write error: "@ + e@)
                    &&& *final(self) == *old(self)
                },
                Ok(_) => {
                    let downloaded = (old(self).downloaded + len) as u64;
                    let p = match old(self).total {
                        Some(total) => percent(downloaded as nat, total as nat),
                        None => old(self).last_percent as nat,
                    };
                    &&& *final(self) == (Download {
                        downloaded,
                        last_percent: p as u8,
                        ..*old(self)
                    })
                    &&& r is Ok
                    &&& acts(r->Ok_0@) == (if p != old(self).last_percent {
                        seq![
                            download_event(
                                old(self).size@,
                                p as u8,
                                downloaded,
                                old(self).total->0,
                            ),
                        ]
                    } else {
                        seq![]
                    })
                },
            },
    {
        if let Err(e) = written {
            let message = "write error: ".to_owned().concat(e.as_str());
            return Err(CommandError::new("IO", message.as_str()));
        }
        self.downloaded = self.downloaded + len;
        let mut v = nothing();
        if let Some(total) = self.total {
            let p: u8 = percent_of(self.downloaded, total);
            if p != self.last_percent {
                self.last_percent = p;
                let fields = vec![
                    Field { name: "size".to_owned(), value: FieldValue::Text(self.size.clone()) },
                    Field { name: "percent".to_owned(), value: FieldValue::Number(p as u64) },
                    Field {
                        name: "downloaded".to_owned(),
                        value: FieldValue::Number(self.downloaded),
                    },
                    Field { name: "total".to_owned(), value: FieldValue::Number(total) },
                ];
                assert(fields@.map_values(|x: Field| (x.name@, x.value@)) =~= seq![
                    ("size"@, FieldContent::Text(self.size@)),
                    ("percent"@, FieldContent::Number(p as u64)),
                    ("downloaded"@, FieldContent::Number(self.downloaded)),
                    ("total"@, FieldContent::Number(total)),
                ]);
                queue(&mut v, Action::Emit("download-progress", Payload::Fields(fields)));
                assert(acts(v@) =~= seq![
                    download_event(self.size@, p, self.downloaded, total),
                ]);
            }
        }
        Ok(v)
    }

    /// The complete model has been given its name, or not.
    pub fn renamed(outcome: Result<(), String>) -> (r: Result<(), CommandError>)
        ensures
            match outcome {
                Ok(_) => r is Ok,
                Err(e) => error::refused(r, "IO"@, "rename failed: "@ + e@),
            },
    {
        match outcome {
            Ok(_) => Ok(()),
            Err(e) => {
                let message = "rename failed: ".to_owned().concat(e.as_str());
                Err(CommandError::new("IO", message.as_str()))
            },
        }
    }
}

/// Whether the model of a configuration is the custom one of this file.
pub open spec fn selects(c: AppConfig, filename: Seq<char>) -> bool {
    c.whisper_model matches WhisperModel::Custom(name) && name@ == filename
}

/// Delete a model that the user has added, given whether there is such a file and what came of
/// removing it. Where it was the selected one, hands out the configuration that is to be saved: the
/// base model takes its place.
pub fn delete_custom_model(
    config: &AppConfig,
    filename: &str,
    present: bool,
    removed: Result<(), String>,
) -> (r: Result<Option<AppConfig>, CommandError>)
    ensures
        WhisperModel::built_in_file(filename@) ==> error::refused(
            r,
            "VALIDATION"@,
            "cannot delete built-in model"@,
        ),
        !WhisperModel::built_in_file(filename@) && !present ==> error::refused(
            r,
            "NOT_FOUND"@,
            "model file not found: "@ + filename@,
        ),
        !WhisperModel::built_in_file(filename@) && present ==> match removed {
            Err(e) => error::refused(r, "IO"@, "failed to delete "@ + filename@ + ": "@ + e@),
            Ok(_) => r is Ok && r->Ok_0 == (if selects(*config, filename@) {
                Some(AppConfig { whisper_model: WhisperModel::Base, ..*config })
            } else {
                None
            }),
        },
{
    if is_built_in_file(filename) {
        return Err(CommandError::validation("cannot delete built-in model"));
    }
    if !present {
        let message = "model file not found: ".to_owned().concat(filename);
        return Err(CommandError::new("NOT_FOUND", message.as_str()));
    }
    if let Err(e) = removed {
        let message = "failed to delete ".to_owned().concat(filename).concat(": ").concat(
            e.as_str(),
        );
        return Err(CommandError::new("IO", message.as_str()));
    }
    if let WhisperModel::Custom(name) = &config.whisper_model {
        if text::same_text(name.as_str(), filename) {
            let mut config = config.clone();
            config.whisper_model = WhisperModel::Base;
            return Ok(Some(config));
        }
    }
    Ok(None)
}

pub fn is_built_in_file(filename: &str) -> (r: bool)
    ensures
        r == WhisperModel::built_in_file(filename@),
{
    let names = WhisperModel::built_in_filenames();
    let mut i: usize = 0;
    while i < names.len()
        invariant
            i <= names@.len(),
            names@.len() == 8,
            forall|k: int|
                0 <= k < 8 ==> (#[trigger] names@[k])@ == WhisperModel::built_in()[k].file(),
            forall|k: int|
                0 <= k < i ==> (#[trigger] WhisperModel::built_in()[k]).file() != filename@,
        decreases names@.len() - i,
    {
        if text::same_text(names[i].as_str(), filename) {
            assert(WhisperModel::built_in()[i as int].file() == filename@);
            return true;
        }
        i = i + 1;
    }
    false
}

/// The share of a download is told in whole percent: no more than is there, and less than one
/// percent below it. (Of sizes up to eight tebibytes, and of no more than the whole.)
pub proof fn the_share_is_told_in_whole_percent(downloaded: u64, total: u64, p: u8)
    requires
        call_ensures(percent_of, (downloaded, total), p),
        downloaded <= total,
        0 < total < 0x800_0000_0000,
    ensures
        p * total <= 100 * downloaded <= (p + 1) * total,
        downloaded == 0 ==> p == 0,
        p <= 100,
{
    let d = downloaded as int;
    let t = total as int;
    let b: int = 0x10_0000_0000_0000;
    if d > 0 && 128 * d >= t {
        let unit = numeric::binary_unit((128 * d) as nat, t as nat) as int;
        let w = shares_have_a_unit((128 * d) as nat, t as nat) as int;
        assert(unit == t * w);
        assert(unit / t == w) by (nonlinear_arith)
            requires
                unit == t * w,
                t > 0,
        ;
        assert(w <= 128) by (nonlinear_arith)
            requires
                t * w <= 128 * d,
                d <= t,
                t > 0,
        ;
        let n = 128 * d * b;
        let q = numeric::nearest_even(n as nat, unit as nat) as int;
        assert(unit > 0) by (nonlinear_arith)
            requires
                unit == t * w,
                t > 0,
                w >= 1,
        ;
        numeric::nearest_is_near(n as nat, unit as nat);
        let h = numeric::rounded((100 * q) as nat, 0x20_0000_0000_0000) as int;
        assert(q < 0x28_0000_0000_0000) by {
            numeric::unit_is_close((128 * d) as nat, t as nat);
            assert(128 * d < 2 * unit);
            assert(2 * (unit * q) <= 2 * n + unit);
            assert(n < 2 * unit * b) by (nonlinear_arith)
                requires
                    n == 128 * d * b,
                    128 * d < 2 * unit,
                    b > 0,
            ;
            assert(q < 0x28_0000_0000_0000) by (nonlinear_arith)
                requires
                    2 * (unit * q) <= 2 * n + unit,
                    n < 2 * unit * b,
                    unit > 0,
                    b == 0x10_0000_0000_0000,
            ;
        }
        rounding_is_slight((100 * q) as nat);
        assert(-256 <= 2 * h - 200 * q <= 256);
        let whole = h * w / 0x800_0000_0000_0000;
        shares_are_close(d, t, w, unit, q, h, whole);
        assert(p == whole);
        assert(p * total == whole * t);
        assert((p + 1) * total == (whole + 1) * t);
    } else {
        assert(p == 0);
        assert(p * total == 0 && (p + 1) * total == total) by (nonlinear_arith)
            requires
                p == 0,
        ;
    }
}

proof fn shares_have_a_unit(v: nat, t: nat) -> (w: nat)
    requires
        0 < t <= v,
    ensures
        numeric::binary_unit(v, t) == t * w,
        w >= 1,
        t * w <= v,
    decreases v - t,
{
    if v < 2 * t {
        assert(t * 1 == t);
        1
    } else {
        let w = shares_have_a_unit(v, 2 * t);
        assert((2 * t) * w == t * (2 * w)) by (nonlinear_arith);
        2 * w
    }
}

proof fn rounding_is_slight(n: nat)
    requires
        n < 0x1000_0000_0000_0000,
    ensures
        -256 <= 2 * numeric::rounded(n, 0x20_0000_0000_0000) - 2 * n <= 256,
{
    let top: nat = 0x20_0000_0000_0000;
    if n >= top {
        let unit = numeric::binary_unit(n, top);
        let grain = unit / (top / 2);
        numeric::unit_is_close(n, top);
        assert(1 <= grain <= 256);
        numeric::nearest_is_near(n, grain);
        let q = numeric::nearest_even(n, grain);
        assert(q * grain == grain * q) by (nonlinear_arith);
    }
}

proof fn shares_are_close(d: int, t: int, w: int, unit: int, q: int, h: int, whole: int)
    requires
        0 < d <= t < 0x800_0000_0000,
        1 <= w <= 128,
        unit == t * w,
        2 * (128 * d * 0x10_0000_0000_0000) - unit <= 2 * (unit * q) <= 2 * (128 * d
            * 0x10_0000_0000_0000) + unit,
        -256 <= 2 * h - 200 * q <= 256,
        whole == h * w / 0x800_0000_0000_0000,
        h >= 0,
    ensures
        whole * t <= 100 * d <= (whole + 1) * t,
        0 <= whole <= 100,
{
    let c: int = 0x800_0000_0000_0000;
    let x = h * w;
    let y = q * w;
    assert(128 * 0x10_0000_0000_0000int == c);
    assert(unit * q == t * y) by (nonlinear_arith)
        requires
            unit == t * w,
            y == q * w,
    ;
    let dc = d * c;
    assert(128 * d * 0x10_0000_0000_0000 == dc) by (nonlinear_arith)
        requires
            dc == d * c,
            c == 0x800_0000_0000_0000,
    ;
    assert(2 * dc - unit <= 2 * (t * y) <= 2 * dc + unit);
    assert(-256 * w <= 2 * x - 200 * y <= 256 * w) by (nonlinear_arith)
        requires
            -256 <= 2 * h - 200 * q <= 256,
            x == h * w,
            y == q * w,
            w >= 1,
    ;
    assert(-32768 <= 2 * x - 200 * y <= 32768);
    assert(-32768 * t <= 2 * (t * x) - 200 * (t * y) <= 32768 * t) by (nonlinear_arith)
        requires
            -32768 <= 2 * x - 200 * y <= 32768,
            t > 0,
    ;
    assert(unit <= 128 * t) by (nonlinear_arith)
        requires
            unit == t * w,
            w <= 128,
            t > 0,
    ;
    let tx = t * x;
    assert(2 * tx <= 200 * dc + 100 * (128 * t) + 32768 * t);
    assert(2 * tx >= 200 * dc - 100 * (128 * t) - 32768 * t);
    assert(100 * (128 * t) + 32768 * t < c);
    let z = whole * c;
    assert(z <= x < z + c) by (nonlinear_arith)
        requires
            whole == x / c,
            z == whole * c,
            c > 0,
    ;
    assert(t * z <= tx) by (nonlinear_arith)
        requires
            z <= x,
            t > 0,
            tx == t * x,
    ;
    assert(tx < t * z + t * c) by (nonlinear_arith)
        requires
            x < z + c,
            t > 0,
            tx == t * x,
    ;
    let wt = whole * t;
    assert(t * z == wt * c) by (nonlinear_arith)
        requires
            z == whole * c,
            wt == whole * t,
    ;
    let e = 100 * d;
    assert(100 * dc == e * c) by (nonlinear_arith)
        requires
            dc == d * c,
            e == 100 * d,
    ;
    assert(2 * (wt * c) < 2 * (e * c) + c);
    assert(wt <= e) by (nonlinear_arith)
        requires
            2 * (wt * c) < 2 * (e * c) + c,
            c > 0,
    ;
    assert(2 * (e * c) - c < 2 * (wt * c + t * c));
    assert(e <= wt + t) by (nonlinear_arith)
        requires
            2 * (e * c) - c < 2 * (wt * c + t * c),
            c > 0,
    ;
    assert((whole + 1) * t == wt + t) by (nonlinear_arith)
        requires
            wt == whole * t,
    ;
    assert(whole <= 100) by (nonlinear_arith)
        requires
            whole * t <= 100 * d,
            d <= t,
            t > 0,
    ;
    assert(x >= 0) by (nonlinear_arith)
        requires
            x == h * w,
            h >= 0,
            w >= 1,
    ;
    assert(whole >= 0) by (nonlinear_arith)
        requires
            whole == x / c,
            x >= 0,
            c > 0,
    ;
}

/// One model is downloaded at a time, and only a built-in one. It comes from the mirror that is
/// configured, or, if it is quantized, from the place of those; an earlier cancellation is forgotten.
pub proof fn one_model_is_downloaded_at_a_time(
    s: &mut DownloadState,
    size: &str,
    mirror: DownloadMirror,
    r: Result<DownloadTarget, CommandError>,
    base: &'static str,
)
    requires
        call_ensures(DownloadState::begin, (s, size, mirror), r),
        call_ensures(DownloadMirror::base_url, (mirror,), base),
    ensures
        r is Ok <==> old(s).active is None && exists|m: WhisperModel|
            !(m is Custom) && #[trigger] m.size_name() == size@,
        r is Ok ==> {
            let t = r->Ok_0;
            &&& t.model.size_name() == size@ && !(t.model is Custom)
            &&& t.filename@ == t.model.file()
            &&& t.temp_name@ == t.filename@ + ".tmp"@
            &&& t.model is Tiny || t.model is Base || t.model is Small || t.model is Medium
                ==> t.url@ == base@ + "/"@ + t.filename@
            &&& t.model is TinyQ8 || t.model is BaseQ8 || t.model is SmallQ8 || t.model is MediumQ8
                ==> t.url@ == Q8_MODELS_BASE_URL@ + "/"@ + t.filename@
            &&& !final(s).cancel
            &&& final(s).active is Some && final(s).active->0@ == size@
        },
        r is Err ==> *final(s) == *old(s),
        mirror is HfMirror ==> base@
            == "https://hf-mirror.com/ggerganov/whisper.cpp/resolve/main"@,
        mirror is HuggingFace ==> base@
            == "https://huggingface.co/ggerganov/whisper.cpp/resolve/main"@,
{
    let all = WhisperModel::built_in();
    if known_size(size@) {
        let i = choose|i: int| 0 <= i < 8 && (#[trigger] all[i]).size_name() == size@;
        assert(!(all[i] is Custom) && all[i].size_name() == size@);
    }
    if exists|m: WhisperModel| !(m is Custom) && #[trigger] m.size_name() == size@ {
        let m = choose|m: WhisperModel| !(m is Custom) && #[trigger] m.size_name() == size@;
        assert(m == all[0] || m == all[1] || m == all[2] || m == all[3] || m == all[4] || m
            == all[5] || m == all[6] || m == all[7]);
    }
}

/// A download that is over makes room for the next one, and one that is cancelled is given up when
/// its next part arrives.
pub proof fn a_cancelled_download_is_given_up(
    s: &mut DownloadState,
    done: (),
    c: &mut DownloadState,
    r: Result<(), CommandError>,
    chunk: Result<(), String>,
    step: ChunkStep,
)
    requires
        call_ensures(DownloadState::finish, (s,), done),
        call_ensures(DownloadState::cancel_download, (c,), r),
        call_ensures(chunk_arrived, (final(c).cancel, chunk), step),
    ensures
        final(s).active is None && final(s).cancel == old(s).cancel,
        r is Ok && final(c).cancel && final(c).active == old(c).active,
        step matches ChunkStep::Abort(e) && e.code@ == "CANCELLED"@,
{
}

/// A part that arrives is written down; a broken connection ends the download.
pub proof fn what_arrives_is_written(chunk: Result<(), String>, step: ChunkStep)
    requires
        call_ensures(chunk_arrived, (false, chunk), step),
    ensures
        step is Write <==> chunk is Ok,
        step matches ChunkStep::Abort(e) ==> e.code@ == "NETWORK"@,
{
}

/// Every part that is written counts, and progress is told when the percentage has changed and only
/// then; it cannot be told of a model of unknown size.
pub proof fn progress_is_told_when_it_changes(
    d: &mut Download,
    len: u64,
    written: Result<(), String>,
    r: Result<Vec<Action>, CommandError>,
    p: u8,
)
    requires
        call_ensures(Download::chunk_written, (d, len, written), r),
        old(d).downloaded + len <= u64::MAX,
        old(d).total is Some ==> call_ensures(
            percent_of,
            ((old(d).downloaded + len) as u64, old(d).total->0),
            p,
        ),
    ensures
        r is Ok <==> written is Ok,
        r is Err ==> *final(d) == *old(d) && r->Err_0.code@ == "IO"@,
        r is Ok ==> final(d).downloaded == old(d).downloaded + len && final(d).total == old(d).total
            && final(d).size == old(d).size,
        r is Ok && old(d).total is None ==> r->Ok_0@.len() == 0,
        r is Ok && old(d).total is Some ==> final(d).last_percent == p && (r->Ok_0@.len() == (if p
            == old(d).last_percent {
            0int
        } else {
            1
        })),
        r is Ok && old(d).total is Some && p != old(d).last_percent ==> acts(r->Ok_0@)[0]
            == Act::Emit(
            "download-progress"@,
            Content::Fields(
                seq![
                    ("size"@, FieldContent::Text(old(d).size@)),
                    ("percent"@, FieldContent::Number(p as u64)),
                    ("downloaded"@, FieldContent::Number((old(d).downloaded + len) as u64)),
                    ("total"@, FieldContent::Number(old(d).total->0)),
                ],
            ),
        ),
{
    if r is Ok {
        assert(acts(r->Ok_0@).len() == r->Ok_0@.len());
    }
}

/// A model that the user added can be deleted, a built-in one cannot; where it was selected, the
/// base model is selected in its place and nothing else of the configuration changes.
pub proof fn a_deleted_model_is_not_selected(
    config: AppConfig,
    filename: &str,
    present: bool,
    removed: Result<(), String>,
    r: Result<Option<AppConfig>, CommandError>,
    built_in: bool,
)
    requires
        call_ensures(delete_custom_model, (&config, filename, present, removed), r),
        call_ensures(is_built_in_file, (filename,), built_in),
    ensures
        r is Ok <==> !built_in && present && removed is Ok,
        r is Ok ==> (r->Ok_0 is Some <==> config.whisper_model is Custom
            && config.whisper_model->0@ == filename@),
        r matches Ok(Some(c)) ==> c.whisper_model is Base && c == (AppConfig {
            whisper_model: c.whisper_model,
            ..config
        }),
        built_in <==> exists|m: WhisperModel| !(m is Custom) && #[trigger] m.file() == filename@,
        built_in ==> r is Err && r->Err_0.code@ == "VALIDATION"@,
        !built_in && !present ==> r is Err && r->Err_0.code@ == "NOT_FOUND"@,
{
    persistence::built_in_files_are_those_of_models(WhisperModel::Base, filename@);
    if exists|m: WhisperModel| !(m is Custom) && #[trigger] m.file() == filename@ {
        let m = choose|m: WhisperModel| !(m is Custom) && #[trigger] m.file() == filename@;
        persistence::built_in_files_are_those_of_models(m, filename@);
    }
}

/// The models are told as they are found.
pub proof fn the_models_are_told_as_found(
    files: Vec<String>,
    r: ModelsResponse,
    built_in: Vec<(String, bool)>,
    i: int,
)
    requires
        call_ensures(get_whisper_models, (&files,), r),
        call_ensures(check_whisper_models, (&files,), built_in),
        0 <= i < 8,
    ensures
        r.built_in@.len() == 8,
        r.built_in@[i].0@ == built_in@[i].0@ && r.built_in@[i].1 == built_in@[i].1,
        persistence::alphabetic(r.custom@),
        persistence::rearranged(r.custom@, files@, persistence::custom_positions(files@)),
{
    assert(r.built_in@[i].0@ == WhisperModel::built_in()[i].size_name());
    assert(built_in@[i].0@ == WhisperModel::built_in()[i].size_name());
}

} // verus!
