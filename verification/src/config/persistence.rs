//! Where configuration and models are kept, and how a configuration is written and read.

use crate::config::schema::{AppConfig, WhisperModel};
use crate::crypto;
use crate::error::AppError;
use crate::llm::redact;
use crate::order;
use crate::text;
use vstd::prelude::*;

verus! {

pub const APP_DIR_NAME: &'static str = "dl-voice-typing";

pub const CONFIG_FILE_NAME: &'static str = "config.json";

pub const MODELS_DIR_NAME: &'static str = "models";

/// A place below a root directory, given by the names to descend through.
pub struct Location {
    pub root: String,
    pub below: Vec<String>,
}

impl Location {
    /// The names below the root.
    pub open spec fn names(self) -> Seq<Seq<char>> {
        self.below@.map_values(|s: String| s@)
    }
}

impl AppConfig {
    /// The directory that holds the configuration, below the user's configuration directory where
    /// that is known.
    pub fn config_dir(root: Option<String>) -> (r: Result<Location, AppError>)
        ensures
            match r {
                Ok(l) => root == Some(l.root) && l.names() == seq![APP_DIR_NAME@],
                Err(e) => root is None && e is Config && e.detail()
                    == "cannot determine config directory"@,
            },
    {
        match root {
            None => Err(AppError::Config("cannot determine config directory".to_owned())),
            Some(root) => {
                let below = vec![APP_DIR_NAME.to_owned()];
                let l = Location { root, below };
                assert(l.names() =~= seq![APP_DIR_NAME@]);
                Ok(l)
            },
        }
    }

    /// The configuration file.
    pub fn config_path(root: Option<String>) -> (r: Result<Location, AppError>)
        ensures
            match r {
                Ok(l) => root == Some(l.root) && l.names() == seq![
                    APP_DIR_NAME@,
                    CONFIG_FILE_NAME@,
                ],
                Err(e) => root is None && e is Config && e.detail()
                    == "cannot determine config directory"@,
            },
    {
        match Self::config_dir(root) {
            Err(e) => Err(e),
            Ok(dir) => {
                let mut l = dir;
                let ghost before = l.names();
                l.below.push(CONFIG_FILE_NAME.to_owned());
                assert(l.names() =~= before.push(CONFIG_FILE_NAME@));
                Ok(l)
            },
        }
    }

    /// Compute the form that goes to disk: the API key is sealed, and so is an API address that
    /// carries a credential in its query. `protect` seals a text.
    pub fn for_disk<P: Fn(&str) -> Option<Vec<u8>>>(&self, protect: &P) -> (r: Result<
        AppConfig,
        AppError,
    >)
        requires
            forall|s: &str| call_requires(*protect, (s,)),
            forall|s: &str, blob: Vec<u8>|
                #[trigger] call_ensures(*protect, (s,), Some(blob)) ==> crypto::encodable(
                    blob@.len(),
                ),
        ensures
            match r {
                Ok(c) => {
                    &&& c == (AppConfig {
                        llm_api_key: c.llm_api_key,
                        llm_api_url: c.llm_api_url,
                        ..*self
                    })
                    &&& if self.llm_api_key@.len() > 0 {
                        sealed_as(*protect, self.llm_api_key@, c.llm_api_key@)
                    } else {
                        c.llm_api_key == self.llm_api_key
                    }
                    &&& if carries_credential(self.llm_api_url@) {
                        sealed_as(*protect, self.llm_api_url@, c.llm_api_url@)
                    } else {
                        c.llm_api_url == self.llm_api_url
                    }
                },
                Err(e) => {
                    &&& e is Crypto
                    &&& {
                        ||| self.llm_api_key@.len() > 0 && sealing_fails(
                            *protect,
                            self.llm_api_key@,
                        ) && e.detail() == "CryptProtectData failed"@
                        ||| carries_credential(self.llm_api_url@) && sealing_fails(
                            *protect,
                            self.llm_api_url@,
                        ) && e.detail() == "llm_api_url encrypt failed: "@ + ("crypto error: "@
                            + "CryptProtectData failed"@)
                    }
                },
            },
    {
        let mut for_disk = self.clone();
        if !self.llm_api_key.as_str().is_empty() {
            match crypto::encrypt(self.llm_api_key.as_str(), protect) {
                Ok(s) => {
                    for_disk.llm_api_key = s;
                },
                Err(e) => {
                    return Err(e);
                },
            }
        }
        if redact::url_contains_credential_query(self.llm_api_url.as_str()) {
            match crypto::encrypt(self.llm_api_url.as_str(), protect) {
                Ok(s) => {
                    for_disk.llm_api_url = s;
                },
                Err(e) => {
                    let shown = e.to_string();
                    return Err(
                        AppError::Crypto(
                            "llm_api_url encrypt failed: ".to_owned().concat(shown.as_str()),
                        ),
                    );
                },
            }
        }
        Ok(for_disk)
    }

    /// Open the sealed fields in place; a value that is not sealed stays as it is. `unprotect`
    /// opens a blob.
    pub fn decrypt_at_load<U: Fn(Vec<u8>) -> Option<Vec<u8>>>(&mut self, unprotect: &U) -> (r:
        Result<(), AppError>)
        requires
            forall|blob: Vec<u8>| call_requires(*unprotect, (blob,)),
        ensures
            *final(self) == (AppConfig {
                llm_api_key: final(self).llm_api_key,
                llm_api_url: final(self).llm_api_url,
                ..*old(self)
            }),
            match r {
                Ok(_) => loaded(*unprotect, old(self).llm_api_key@, final(self).llm_api_key@)
                    && loaded(*unprotect, old(self).llm_api_url@, final(self).llm_api_url@),
                Err(e) => {
                    &&& e is Crypto
                    &&& {
                        ||| is_sealed(old(self).llm_api_key@) && opens_as(
                            *unprotect,
                            old(self).llm_api_key@,
                            Err(e.detail()),
                        ) && *final(self) == *old(self)
                        ||| is_sealed(old(self).llm_api_url@) && (exists|m: Seq<char>| #[trigger]
                            opens_as(*unprotect, old(self).llm_api_url@, Err(m)) && e.detail()
                                == "llm_api_url decrypt failed: "@ + ("crypto error: "@ + m))
                            && loaded(*unprotect, old(self).llm_api_key@, final(self).llm_api_key@)
                            && final(self).llm_api_url == old(self).llm_api_url
                    }
                },
            },
    {
        if crypto::is_encrypted(self.llm_api_key.as_str()) {
            match crypto::decrypt(self.llm_api_key.as_str(), unprotect) {
                Ok(s) => {
                    self.llm_api_key = s;
                },
                Err(e) => {
                    return Err(e);
                },
            }
        }
        if crypto::is_encrypted(self.llm_api_url.as_str()) {
            match crypto::decrypt(self.llm_api_url.as_str(), unprotect) {
                Ok(s) => {
                    self.llm_api_url = s;
                },
                Err(e) => {
                    let shown = e.to_string();
                    assert(opens_as(*unprotect, old(self).llm_api_url@, Err(e.detail())));
                    return Err(
                        AppError::Crypto(
                            "llm_api_url decrypt failed: ".to_owned().concat(shown.as_str()),
                        ),
                    );
                },
            }
        }
        Ok(())
    }
}

/// A URL carries a credential in its query.
pub open spec fn carries_credential(url: Seq<char>) -> bool {
    exists|i: int| redact::credential_at(url, i)
}

/// A stored value is a sealed one.
pub open spec fn is_sealed(value: Seq<char>) -> bool {
    text::begins_with(value, crypto::DPAPI_PREFIX@)
}

/// Sealing `plain` can give the stored value.
pub open spec fn sealed_as<P: Fn(&str) -> Option<Vec<u8>>>(
    protect: P,
    plain: Seq<char>,
    value: Seq<char>,
) -> bool {
    exists|s: &str, blob: Vec<u8>| #[trigger]
        call_ensures(protect, (s,), Some(blob)) && s@ == plain && crypto::written(blob@, value)
}

/// Sealing `plain` can fail.
pub open spec fn sealing_fails<P: Fn(&str) -> Option<Vec<u8>>>(protect: P, plain: Seq<char>) -> bool {
    exists|s: &str| #[trigger] call_ensures(protect, (s,), None) && s@ == plain
}

/// Opening a sealed value can come to this text, or to an error with this message.
pub open spec fn opens_as<U: Fn(Vec<u8>) -> Option<Vec<u8>>>(
    unprotect: U,
    value: Seq<char>,
    outcome: Result<Seq<char>, Seq<char>>,
) -> bool {
    match crypto::read_back(value) {
        Err(m) => outcome == Err::<Seq<char>, Seq<char>>(m),
        Ok(blob) => exists|sealed: Vec<u8>, out: Option<Vec<u8>>| #[trigger]
            call_ensures(unprotect, (sealed,), out) && sealed@ == blob && outcome
                == crypto::opened(crypto::bytes_of(out)),
    }
}

/// Reading a stored value can give this text: an unsealed value is taken as it is.
pub open spec fn loaded<U: Fn(Vec<u8>) -> Option<Vec<u8>>>(
    unprotect: U,
    stored: Seq<char>,
    value: Seq<char>,
) -> bool {
    if is_sealed(stored) {
        opens_as(unprotect, stored, Ok(value))
    } else {
        value == stored
    }
}

/// Opening gives back what was sealed: whatever blob `protect` made of a text, `unprotect` makes
/// the UTF-8 bytes of that text of it.
pub open spec fn inverse<P: Fn(&str) -> Option<Vec<u8>>, U: Fn(Vec<u8>) -> Option<Vec<u8>>>(
    protect: P,
    unprotect: U,
) -> bool {
    forall|s: &str, blob: Vec<u8>, sealed: Vec<u8>, out: Option<Vec<u8>>|
        #![trigger call_ensures(protect, (s,), Some(blob)), call_ensures(unprotect, (sealed,), out)]
        call_ensures(protect, (s,), Some(blob)) && sealed@ == blob@ && call_ensures(
            unprotect,
            (sealed,),
            out,
        ) ==> crypto::bytes_of(out) == Some(vstd::utf8::encode_utf8(s@))
}

/// Loading undoes saving: a secret that was sealed for the disk reads back as itself.
pub proof fn loading_undoes_saving<
    P: Fn(&str) -> Option<Vec<u8>>,
    U: Fn(Vec<u8>) -> Option<Vec<u8>>,
>(protect: P, unprotect: U, plain: Seq<char>, stored: Seq<char>, value: Seq<char>)
    requires
        inverse(protect, unprotect),
        sealed_as(protect, plain, stored),
        loaded(unprotect, stored, value),
    ensures
        value == plain,
{
    let (s, blob) = choose|s: &str, blob: Vec<u8>| #[trigger]
        call_ensures(protect, (s,), Some(blob)) && s@ == plain && crypto::written(blob@, stored);
    crypto::decrypting_undoes_encrypting(plain, blob@, stored);
    let (sealed, out) = choose|sealed: Vec<u8>, out: Option<Vec<u8>>| #[trigger]
        call_ensures(unprotect, (sealed,), out) && sealed@ == blob@ && Ok::<Seq<char>, Seq<char>>(
            value,
        ) == crypto::opened(crypto::bytes_of(out));
    assert(crypto::bytes_of(out) == Some(vstd::utf8::encode_utf8(s@)));
}

/// The directory of the model files. Where no configuration directory is known it stands in the
/// working directory.
pub fn models_dir(root: Option<String>) -> (l: Location)
    ensures
        match root {
            Some(r) => l.root == r && l.names() == seq![APP_DIR_NAME@, MODELS_DIR_NAME@],
            None => l.root@ == "."@ && l.names() == seq![MODELS_DIR_NAME@],
        },
{
    match root {
        Some(root) => {
            let below = vec![APP_DIR_NAME.to_owned(), MODELS_DIR_NAME.to_owned()];
            let l = Location { root, below };
            assert(l.names() =~= seq![APP_DIR_NAME@, MODELS_DIR_NAME@]);
            l
        },
        None => {
            let below = vec![MODELS_DIR_NAME.to_owned()];
            let l = Location { root: ".".to_owned(), below };
            assert(l.names() =~= seq![MODELS_DIR_NAME@]);
            l
        },
    }
}

/// The file of a model.
pub fn model_path_for_size(root: Option<String>, model: &WhisperModel) -> (l: Location)
    ensures
        match root {
            Some(r) => l.root == r && l.names() == seq![
                APP_DIR_NAME@,
                MODELS_DIR_NAME@,
                model.file(),
            ],
            None => l.root@ == "."@ && l.names() == seq![MODELS_DIR_NAME@, model.file()],
        },
{
    let mut l = models_dir(root);
    let ghost before = l.names();
    l.below.push(model.filename());
    assert(l.names() =~= before.push(model.file()));
    l
}

/// A file of this name is among those listed.
pub open spec fn listed(files: Seq<String>, name: Seq<char>) -> bool {
    exists|i: int| 0 <= i < files.len() && (#[trigger] files[i])@ == name
}

fn is_listed(files: &Vec<String>, name: &str) -> (r: bool)
    ensures
        r == listed(files@, name@),
{
    let mut i: usize = 0;
    while i < files.len()
        invariant
            i <= files@.len(),
            forall|j: int| 0 <= j < i ==> (#[trigger] files@[j])@ != name@,
        decreases files@.len() - i,
    {
        if text::same_text(files[i].as_str(), name) {
            return true;
        }
        i = i + 1;
    }
    false
}

/// Check which built-in models are among the files of the models directory: each size identifier
/// with whether its file is there.
pub fn check_whisper_models(files: &Vec<String>) -> (v: Vec<(String, bool)>)
    ensures
        v@.len() == 8,
        forall|i: int|
            0 <= i < 8 ==> (#[trigger] v@[i]).0@ == WhisperModel::built_in()[i].size_name()
                && v@[i].1 == listed(files@, WhisperModel::built_in()[i].file()),
{
    let all = WhisperModel::all_built_in();
    let mut v: Vec<(String, bool)> = Vec::new();
    let mut i: usize = 0;
    while i < all.len()
        invariant
            all@ == WhisperModel::built_in(),
            i <= 8,
            v@.len() == i,
            forall|j: int|
                0 <= j < i ==> (#[trigger] v@[j]).0@ == WhisperModel::built_in()[j].size_name()
                    && v@[j].1 == listed(files@, WhisperModel::built_in()[j].file()),
        decreases 8 - i,
    {
        let name = all[i].filename();
        let present = is_listed(files, name.as_str());
        v.push((all[i].size_str().to_owned(), present));
        i = i + 1;
    }
    v
}

/// Whether a file is a custom model: a `.bin` file that is not a built-in one.
pub open spec fn custom_file(name: Seq<char>) -> bool {
    text::finishes_with(name, ".bin"@) && !WhisperModel::built_in_file(name)
}

fn is_custom_file(name: &str, built_in: &Vec<String>) -> (r: bool)
    requires
        built_in@.len() == 8,
        forall|i: int| 0 <= i < 8 ==> (#[trigger] built_in@[i])@ == WhisperModel::built_in()[i].file(),
    ensures
        r == custom_file(name@),
{
    let known = is_listed(built_in, name);
    proof {
        if listed(built_in@, name@) {
            let i = choose|i: int| 0 <= i < built_in@.len() && (#[trigger] built_in@[i])@ == name@;
            assert(WhisperModel::built_in()[i].file() == name@);
        }
        if WhisperModel::built_in_file(name@) {
            let i = choose|i: int|
                0 <= i < 8 && (#[trigger] WhisperModel::built_in()[i]).file() == name@;
            assert(built_in@[i]@ == name@);
        }
    }
    text::ends_with(name, ".bin") && !known
}

/// The positions of the custom models among the files, in order.
pub open spec fn custom_positions(files: Seq<String>) -> Seq<int>
    decreases files.len(),
{
    if files.len() == 0 {
        seq![]
    } else if custom_file(files.last()@) {
        custom_positions(files.drop_last()).push(files.len() - 1)
    } else {
        custom_positions(files.drop_last())
    }
}

/// The names are in alphabetic order, equal ones allowed.
pub open spec fn alphabetic(names: Seq<String>) -> bool {
    forall|i: int, j: int|
        0 <= i < j < names.len() ==> !order::stands_before(
            (#[trigger] names[j])@,
            (#[trigger] names[i])@,
        )
}

/// `names` holds the files at `positions`, each once, in some order.
pub open spec fn rearranged(names: Seq<String>, files: Seq<String>, positions: Seq<int>) -> bool {
    exists|p: Seq<usize>| #[trigger]
        order::lists_all(p, positions.len()) && names.len() == p.len() && (forall|i: int|
            0 <= i < p.len() ==> (#[trigger] names[i])@ == files[positions[p[i] as int]]@)
}

/// The custom models among the files of the models directory, in alphabetic order.
pub fn scan_custom_models(files: &Vec<String>) -> (v: Vec<String>)
    ensures
        alphabetic(v@),
        rearranged(v@, files@, custom_positions(files@)),
{
    let built_in = WhisperModel::built_in_filenames();
    let mut customs: Vec<String> = Vec::new();
    let ghost mut positions: Seq<int> = seq![];
    let mut i: usize = 0;
    while i < files.len()
        invariant
            i <= files@.len(),
            built_in@.len() == 8,
            forall|k: int|
                0 <= k < 8 ==> (#[trigger] built_in@[k])@ == WhisperModel::built_in()[k].file(),
            positions == custom_positions(files@.take(i as int)),
            customs@.len() == positions.len(),
            forall|k: int| 0 <= k < positions.len() ==> 0 <= #[trigger] positions[k] < i,
            forall|k: int|
                0 <= k < customs@.len() ==> #[trigger] customs@[k] == files@[positions[k]],
        decreases files@.len() - i,
    {
        assert(files@.take(i + 1).drop_last() =~= files@.take(i as int));
        if is_custom_file(files[i].as_str(), &built_in) {
            customs.push(files[i].clone());
            proof {
                positions = positions.push(i as int);
            }
        }
        i = i + 1;
    }
    assert(files@.take(i as int) =~= files@);
    let p = order::stable_order(&customs, false);
    let mut sorted: Vec<String> = Vec::new();
    let mut k: usize = 0;
    while k < p.len()
        invariant
            k <= p@.len(),
            order::lists_all(p@, customs@.len()),
            sorted@.len() == k,
            forall|j: int| 0 <= j < k ==> #[trigger] sorted@[j] == customs@[p@[j] as int],
        decreases p@.len() - k,
    {
        sorted.push(customs[p[k]].clone());
        k = k + 1;
    }
    proof {
        assert forall|a: int, b: int| 0 <= a < b < sorted@.len() implies !order::stands_before(
            (#[trigger] sorted@[b])@,
            (#[trigger] sorted@[a])@,
        ) by {
            assert(p@[a] < customs@.len() && p@[b] < customs@.len());
            order::order_is_total(sorted@[a]@, sorted@[b]@);
        }
        assert forall|j: int| 0 <= j < p@.len() implies (#[trigger] sorted@[j])@
            == files@[positions[p@[j] as int]]@ by {
            assert(p@[j] < customs@.len());
            assert(customs@[p@[j] as int] == files@[positions[p@[j] as int]]);
        }
        assert(order::lists_all(p@, positions.len()));
    }
    sorted
}

/// Loading a saved configuration gives the configuration back, where opening a blob gives back what
/// was sealed in it. (An address that is not sealed but looks it would be opened.)
pub proof fn a_saved_configuration_loads_back<
    P: Fn(&str) -> Option<Vec<u8>>,
    U: Fn(Vec<u8>) -> Option<Vec<u8>>,
>(
    protect: P,
    unprotect: U,
    c: AppConfig,
    stored: Result<AppConfig, AppError>,
    disk: &mut AppConfig,
    r: Result<(), AppError>,
)
    requires
        inverse(protect, unprotect),
        call_ensures(AppConfig::for_disk::<P>, (&c, &protect), stored),
        stored is Ok,
        *old(disk) == stored->Ok_0,
        call_ensures(AppConfig::decrypt_at_load::<U>, (disk, &unprotect), r),
        r is Ok,
        !is_sealed(c.llm_api_url@) || carries_credential(c.llm_api_url@),
    ensures
        final(disk).llm_api_key@ == c.llm_api_key@,
        final(disk).llm_api_url@ == c.llm_api_url@,
        *final(disk) == (AppConfig {
            llm_api_key: final(disk).llm_api_key,
            llm_api_url: final(disk).llm_api_url,
            ..c
        }),
{
    reveal_strlit("DPAPI:");
    let s = stored->Ok_0;
    if c.llm_api_key@.len() > 0 {
        loading_undoes_saving(
            protect,
            unprotect,
            c.llm_api_key@,
            s.llm_api_key@,
            final(disk).llm_api_key@,
        );
    }
    if carries_credential(c.llm_api_url@) {
        loading_undoes_saving(
            protect,
            unprotect,
            c.llm_api_url@,
            s.llm_api_url@,
            final(disk).llm_api_url@,
        );
    }
}

/// No key goes to the disk as it is, nor does an address with a credential in its query; a key or an
/// address that could not be sealed is not written at all.
pub proof fn secrets_go_to_the_disk_sealed<P: Fn(&str) -> Option<Vec<u8>>>(
    protect: P,
    c: AppConfig,
    stored: Result<AppConfig, AppError>,
    recognised: bool,
    key: &str,
)
    requires
        call_ensures(AppConfig::for_disk::<P>, (&c, &protect), stored),
        stored is Ok ==> key@ == stored->Ok_0.llm_api_key@,
        call_ensures(crypto::is_encrypted, (key,), recognised),
        c.llm_api_key@.len() > 0,
    ensures
        stored is Ok ==> recognised,
        stored is Ok && carries_credential(c.llm_api_url@) ==> is_sealed(
            stored->Ok_0.llm_api_url@,
        ),
        stored is Ok && !carries_credential(c.llm_api_url@) ==> stored->Ok_0.llm_api_url
            == c.llm_api_url,
        stored is Err ==> stored->Err_0 is Crypto,
        (forall|s: &str| #[trigger] call_ensures(protect, (s,), None) ==> s@ != c.llm_api_key@ && s@
            != c.llm_api_url@) ==> stored is Ok,
{
    if stored is Ok {
        let s = stored->Ok_0;
        let (t, blob) = choose|t: &str, blob: Vec<u8>| #[trigger]
            call_ensures(protect, (t,), Some(blob)) && t@ == c.llm_api_key@ && crypto::written(
                blob@,
                s.llm_api_key@,
            );
        crypto::decrypting_undoes_encrypting(c.llm_api_key@, blob@, s.llm_api_key@);
        if carries_credential(c.llm_api_url@) {
            let (t, blob) = choose|t: &str, blob: Vec<u8>| #[trigger]
                call_ensures(protect, (t,), Some(blob)) && t@ == c.llm_api_url@ && crypto::written(
                    blob@,
                    s.llm_api_url@,
                );
            crypto::decrypting_undoes_encrypting(c.llm_api_url@, blob@, s.llm_api_url@);
        }
    }
}

/// A built-in model is there if its file is.
pub proof fn a_model_is_there_if_its_file_is(files: Vec<String>, v: Vec<(String, bool)>, i: int)
    requires
        call_ensures(check_whisper_models, (&files,), v),
        0 <= i < v@.len(),
    ensures
        v@.len() == 8,
        v@[i].0@ == WhisperModel::built_in()[i].size_name(),
        v@[i].1 <==> exists|k: int|
            0 <= k < files@.len() && (#[trigger] files@[k])@ == "ggml-"@ + v@[i].0@ + ".bin"@,
{
    reveal_strlit("tiny");
    reveal_strlit("tiny-q8_0");
    reveal_strlit("base");
    reveal_strlit("base-q8_0");
    reveal_strlit("small");
    reveal_strlit("small-q8_0");
    reveal_strlit("medium");
    reveal_strlit("medium-q8_0");
    reveal_strlit("ggml-");
    reveal_strlit(".bin");
    reveal_strlit("ggml-tiny.bin");
    reveal_strlit("ggml-tiny-q8_0.bin");
    reveal_strlit("ggml-base.bin");
    reveal_strlit("ggml-base-q8_0.bin");
    reveal_strlit("ggml-small.bin");
    reveal_strlit("ggml-small-q8_0.bin");
    reveal_strlit("ggml-medium.bin");
    reveal_strlit("ggml-medium-q8_0.bin");
    let m = WhisperModel::built_in()[i];
    assert(v@[i].0@ == m.size_name());
    assert(m.file() =~= "ggml-"@ + m.size_name() + ".bin"@);
}

proof fn custom_files_have_positions(files: Seq<String>, i: int)
    ensures
        forall|k: int|
            0 <= k < custom_positions(files).len() ==> 0 <= #[trigger] custom_positions(files)[k]
                < files.len() && custom_file(files[custom_positions(files)[k]]@),
        0 <= i < files.len() && custom_file(files[i]@) ==> custom_positions(files).contains(i),
    decreases files.len(),
{
    if files.len() > 0 {
        let before = files.drop_last();
        custom_files_have_positions(before, i);
        let q = custom_positions(before);
        let p = custom_positions(files);
        assert forall|k: int| 0 <= k < p.len() implies 0 <= #[trigger] p[k] < files.len()
            && custom_file(files[p[k]]@) by {
            if k < q.len() {
                assert(p[k] == q[k]);
                assert(before[q[k]] == files[q[k]]);
            }
        }
        if 0 <= i < files.len() && custom_file(files[i]@) {
            if i < before.len() {
                assert(before[i] == files[i]);
                let w = choose|w: int| 0 <= w < q.len() && q[w] == i;
                assert(p[w] == i);
            } else {
                assert(p[p.len() - 1] == i);
            }
        }
    }
}

/// The custom models are the files that end in `.bin` and are none of the built-in ones: all of
/// them and no other, in alphabetic order.
pub proof fn custom_models_are_the_other_files(files: Vec<String>, v: Vec<String>, i: int, k: int)
    requires
        call_ensures(scan_custom_models, (&files,), v),
    ensures
        0 <= i < files@.len() && text::finishes_with(files@[i]@, ".bin"@)
            && !WhisperModel::built_in_file(files@[i]@) ==> exists|x: int|
            0 <= x < v@.len() && (#[trigger] v@[x])@ == files@[i]@,
        0 <= k < v@.len() ==> text::finishes_with(v@[k]@, ".bin"@) && !WhisperModel::built_in_file(
            v@[k]@,
        ) && exists|x: int| 0 <= x < files@.len() && (#[trigger] files@[x])@ == v@[k]@,
        0 <= i < k < v@.len() ==> !order::stands_before(v@[k]@, v@[i]@),
{
    let positions = custom_positions(files@);
    let p = choose|p: Seq<usize>| #[trigger]
        order::lists_all(p, positions.len()) && v@.len() == p.len() && (forall|i: int|
            0 <= i < p.len() ==> (#[trigger] v@[i])@ == files@[positions[p[i] as int]]@);
    custom_files_have_positions(files@, i);
    if 0 <= i < files@.len() && custom_file(files@[i]@) {
        let w = choose|w: int| 0 <= w < positions.len() && positions[w] == i;
        order::every_position_is_listed(p, positions.len(), w);
        let x = choose|x: int| 0 <= x < p.len() && #[trigger] p[x] == w;
        assert(v@[x]@ == files@[i]@);
    }
    if 0 <= k < v@.len() {
        assert(p[k] < positions.len());
        let at = positions[p[k] as int];
        assert(v@[k]@ == files@[at]@);
    }
    if 0 <= i < k < v@.len() {
        assert(!order::stands_before(v@[k]@, v@[i]@));
    }
}

/// A file name is that of a built-in model if it is the file of one.
pub proof fn built_in_files_are_those_of_models(m: WhisperModel, name: Seq<char>)
    ensures
        !(m is Custom) ==> WhisperModel::built_in_file(m.file()),
        WhisperModel::built_in_file(name) ==> exists|b: WhisperModel|
            !(b is Custom) && #[trigger] b.file() == name,
{
    let all = WhisperModel::built_in();
    if !(m is Custom) {
        assert(m == all[0] || m == all[1] || m == all[2] || m == all[3] || m == all[4] || m
            == all[5] || m == all[6] || m == all[7]);
    }
    if WhisperModel::built_in_file(name) {
        let i = choose|i: int| 0 <= i < 8 && (#[trigger] all[i]).file() == name;
        assert(!(all[i] is Custom));
    }
}

/// A model's file lies in the directory of the models, which lies beside the configuration.
pub proof fn models_lie_beside_the_configuration(
    root: Option<String>,
    model: WhisperModel,
    dir: Location,
    file: Location,
    config: Result<Location, AppError>,
)
    requires
        call_ensures(models_dir, (root,), dir),
        call_ensures(model_path_for_size, (root, &model), file),
        call_ensures(AppConfig::config_path, (root,), config),
    ensures
        file.root@ == dir.root@,
        file.names() == dir.names().push(model.file()),
        config is Ok <==> root is Some,
        root is Some ==> dir.root == root->0 && config->Ok_0.root == root->0 && dir.names() == seq![
            "dl-voice-typing"@,
            "models"@,
        ] && config->Ok_0.names() == seq!["dl-voice-typing"@, "config.json"@],
        root is None ==> dir.root@ == "."@ && dir.names() == seq!["models"@],
{
    assert(file.names() =~= dir.names().push(model.file()));
}

} // verus!
