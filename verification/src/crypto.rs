//! Protected values: what the operating system sealed, written as prefixed base64 text.
//!
//! Sealing and opening a blob is the operating system's work; it is handed in as a function. The
//! library writes the sealed blob down, recognises and reads it, and turns what came out of it
//! back into text.

use crate::error::AppError;
use crate::text;
use base64::Engine;
use vstd::prelude::*;

verus! {

/// Prefix of a protected value in the configuration.
pub const DPAPI_PREFIX: &'static str = "DPAPI:";

/// The standard base64 text of a blob.
pub uninterp spec fn base64_encoded(bytes: Seq<u8>) -> Seq<char>;

/// The blob that a standard base64 text stands for, or the rendered reason why it stands for none.
pub uninterp spec fn base64_decoded(text: Seq<char>) -> Result<Seq<u8>, Seq<char>>;

/// How the UTF-8 decoder renders the reason why bytes are not UTF-8.
pub uninterp spec fn utf8_rejection(bytes: Seq<u8>) -> Seq<char>;

/// A blob whose base64 text fits in memory: four characters stand for three bytes.
pub open spec fn encodable(n: nat) -> bool {
    4 * (n / 3 + 1) <= isize::MAX
}

/// `Engine::encode` of the base64 crate with its `STANDARD` engine (standard alphabet, padded).
/// The text depends on the bytes alone and is named; decoding it gives the bytes back, since the
/// same engine writes and accepts canonical padding. A blob whose text would exceed the largest
/// allocation is left out: there the call panics.
#[verifier::external_body]
fn encode_base64(bytes: &Vec<u8>) -> (s: String)
    requires
        encodable(bytes@.len()),
    ensures
        s@ == base64_encoded(bytes@),
        base64_decoded(s@) is Ok && base64_decoded(s@)->Ok_0 == bytes@,
{
    base64::engine::general_purpose::STANDARD.encode(bytes)
}

/// `Engine::decode` of the base64 crate with its `STANDARD` engine. The outcome depends on the
/// text alone and is named; an error is given by its rendering.
#[verifier::external_body]
fn decode_base64(s: &str) -> (r: Result<Vec<u8>, String>)
    ensures
        match r {
            Ok(v) => base64_decoded(s@) is Ok && base64_decoded(s@)->Ok_0 == v@,
            Err(e) => base64_decoded(s@) is Err && base64_decoded(s@)->Err_0 == e@,
        },
{
    base64::engine::general_purpose::STANDARD.decode(s).map_err(|e| e.to_string())
}

/// `String::from_utf8` of std: the text whose UTF-8 encoding the bytes are, or an error where they
/// are not valid UTF-8. The error is given by its rendering, which depends on the bytes alone.
#[verifier::external_body]
fn utf8_text(bytes: Vec<u8>) -> (r: Result<String, String>)
    ensures
        match r {
            Ok(s) => vstd::utf8::valid_utf8(bytes@) && s@ == vstd::utf8::decode_utf8(bytes@),
            Err(e) => !vstd::utf8::valid_utf8(bytes@) && e@ == utf8_rejection(bytes@),
        },
{
    String::from_utf8(bytes).map_err(|e| e.to_string())
}

/// `text` is the written form of the sealed `blob`, and reads back as that blob.
pub open spec fn written(blob: Seq<u8>, text: Seq<char>) -> bool {
    &&& text == DPAPI_PREFIX@ + base64_encoded(blob)
    &&& read_back(text) == Ok::<Seq<u8>, Seq<char>>(blob)
}

/// The sealed blob that a protected value stands for, or what is wrong with the value.
pub open spec fn read_back(value: Seq<char>) -> Result<Seq<u8>, Seq<char>> {
    if !text::begins_with(value, DPAPI_PREFIX@) {
        Err("missing DPAPI prefix"@)
    } else {
        match base64_decoded(value.skip(DPAPI_PREFIX@.len() as int)) {
            Ok(blob) => Ok(blob),
            Err(e) => Err("base64 decode failed: "@ + e),
        }
    }
}

/// What the bytes out of an opened blob come to.
pub open spec fn opened(bytes: Option<Seq<u8>>) -> Result<Seq<char>, Seq<char>> {
    match bytes {
        None => Err("CryptUnprotectData failed"@),
        Some(b) => if vstd::utf8::valid_utf8(b) {
            Ok(vstd::utf8::decode_utf8(b))
        } else {
            Err("utf8 conversion failed: "@ + utf8_rejection(b))
        },
    }
}

/// `r` is a success with this text, or a crypto error with this message.
pub open spec fn reports(r: Result<String, AppError>, want: Result<Seq<char>, Seq<char>>) -> bool {
    match r {
        Ok(s) => want == Ok::<Seq<char>, Seq<char>>(s@),
        Err(e) => e is Crypto && want == Err::<Seq<char>, Seq<char>>(e.detail()),
    }
}

/// The view of optional bytes.
pub open spec fn bytes_of(v: Option<Vec<u8>>) -> Option<Seq<u8>> {
    match v {
        Some(b) => Some(b@),
        None => None,
    }
}

/// Write down a sealed blob: the prefix and its base64 text.
pub fn write_sealed(blob: &Vec<u8>) -> (s: String)
    requires
        encodable(blob@.len()),
    ensures
        written(blob@, s@),
{
    let encoded = encode_base64(blob);
    let s = DPAPI_PREFIX.to_owned().concat(encoded.as_str());
    proof {
        assert(s@.take(DPAPI_PREFIX@.len() as int) =~= DPAPI_PREFIX@);
        assert(s@.skip(DPAPI_PREFIX@.len() as int) =~= encoded@);
    }
    s
}

/// Read the sealed blob out of a protected value.
pub fn read_sealed(value: &str) -> (r: Result<Vec<u8>, AppError>)
    ensures
        match r {
            Ok(v) => read_back(value@) == Ok::<Seq<u8>, Seq<char>>(v@),
            Err(e) => e is Crypto && read_back(value@) == Err::<Seq<u8>, Seq<char>>(e.detail()),
        },
{
    if !text::starts_with(value, DPAPI_PREFIX) {
        return Err(AppError::Crypto("missing DPAPI prefix".to_owned()));
    }
    let v = text::chars_of(value);
    let p = text::chars_of(DPAPI_PREFIX);
    let rest = text::text_between(&v, p.len(), v.len());
    assert(rest@ =~= value@.skip(DPAPI_PREFIX@.len() as int));
    match decode_base64(rest.as_str()) {
        Ok(blob) => Ok(blob),
        Err(e) => Err(AppError::Crypto("base64 decode failed: ".to_owned().concat(e.as_str()))),
    }
}

/// Turn what came out of an opened blob into text; `None` stands for a refusal to open it.
pub fn open_text(bytes: Option<Vec<u8>>) -> (r: Result<String, AppError>)
    ensures
        reports(r, opened(bytes_of(bytes))),
{
    match bytes {
        None => Err(AppError::Crypto("CryptUnprotectData failed".to_owned())),
        Some(b) => match utf8_text(b) {
            Ok(s) => Ok(s),
            Err(e) => Err(AppError::Crypto("utf8 conversion failed: ".to_owned().concat(e.as_str()))),
        },
    }
}

/// Encrypt a plaintext: `protect` seals its bytes, `None` standing for a failure. Returns the
/// prefixed base64 text of the sealed blob.
pub fn encrypt<P: Fn(&str) -> Option<Vec<u8>>>(plaintext: &str, protect: &P) -> (r: Result<
    String,
    AppError,
>)
    requires
        call_requires(*protect, (plaintext,)),
        forall|blob: Vec<u8>|
            #[trigger] call_ensures(*protect, (plaintext,), Some(blob)) ==> encodable(blob@.len()),
    ensures
        match r {
            Ok(s) => exists|blob: Vec<u8>| #[trigger]
                call_ensures(*protect, (plaintext,), Some(blob)) && written(blob@, s@),
            Err(e) => call_ensures(*protect, (plaintext,), None) && e is Crypto && e.detail()
                == "CryptProtectData failed"@,
        },
{
    match protect(plaintext) {
        Some(blob) => Ok(write_sealed(&blob)),
        None => Err(AppError::Crypto("CryptProtectData failed".to_owned())),
    }
}

/// Decrypt a protected value: `unprotect` opens the sealed blob, `None` standing for a failure.
pub fn decrypt<U: Fn(Vec<u8>) -> Option<Vec<u8>>>(ciphertext: &str, unprotect: &U) -> (r: Result<
    String,
    AppError,
>)
    requires
        forall|blob: Vec<u8>| call_requires(*unprotect, (blob,)),
    ensures
        match read_back(ciphertext@) {
            Err(m) => r matches Err(e) && e is Crypto && e.detail() == m,
            Ok(blob) => exists|sealed: Vec<u8>, out: Option<Vec<u8>>| #[trigger]
                call_ensures(*unprotect, (sealed,), out) && sealed@ == blob && reports(
                    r,
                    opened(bytes_of(out)),
                ),
        },
{
    match read_sealed(ciphertext) {
        Err(e) => Err(e),
        Ok(blob) => open_text(unprotect(blob)),
    }
}

/// Check if a stored value is a protected one (starts with the prefix).
pub fn is_encrypted(value: &str) -> (r: bool)
    ensures
        r == text::begins_with(value@, DPAPI_PREFIX@),
{
    text::starts_with(value, DPAPI_PREFIX)
}

/// Decryption undoes encryption: when opening the blob in a written value gives back the bytes of
/// the plaintext that was sealed, the plaintext comes out. The value is recognised as protected.
pub proof fn decrypting_undoes_encrypting(plaintext: Seq<char>, blob: Seq<u8>, value: Seq<char>)
    requires
        written(blob, value),
    ensures
        text::begins_with(value, DPAPI_PREFIX@),
        read_back(value) == Ok::<Seq<u8>, Seq<char>>(blob),
        opened(Some(vstd::utf8::encode_utf8(plaintext))) == Ok::<Seq<char>, Seq<char>>(plaintext),
{
    vstd::utf8::encode_utf8_valid_utf8(plaintext);
    vstd::utf8::encode_utf8_decode_utf8(plaintext);
}

/// A sealed value is recognised by its prefix, and reads back as the blob that was written.
pub proof fn a_written_blob_reads_back(
    blob: Vec<u8>,
    s: String,
    value: &str,
    recognised: bool,
    r: Result<Vec<u8>, AppError>,
)
    requires
        call_ensures(is_encrypted, (value,), recognised),
        call_ensures(read_sealed, (value,), r),
    ensures
        recognised <==> exists|rest: Seq<char>| value@ == #[trigger] ("DPAPI:"@ + rest),
        !recognised ==> r is Err && r->Err_0 is Crypto,
        call_ensures(write_sealed, (&blob,), s) && value@ == s@ ==> recognised && r is Ok
            && r->Ok_0@ == blob@,
{
    if recognised {
        let n = DPAPI_PREFIX@.len() as int;
        assert(value@ =~= "DPAPI:"@ + value@.skip(n));
    }
    if exists|rest: Seq<char>| value@ == #[trigger] ("DPAPI:"@ + rest) {
        let rest = choose|rest: Seq<char>| value@ == #[trigger] ("DPAPI:"@ + rest);
        assert(value@.take(DPAPI_PREFIX@.len() as int) =~= DPAPI_PREFIX@);
    }
}

/// What was encrypted decrypts to the same text, where opening a blob gives back the bytes that were
/// sealed in it.
pub proof fn decryption_gives_the_text_back<
    P: Fn(&str) -> Option<Vec<u8>>,
    U: Fn(Vec<u8>) -> Option<Vec<u8>>,
>(
    protect: P,
    unprotect: U,
    plaintext: &str,
    value: Result<String, AppError>,
    stored: &str,
    r: Result<String, AppError>,
)
    requires
        call_ensures(encrypt::<P>, (plaintext, &protect), value),
        value is Ok,
        stored@ == value->Ok_0@,
        call_ensures(decrypt::<U>, (stored, &unprotect), r),
        forall|blob: Vec<u8>, sealed: Vec<u8>, out: Option<Vec<u8>>|
            #![trigger call_ensures(protect, (plaintext,), Some(blob)), call_ensures(unprotect, (sealed,), out)]
            call_ensures(protect, (plaintext,), Some(blob)) && sealed@ == blob@ && call_ensures(
                unprotect,
                (sealed,),
                out,
            ) ==> out is Some && out->0@ == vstd::utf8::encode_utf8(plaintext@),
    ensures
        r is Ok,
        r->Ok_0@ == plaintext@,
{
    let blob = choose|blob: Vec<u8>| #[trigger]
        call_ensures(protect, (plaintext,), Some(blob)) && written(blob@, value->Ok_0@);
    decrypting_undoes_encrypting(plaintext@, blob@, stored@);
    let (sealed, out) = choose|sealed: Vec<u8>, out: Option<Vec<u8>>| #[trigger]
        call_ensures(unprotect, (sealed,), out) && sealed@ == blob@ && reports(
            r,
            opened(bytes_of(out)),
        );
    assert(out is Some && out->0@ == vstd::utf8::encode_utf8(plaintext@));
}

} // verus!
