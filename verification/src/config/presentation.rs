//! Masking of the API key where a configuration leaves the application.

use crate::text;
use vstd::prelude::*;

verus! {

/// What stands for a saved API key outside.
pub const MASKED_MARKER: &'static str = "__MASKED__";

/// Adapter for masking API keys at the presentation boundary.
pub struct ApiKeyMask;

/// What is shown of a key: nothing of a missing one, the marker of any other.
pub open spec fn masked(key: Seq<char>) -> Seq<char> {
    if key.len() == 0 {
        key
    } else {
        MASKED_MARKER@
    }
}

/// The key to keep when `incoming` was submitted while `current` was saved.
pub open spec fn unmasked(incoming: Seq<char>, current: Seq<char>) -> Seq<char> {
    if incoming == MASKED_MARKER@ || (incoming.len() == 0 && current.len() > 0) {
        current
    } else {
        incoming
    }
}

impl ApiKeyMask {
    /// Mask a non-empty API key. Empty strings remain empty so that the frontend can tell "no
    /// key" from "key exists".
    pub fn mask(key: &str) -> (s: String)
        ensures
            s@ == masked(key@),
    {
        if key.is_empty() {
            String::new()
        } else {
            MASKED_MARKER.to_owned()
        }
    }

    /// Resolve the API key that should be persisted: the marker or an empty submission keeps a
    /// saved key, anything else replaces it.
    pub fn unmask_or_keep(incoming: &str, current: &str) -> (s: String)
        ensures
            s@ == unmasked(incoming@, current@),
    {
        if text::same_text(incoming, MASKED_MARKER) || (incoming.is_empty()
            && !current.is_empty()) {
            current.to_owned()
        } else {
            incoming.to_owned()
        }
    }
}

/// Showing a key and submitting what was shown keeps the key.
pub proof fn masking_round_trips(key: Seq<char>)
    ensures
        unmasked(masked(key), key) == key,
{
}

/// Nothing of a key shows outside but that there is one; handing back what was shown, or nothing,
/// keeps it, and any other text takes its place.
pub proof fn a_key_is_kept_or_replaced(
    key: &str,
    other: &str,
    incoming: &str,
    shown: String,
    shown_other: String,
    r: String,
)
    requires
        call_ensures(ApiKeyMask::mask, (key,), shown),
        call_ensures(ApiKeyMask::mask, (other,), shown_other),
        call_ensures(ApiKeyMask::unmask_or_keep, (incoming, key), r),
    ensures
        key@.len() == 0 <==> shown@.len() == 0,
        key@.len() > 0 && other@.len() > 0 ==> shown@ == shown_other@,
        key@.len() > 0 ==> shown@ == "__MASKED__"@,
        incoming@ == shown@ || incoming@.len() == 0 ==> r@ == key@,
        incoming@.len() > 0 && incoming@ != "__MASKED__"@ ==> r@ == incoming@,
        incoming@ == "__MASKED__"@ ==> r@ == key@,
{
    reveal_strlit("__MASKED__");
    if key@.len() == 0 && incoming@.len() == 0 {
        assert(incoming@ =~= key@);
    }
    if shown@.len() == 0 && incoming@ == shown@ {
        assert(incoming@ =~= key@);
    }
}

} // verus!
