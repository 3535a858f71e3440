//! State shared with the review window.

use crate::commands::actions::{acts, nothing, queue, Act, Action};
use crate::data_saving;
use vstd::prelude::*;

verus! {

/// What is needed to note the texts of a saved recording once a review is over.
pub struct ReviewData {
    pub json_path: String,
    pub raw_transcription: String,
    pub llm_text: Option<String>,
}

/// What the review window is to show and where to return to.
pub struct PendingReview {
    /// Text for the review window to display. Taken by `get_review_text`.
    pub text: Option<String>,
    /// What to note about the recording once the review is over.
    pub data_saving: Option<ReviewData>,
    /// The window that had the focus before the review window appeared.
    pub foreground_hwnd: Option<isize>,
    /// Whether the review window was shown when the hotkey was pressed.
    pub shown_on_press: bool,
}

/// Nothing is pending.
pub open spec fn no_review() -> PendingReview {
    PendingReview { text: None, data_saving: None, foreground_hwnd: None, shown_on_press: false }
}

/// The note that ends a review.
pub open spec fn review_note(data: ReviewData, final_text: Option<Seq<char>>) -> Act {
    Act::UpdateJson(
        data.json_path@,
        data.raw_transcription@,
        data_saving::text_of(data.llm_text),
        final_text,
    )
}

impl PendingReview {
    pub fn new() -> (p: Self)
        ensures
            p == no_review(),
    {
        PendingReview { text: None, data_saving: None, foreground_hwnd: None, shown_on_press: false }
    }

    /// Remember the window that has the focus.
    pub fn save_foreground(&mut self, hwnd: isize)
        ensures
            *final(self) == (PendingReview { foreground_hwnd: Some(hwnd), ..*old(self) }),
    {
        self.foreground_hwnd = Some(hwnd);
    }

    /// Take the remembered window.
    pub fn take_foreground(&mut self) -> (h: Option<isize>)
        ensures
            h == old(self).foreground_hwnd,
            *final(self) == (PendingReview { foreground_hwnd: None, ..*old(self) }),
    {
        self.foreground_hwnd.take()
    }

    /// Take what is to be noted about the recording and note it with the final text.
    pub fn consume_and_save(&mut self, final_text: Option<&str>) -> (v: Vec<Action>)
        ensures
            *final(self) == (PendingReview { data_saving: None, ..*old(self) }),
            acts(v@) == (match old(self).data_saving {
                Some(data) => seq![review_note(data, data_saving::str_of(final_text))],
                None => seq![],
            }),
    {
        let mut v = nothing();
        if let Some(data) = self.data_saving.take() {
            queue(
                &mut v,
                Action::UpdateJson(
                    data.json_path,
                    data.raw_transcription,
                    data.llm_text,
                    data_saving::owned(final_text),
                ),
            );
        }
        assert(acts(v@) =~= (match old(self).data_saving {
            Some(data) => seq![review_note(data, data_saving::str_of(final_text))],
            None => seq![],
        }));
        v
    }

    /// Take the pending text (the review window asks for it once on load).
    pub fn get_review_text(&mut self) -> (t: Option<String>)
        ensures
            t == old(self).text,
            *final(self) == (PendingReview { text: None, ..*old(self) }),
    {
        self.text.take()
    }
}

impl Default for PendingReview {
    fn default() -> (p: Self)
        ensures
            p == no_review(),
    {
        Self::new()
    }
}

/// What a review keeps is handed out once: the text to show, the window to return to, and the note
/// about the recording, which is written with the final text, or without one.
pub proof fn a_review_hands_out_once(
    p: &mut PendingReview,
    text: Option<String>,
    q: &mut PendingReview,
    again: Option<String>,
    w: &mut PendingReview,
    hwnd: isize,
    done: (),
    x: &mut PendingReview,
    back: Option<isize>,
    n: &mut PendingReview,
    final_text: Option<&str>,
    v: Vec<Action>,
)
    requires
        call_ensures(PendingReview::get_review_text, (p,), text),
        *old(q) == *final(p),
        call_ensures(PendingReview::get_review_text, (q,), again),
        call_ensures(PendingReview::save_foreground, (w, hwnd), done),
        *old(x) == *final(w),
        call_ensures(PendingReview::take_foreground, (x,), back),
        call_ensures(PendingReview::consume_and_save, (n, final_text), v),
    ensures
        text == old(p).text && again is None,
        *final(p) == (PendingReview { text: None, ..*old(p) }),
        back == Some(hwnd) && final(x).foreground_hwnd is None,
        final(n).data_saving is None,
        old(n).data_saving is None ==> v@.len() == 0,
        old(n).data_saving is Some ==> acts(v@) == seq![
            Act::UpdateJson(
                old(n).data_saving->0.json_path@,
                old(n).data_saving->0.raw_transcription@,
                match old(n).data_saving->0.llm_text {
                    Some(t) => Some(t@),
                    None => None,
                },
                match final_text {
                    Some(t) => Some(t@),
                    None => None,
                },
            ),
        ],
{
    assert(acts(v@).len() == v@.len());
}

} // verus!
