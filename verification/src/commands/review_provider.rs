//! Access of the pipeline to the review state.

use crate::commands::review::ReviewData;
use vstd::prelude::*;

verus! {

/// The window handle that the mock remembers.
pub const MOCK_FOREGROUND: isize = 42;

/// Review state on its own, without a window behind it.
pub struct MockReviewProvider {
    pub text: Option<String>,
    pub foreground: Option<isize>,
    pub shown_on_press: bool,
    pub review_data: Option<ReviewData>,
}

impl MockReviewProvider {
    pub fn new() -> (p: Self)
        ensures
            p.text is None,
            p.foreground is None,
            !p.shown_on_press,
            p.review_data is None,
    {
        MockReviewProvider { text: None, foreground: None, shown_on_press: false, review_data: None }
    }

    /// A copy of the stored text.
    pub fn get_text(&self) -> (t: Option<String>)
        ensures
            t == self.text,
    {
        match &self.text {
            Some(t) => Some(t.clone()),
            None => None,
        }
    }

    /// Take the remembered window.
    pub fn get_foreground(&mut self) -> (h: Option<isize>)
        ensures
            h == old(self).foreground,
            *final(self) == (MockReviewProvider { foreground: None, ..*old(self) }),
    {
        self.foreground.take()
    }

    /// Store the text for the review window to display.
    pub fn store_text(&mut self, text: String)
        ensures
            *final(self) == (MockReviewProvider { text: Some(text), ..*old(self) }),
    {
        self.text = Some(text);
    }

    /// Remember a window.
    pub fn save_foreground(&mut self)
        ensures
            *final(self) == (MockReviewProvider {
                foreground: Some(MOCK_FOREGROUND),
                ..*old(self)
            }),
    {
        self.foreground = Some(MOCK_FOREGROUND);
    }

    /// Take the remembered window.
    pub fn take_foreground(&mut self) -> (h: Option<isize>)
        ensures
            h == old(self).foreground,
            *final(self) == (MockReviewProvider { foreground: None, ..*old(self) }),
    {
        self.foreground.take()
    }

    pub fn was_shown_on_press(&self) -> (r: bool)
        ensures
            r == self.shown_on_press,
    {
        self.shown_on_press
    }

    pub fn set_shown_on_press(&mut self, value: bool)
        ensures
            *final(self) == (MockReviewProvider { shown_on_press: value, ..*old(self) }),
    {
        self.shown_on_press = value;
    }

    /// Store what to note about the recording once the review is over.
    pub fn store_review_data(&mut self, data: ReviewData)
        ensures
            *final(self) == (MockReviewProvider { review_data: Some(data), ..*old(self) }),
    {
        self.review_data = Some(data);
    }
}

} // verus!
