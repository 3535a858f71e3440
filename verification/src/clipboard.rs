//! Saving, pasting and restoring the clipboard.
//!
//! The managers decide; reading, writing and the paste keystroke are the host's. It hands in what
//! came of them.

use crate::error::AppError;
use crate::text;
use vstd::prelude::*;

verus! {

/// Attempts at writing the clipboard.
pub const MAX_RETRIES: u32 = 3;

/// Pause between two attempts in milliseconds.
pub const RETRY_DELAY_MS: u64 = 50;

/// How long the target application has at least to process a paste, in milliseconds.
pub const PASTE_WAIT_MS: u64 = 80;

/// Pause between two looks at the clipboard after a paste, in milliseconds.
pub const PASTE_POLL_MS: u64 = 20;

/// The error of a clipboard operation that did not answer in time.
pub fn timeout_error(label: &str, timeout: &str) -> (e: AppError)
    ensures
        e matches AppError::Clipboard(m) && m@ == label@ + " timed out after "@ + timeout@,
{
    AppError::Clipboard(label.to_owned().concat(" timed out after ").concat(timeout))
}

/// What follows an attempt at writing the clipboard.
pub enum RetryStep {
    /// The text has been written.
    Written,
    /// Wait so many milliseconds and try again.
    TryAgain(u64),
    /// Give up.
    Failed(AppError),
}

/// Decide what follows the given attempt, the first being number 0: all but the last failure lead
/// to another attempt.
pub fn after_write_attempt(attempt: u32, outcome: Result<(), AppError>) -> (step: RetryStep)
    ensures
        step == (match outcome {
            Ok(_) => RetryStep::Written,
            Err(e) => if attempt + 1 < MAX_RETRIES {
                RetryStep::TryAgain(RETRY_DELAY_MS)
            } else {
                RetryStep::Failed(e)
            },
        }),
{
    match outcome {
        Ok(_) => RetryStep::Written,
        Err(e) => {
            if attempt < MAX_RETRIES - 1 {
                RetryStep::TryAgain(RETRY_DELAY_MS)
            } else {
                RetryStep::Failed(e)
            }
        },
    }
}

/// How many 16-bit units of a clipboard block are text: all but the terminator, or up to the first
/// zero where the size of the block is not known.
pub fn text_units(block_size: usize, first_zero: usize) -> (n: usize)
    ensures
        n == (if block_size == 0 {
            first_zero as int
        } else if block_size < 4 {
            0
        } else {
            block_size / 2 - 1
        }),
{
    if block_size > 0 {
        if block_size / 2 >= 1 {
            block_size / 2 - 1
        } else {
            0
        }
    } else {
        first_zero
    }
}

/// What came of a step of a paste.
pub enum PasteEvent {
    /// The paste was asked for.
    Begin,
    /// The text was written to the clipboard, or not.
    Written(Result<(), AppError>),
    /// The paste keystroke was sent, or not.
    Pasted(Result<(), AppError>),
    /// The pause is over: what the clipboard holds now, unless the time to look is up.
    Waited(Option<Result<String, AppError>>),
    /// The saved content was written back, or not.
    WrittenBack,
}

/// The next step of a paste.
pub enum PasteAction {
    /// Write the text to the clipboard, with retries.
    Write(String),
    /// Send the paste keystroke.
    Paste,
    /// Wait so many milliseconds.
    Wait(u64),
    /// Write the saved content back, with retries.
    WriteBack(String),
    /// The paste is over.
    Finish(Result<(), AppError>),
}

/// Whether the clipboard, looked at after a pause, is still waiting for the target application:
/// there is time left and it still holds the text.
pub open spec fn still_waiting(seen: Option<Result<String, AppError>>, text: Seq<char>) -> bool {
    match seen {
        Some(Ok(held)) => held@ == text,
        _ => false,
    }
}

/// Clipboard manager that remembers one text.
pub struct ClipboardManager {
    pub saved_content: Option<String>,
}

impl ClipboardManager {
    /// Create a clipboard manager with no saved content.
    pub fn new() -> (m: Self)
        ensures
            m.saved_content is None,
    {
        ClipboardManager { saved_content: None }
    }

    /// Remember what was read from the clipboard; nothing, where it could not be read.
    pub fn save(&mut self, read: Result<String, AppError>) -> (r: Result<(), AppError>)
        ensures
            r is Ok,
            final(self).saved_content == (match read {
                Ok(content) => Some(content),
                Err(_) => None,
            }),
    {
        self.saved_content = match read {
            Ok(content) => Some(content),
            Err(_) => None,
        };
        Ok(())
    }

    /// The action that ends a paste.
    pub open spec fn put_back(self) -> PasteAction {
        match self.saved_content {
            Some(saved) => PasteAction::WriteBack(saved),
            None => PasteAction::Finish(Ok(())),
        }
    }

    /// The next step of pasting a text.
    pub fn inject_text(&self, text: &str, event: PasteEvent) -> (action: PasteAction)
        ensures
            match event {
                PasteEvent::Begin => action matches PasteAction::Write(t) && t@ == text@,
                PasteEvent::Written(Err(e)) => action == PasteAction::Finish(Err(e)),
                PasteEvent::Written(Ok(_)) => action == PasteAction::Paste,
                PasteEvent::Pasted(Err(e)) => action == PasteAction::Finish(Err(e)),
                PasteEvent::Pasted(Ok(_)) => action == PasteAction::Wait(PASTE_WAIT_MS),
                PasteEvent::Waited(seen) => action == (if still_waiting(seen, text@) {
                    PasteAction::Wait(PASTE_POLL_MS)
                } else {
                    self.put_back()
                }),
                PasteEvent::WrittenBack => action == PasteAction::Finish(Ok(())),
            },
    {
        match event {
            PasteEvent::Begin => PasteAction::Write(text.to_owned()),
            PasteEvent::Written(outcome) => match outcome {
                Ok(_) => PasteAction::Paste,
                Err(e) => PasteAction::Finish(Err(e)),
            },
            PasteEvent::Pasted(outcome) => match outcome {
                Ok(_) => PasteAction::Wait(PASTE_WAIT_MS),
                Err(e) => PasteAction::Finish(Err(e)),
            },
            PasteEvent::Waited(seen) => {
                let waiting = match &seen {
                    Some(Ok(held)) => text::same_text(held.as_str(), text),
                    _ => false,
                };
                if waiting {
                    PasteAction::Wait(PASTE_POLL_MS)
                } else {
                    match &self.saved_content {
                        Some(saved) => PasteAction::WriteBack(saved.clone()),
                        None => PasteAction::Finish(Ok(())),
                    }
                }
            },
            PasteEvent::WrittenBack => PasteAction::Finish(Ok(())),
        }
    }

    /// Settle a restore after an attempt to write the saved content back (`written` is looked at
    /// only where there is any): a failure keeps the content for another attempt.
    pub fn restore(&mut self, written: Result<(), AppError>) -> (r: Result<(), AppError>)
        ensures
            old(self).saved_content is None ==> r is Ok && final(self).saved_content is None,
            old(self).saved_content is Some ==> match written {
                Ok(_) => r is Ok && final(self).saved_content is None,
                Err(e) => r == Err::<(), AppError>(e) && *final(self) == *old(self),
            },
    {
        if self.saved_content.is_some() {
            if let Err(e) = written {
                return Err(e);
            }
        }
        self.saved_content = None;
        Ok(())
    }

    /// Whether there is saved content that was not restored yet.
    pub fn was_saved(&self) -> (r: bool)
        ensures
            r == (self.saved_content is Some),
    {
        self.saved_content.is_some()
    }
}

impl Default for ClipboardManager {
    fn default() -> (m: Self)
        ensures
            m.saved_content is None,
    {
        Self::new()
    }
}

/// Clipboard that only notes what was asked of it.
pub struct MockClipboard {
    pub saved: bool,
    pub injected: Vec<String>,
    /// The texts that were left in the clipboard without a paste.
    pub set_texts: Vec<String>,
    pub restored: bool,
    /// When set, `save` fails with this message.
    pub save_error: Option<String>,
    /// When set, `inject_text` fails with this message.
    pub inject_error: Option<String>,
    /// When set, `restore` fails with this message.
    pub restore_error: Option<String>,
}

/// The answer of the mock, given the message it is set to fail with.
pub open spec fn mock_answer(r: Result<(), AppError>, error: Option<String>) -> bool {
    match error {
        Some(m) => r == Err::<(), AppError>(AppError::Clipboard(m)),
        None => r is Ok,
    }
}

impl MockClipboard {
    pub fn new() -> (m: Self)
        ensures
            !m.saved,
            m.injected@ == Seq::<String>::empty(),
            m.set_texts@ == Seq::<String>::empty(),
            !m.restored,
            m.save_error is None,
            m.inject_error is None,
            m.restore_error is None,
    {
        MockClipboard {
            saved: false,
            injected: Vec::new(),
            set_texts: Vec::new(),
            restored: false,
            save_error: None,
            inject_error: None,
            restore_error: None,
        }
    }

    /// The same clipboard, failing to be saved with this message.
    pub fn with_save_error(self, message: &str) -> (m: Self)
        ensures
            m == (MockClipboard { save_error: m.save_error, ..self }),
            m.save_error matches Some(e) && e@ == message@,
    {
        let mut m = self;
        m.save_error = Some(message.to_owned());
        m
    }

    /// Leave a text in the clipboard.
    pub fn set_text(&mut self, text: &str) -> (r: Result<(), AppError>)
        ensures
            r is Ok,
            *final(self) == (MockClipboard { set_texts: final(self).set_texts, ..*old(self) }),
            final(self).set_texts@.len() == old(self).set_texts@.len() + 1,
            final(self).set_texts@.drop_last() == old(self).set_texts@,
            final(self).set_texts@.last()@ == text@,
    {
        self.set_texts.push(text.to_owned());
        assert(self.set_texts@.drop_last() =~= old(self).set_texts@);
        Ok(())
    }

    /// The clipboard is saved; an earlier restoration is no longer of account.
    pub fn save(&mut self) -> (r: Result<(), AppError>)
        ensures
            mock_answer(r, old(self).save_error),
            *final(self) == (if r is Ok {
                MockClipboard { saved: true, restored: false, ..*old(self) }
            } else {
                *old(self)
            }),
    {
        if let Some(msg) = &self.save_error {
            return Err(AppError::Clipboard(msg.clone()));
        }
        self.saved = true;
        self.restored = false;
        Ok(())
    }

    pub fn inject_text(&mut self, text: &str) -> (r: Result<(), AppError>)
        ensures
            mock_answer(r, old(self).inject_error),
            *final(self) == (MockClipboard { injected: final(self).injected, ..*old(self) }),
            r is Err ==> final(self).injected == old(self).injected,
            r is Ok ==> {
                let noted = final(self).injected@;
                &&& noted.len() == old(self).injected@.len() + 1
                &&& noted.drop_last() == old(self).injected@
                &&& noted.last()@ == text@
            },
    {
        if let Some(msg) = &self.inject_error {
            return Err(AppError::Clipboard(msg.clone()));
        }
        self.injected.push(text.to_owned());
        assert(self.injected@.drop_last() =~= old(self).injected@);
        Ok(())
    }

    pub fn restore(&mut self) -> (r: Result<(), AppError>)
        ensures
            mock_answer(r, old(self).restore_error),
            *final(self) == (MockClipboard { restored: old(self).restored || r is Ok, ..*old(self) }),
    {
        if let Some(msg) = &self.restore_error {
            return Err(AppError::Clipboard(msg.clone()));
        }
        self.restored = true;
        Ok(())
    }

    /// Whether the clipboard was saved and not yet restored.
    pub fn was_saved(&self) -> (r: bool)
        ensures
            r == (self.saved && !self.restored),
    {
        self.saved && !self.restored
    }
}

impl Default for MockClipboard {
    fn default() -> (m: Self)
        ensures
            !m.saved,
            m.injected@ == Seq::<String>::empty(),
            m.set_texts@ == Seq::<String>::empty(),
            !m.restored,
            m.save_error is None,
            m.inject_error is None,
            m.restore_error is None,
    {
        Self::new()
    }
}

/// The clipboard of the system or a mock.
pub enum AnyClipboard {
    Windows(ClipboardManager),
    Mock(MockClipboard),
}

impl AnyClipboard {
    /// Save the clipboard; `read` is what the clipboard of the system holds.
    pub fn save(&mut self, read: Result<String, AppError>) -> (r: Result<(), AppError>)
        ensures
            match *old(self) {
                AnyClipboard::Windows(_) => {
                    &&& r is Ok
                    &&& *final(self) == AnyClipboard::Windows(
                        ClipboardManager {
                            saved_content: match read {
                                Ok(content) => Some(content),
                                Err(_) => None,
                            },
                        },
                    )
                },
                AnyClipboard::Mock(m) => {
                    &&& mock_answer(r, m.save_error)
                    &&& *final(self) == AnyClipboard::Mock(
                        if r is Ok {
                            MockClipboard { saved: true, restored: false, ..m }
                        } else {
                            m
                        },
                    )
                },
            },
    {
        match self {
            AnyClipboard::Windows(m) => m.save(read),
            AnyClipboard::Mock(m) => m.save(),
        }
    }

    /// The next step of pasting a text. The mock notes it at once.
    pub fn inject_text(&mut self, text: &str, event: PasteEvent) -> (action: PasteAction)
        ensures
            match *old(self) {
                AnyClipboard::Windows(m) => {
                    &&& *final(self) == *old(self)
                    &&& match event {
                        PasteEvent::Begin => action matches PasteAction::Write(t) && t@ == text@,
                        PasteEvent::Written(Err(e)) => action == PasteAction::Finish(Err(e)),
                        PasteEvent::Written(Ok(_)) => action == PasteAction::Paste,
                        PasteEvent::Pasted(Err(e)) => action == PasteAction::Finish(Err(e)),
                        PasteEvent::Pasted(Ok(_)) => action == PasteAction::Wait(PASTE_WAIT_MS),
                        PasteEvent::Waited(seen) => action == (if still_waiting(seen, text@) {
                            PasteAction::Wait(PASTE_POLL_MS)
                        } else {
                            m.put_back()
                        }),
                        PasteEvent::WrittenBack => action == PasteAction::Finish(Ok(())),
                    }
                },
                AnyClipboard::Mock(m) => {
                    &&& action matches PasteAction::Finish(r)
                    &&& mock_answer(r, m.inject_error)
                    &&& *final(self) matches AnyClipboard::Mock(after)
                    &&& after == (MockClipboard { injected: after.injected, ..m })
                    &&& r is Err ==> after.injected == m.injected
                    &&& r is Ok ==> after.injected@.len() == m.injected@.len() + 1
                        && after.injected@.drop_last() == m.injected@ && after.injected@.last()@
                        == text@
                },
            },
    {
        match self {
            AnyClipboard::Windows(m) => m.inject_text(text, event),
            AnyClipboard::Mock(m) => PasteAction::Finish(m.inject_text(text)),
        }
    }

    /// Whether there is something to restore.
    pub fn was_saved(&self) -> (r: bool)
        ensures
            r == (match *self {
                AnyClipboard::Windows(m) => m.saved_content is Some,
                AnyClipboard::Mock(m) => m.saved && !m.restored,
            }),
    {
        match self {
            AnyClipboard::Windows(m) => m.was_saved(),
            AnyClipboard::Mock(m) => m.was_saved(),
        }
    }

    /// Restore the clipboard; `written` is what came of writing the saved content back.
    pub fn restore(&mut self, written: Result<(), AppError>) -> (r: Result<(), AppError>)
        ensures
            match *old(self) {
                AnyClipboard::Windows(m) => {
                    &&& r is Err <==> m.saved_content is Some && written is Err
                    &&& r is Err ==> r == written
                    &&& *final(self) == (if r is Ok {
                        AnyClipboard::Windows(ClipboardManager { saved_content: None })
                    } else {
                        *old(self)
                    })
                },
                AnyClipboard::Mock(m) => {
                    &&& mock_answer(r, m.restore_error)
                    &&& *final(self) == AnyClipboard::Mock(
                        MockClipboard { restored: m.restored || r is Ok, ..m },
                    )
                },
            },
    {
        match self {
            AnyClipboard::Windows(m) => m.restore(written),
            AnyClipboard::Mock(m) => m.restore(),
        }
    }
}

/// Writing is tried three times, fifty milliseconds apart; the last failure is told.
pub proof fn writing_is_tried_three_times(
    attempt: u32,
    outcome: Result<(), AppError>,
    step: RetryStep,
)
    requires
        call_ensures(after_write_attempt, (attempt, outcome), step),
    ensures
        step is Written <==> outcome is Ok,
        outcome is Err && attempt < 2 ==> step == RetryStep::TryAgain(50),
        outcome is Err && attempt >= 2 ==> step == RetryStep::Failed(outcome->Err_0),
{
}

/// A paste writes the text, sends the keystroke, gives the target time and looks until the clipboard
/// no longer holds the text or the time is up, and then writes back what was saved before, if
/// anything was. A failure to write or to paste ends it at once.
pub proof fn a_paste_writes_the_text_and_puts_the_rest_back(
    m: ClipboardManager,
    text: &str,
    event: PasteEvent,
    action: PasteAction,
)
    requires
        call_ensures(ClipboardManager::inject_text, (&m, text, event), action),
    ensures
        event is Begin ==> (action matches PasteAction::Write(t) && t@ == text@),
        event matches PasteEvent::Written(w) ==> (w is Ok ==> action is Paste) && (w is Err
            ==> action == PasteAction::Finish(Err(w->Err_0))),
        event matches PasteEvent::Pasted(p) ==> (p is Ok ==> action == PasteAction::Wait(80)) && (
        p is Err ==> action == PasteAction::Finish(Err(p->Err_0))),
        event matches PasteEvent::Waited(seen) ==> {
            let held = seen is Some && seen->0 is Ok && seen->0->Ok_0@ == text@;
            &&& held ==> action == PasteAction::Wait(20)
            &&& !held && m.saved_content is Some ==> action == PasteAction::WriteBack(
                m.saved_content->0,
            )
            &&& !held && m.saved_content is None ==> action == PasteAction::Finish(Ok(()))
        },
        event is WrittenBack ==> action == PasteAction::Finish(Ok(())),
{
}

/// What was saved is what is written back, once: a restore that succeeds forgets it, one that fails
/// keeps it. A clipboard that cannot be read is remembered as empty, and restoring it does nothing.
pub proof fn what_was_saved_is_restored_once(
    m: &mut ClipboardManager,
    read: Result<String, AppError>,
    saved: Result<(), AppError>,
    held: bool,
    n: &mut ClipboardManager,
    written: Result<(), AppError>,
    r: Result<(), AppError>,
)
    requires
        call_ensures(ClipboardManager::save, (m, read), saved),
        call_ensures(ClipboardManager::was_saved, (&*final(m),), held),
        *old(n) == *final(m),
        call_ensures(ClipboardManager::restore, (n, written), r),
    ensures
        saved is Ok,
        held <==> read is Ok,
        read is Ok ==> old(n).saved_content == Some(read->Ok_0),
        r is Err <==> held && written is Err,
        r is Err ==> r->Err_0 == written->Err_0 && final(n).saved_content == old(n).saved_content,
        r is Ok ==> final(n).saved_content is None,
{
}

/// The clipboard of the system behaves as its manager does.
pub proof fn any_clipboard_is_the_one_inside(
    c: &mut AnyClipboard,
    m: ClipboardManager,
    text: &str,
    event: PasteEvent,
    action: PasteAction,
    saver: &mut AnyClipboard,
    n: ClipboardManager,
    read: Result<String, AppError>,
    saved: Result<(), AppError>,
    restorer: &mut AnyClipboard,
    written: Result<(), AppError>,
    restored: Result<(), AppError>,
    held: bool,
)
    requires
        *old(c) == AnyClipboard::Windows(m),
        call_ensures(AnyClipboard::inject_text, (c, text, event), action),
        *old(saver) == AnyClipboard::Windows(n),
        call_ensures(AnyClipboard::save, (saver, read), saved),
        *old(restorer) == *final(saver),
        call_ensures(AnyClipboard::was_saved, (&*final(saver),), held),
        call_ensures(AnyClipboard::restore, (restorer, written), restored),
    ensures
        *final(c) == *old(c),
        event is Begin ==> (action matches PasteAction::Write(t) && t@ == text@),
        event matches PasteEvent::Written(w) ==> (w is Ok <==> action is Paste),
        event matches PasteEvent::Waited(seen) ==> {
            let same = seen is Some && seen->0 is Ok && seen->0->Ok_0@ == text@;
            &&& same <==> action is Wait
            &&& !same && m.saved_content is Some ==> action == PasteAction::WriteBack(
                m.saved_content->0,
            )
        },
        event is WrittenBack ==> action == PasteAction::Finish(Ok(())),
        saved is Ok,
        held <==> read is Ok,
        restored is Err <==> held && written is Err,
        *final(saver) matches AnyClipboard::Windows(x) && (x.saved_content is Some) == (read is Ok)
            && (read is Ok ==> x.saved_content == Some(read->Ok_0)),
        restored is Ok ==> (*final(restorer) matches AnyClipboard::Windows(x)
            && x.saved_content is None),
        restored is Err ==> *final(restorer) == *old(restorer),
{
}

/// A block of a known size holds a text and its terminator; one of unknown size holds a text up to
/// the first zero.
pub proof fn text_ends_at_its_terminator(block_size: usize, first_zero: usize, n: usize)
    requires
        call_ensures(text_units, (block_size, first_zero), n),
    ensures
        block_size == 0 ==> n == first_zero,
        block_size >= 2 ==> 2 * (n + 1) <= block_size <= 2 * (n + 1) + 1,
        block_size == 1 ==> n == 0,
{
}

} // verus!
