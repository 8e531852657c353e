//! The developer console: a line of ASCII text with a cursor, and a ring
//! of the lines submitted before.

use crate::action::{Action, ConfigAction, ConsoleAction, WindowAction};
use crate::circular::{ring_position, CircularVec, CircularVecIter};
use crate::input::{ConsoleInputContext, EventInterpreter, InputContext};
use ascii::{AsciiChar, AsciiString};
use vstd::prelude::*;

verus! {

/// `ascii::AsciiString`, the growable ASCII text that the console edits.
#[verifier::external_type_specification]
#[verifier::external_body]
pub struct ExAsciiString(AsciiString);

/// The ASCII codes that a text holds, in order.
pub uninterp spec fn text_codes(text: AsciiString) -> Seq<u8>;

/// The characters with the given ASCII codes.
pub open spec fn codes_as_chars(codes: Seq<u8>) -> Seq<char> {
    codes.map_values(|code: u8| code as char)
}

/// Specifies `<AsciiString as Clone>::clone`, which the crate derives.
///
/// Trusted: the clone holds the same codes.
pub assume_specification[ <AsciiString as Clone>::clone ](text: &AsciiString) -> (copy: AsciiString)
    ensures
        text_codes(copy) == text_codes(*text),
;

/// Specifies `<AsciiString as Default>::default`, which the crate derives.
///
/// Trusted: the default text is empty.
pub assume_specification[ <AsciiString as Default>::default ]() -> (text: AsciiString)
    ensures
        text_codes(text) == Seq::<u8>::empty(),
;

/// Specifies `AsciiString::new`.
///
/// Trusted: the new text is empty.
pub assume_specification[ AsciiString::new ]() -> (text: AsciiString)
    ensures
        text_codes(text) == Seq::<u8>::empty(),
;

/// Specifies `AsciiString::len`.
///
/// Trusted: the length is the number of codes.
pub assume_specification[ AsciiString::len ](text: &AsciiString) -> (len: usize)
    ensures
        len == text_codes(*text).len(),
;

/// Specifies `AsciiString::clear`.
///
/// Trusted: the text is empty afterwards.
pub assume_specification[ AsciiString::clear ](text: &mut AsciiString)
    ensures
        text_codes(*final(text)) == Seq::<u8>::empty(),
;

/// Calls `AsciiString::insert` with the character that `AsciiChar::new`
/// makes of the code.
///
/// Trusted: the code is inserted at `idx` and what stood there and behind
/// it moves one place on. The outside functions panic for a code that is
/// not ASCII and for an index beyond the end.
#[verifier::external_body]
fn text_insert(text: &mut AsciiString, idx: usize, code: u8)
    requires
        code <= 0x7f,
        idx <= text_codes(*old(text)).len(),
    ensures
        text_codes(*final(text)) == text_codes(*old(text)).insert(idx as int, code),
{
    text.insert(idx, AsciiChar::new(code as char));
}

/// Calls `AsciiString::remove`.
///
/// Trusted: the code at `idx` leaves and what stood behind it moves one
/// place back. The outside function panics for an index that is out of
/// bounds.
#[verifier::external_body]
fn text_remove(text: &mut AsciiString, idx: usize)
    requires
        idx < text_codes(*old(text)).len(),
    ensures
        text_codes(*final(text)) == text_codes(*old(text)).remove(idx as int),
{
    let _ = text.remove(idx);
}

/// Calls `to_string` on an `AsciiString`.
///
/// Trusted: the string holds the characters of the text's codes.
#[verifier::external_body]
fn text_to_string(text: &AsciiString) -> (string: String)
    ensures
        string@ == codes_as_chars(text_codes(*text)),
{
    text.to_string()
}

/// A command line with a cursor and a history of submitted lines.
pub struct Console {
    cursor: usize,
    text: AsciiString,
    history: CircularVec<AsciiString>,
    /// Distance from last entry in history
    index_up_history: usize,
}

impl Console {
    /// The codes of the text currently entered.
    pub closed spec fn text(&self) -> Seq<u8> {
        text_codes(self.text)
    }

    /// The position of the cursor: the number of characters before it.
    pub closed spec fn cursor(&self) -> int {
        self.cursor as int
    }

    /// The ring that holds the submitted lines.
    pub closed spec fn ring(&self) -> CircularVec<AsciiString> {
        self.history
    }

    /// The submitted lines in storage order, each as its codes.
    pub open spec fn lines(&self) -> Seq<Seq<u8>> {
        self.ring().slots().map_values(|line: AsciiString| text_codes(line))
    }

    /// How far up the history the console has navigated; zero at the bottom.
    pub closed spec fn depth(&self) -> int {
        self.index_up_history as int
    }

    /// The line that lies `depth` submissions back, wrapping round the ring.
    pub open spec fn line_at(&self, depth: int) -> Seq<u8> {
        let len = self.lines().len() as int;
        self.lines()[ring_position(self.ring().head_position(), len - depth, len)]
    }

    /// The cursor lies within the text, the ring is well formed, and the
    /// depth does not exceed the length of the history.
    pub open spec fn wf(&self) -> bool {
        &&& 0 <= self.cursor() <= self.text().len()
        &&& self.ring().wf()
        &&& 0 <= self.depth() <= self.lines().len()
    }

    /// A console with empty text and room for `len` lines of history, all empty.
    pub fn new(len: usize) -> (console: Self)
        ensures
            console.wf(),
            console.text() == Seq::<u8>::empty(),
            console.cursor() == 0,
            console.depth() == 0,
            console.ring().head_position() == 0,
            console.lines() == Seq::new(len as nat, |i: int| Seq::<u8>::empty()),
    {
        let console = Self {
            cursor: 0,
            text: AsciiString::new(),
            history: CircularVec::with_len(len),
            index_up_history: 0,
        };
        assert(console.lines() =~= Seq::new(len as nat, |i: int| Seq::<u8>::empty()));
        console
    }

    /// Submission history ordered from newest to oldest.
    pub fn history_newest_first(&self) -> (iter: CircularVecIter<'_, AsciiString>)
        requires
            self.wf(),
        ensures
            iter.wf(),
            iter.position() == 0,
            iter.items() == self.ring().backward(),
    {
        self.history.iter_rev()
    }

    /// Submission history ordered from oldest to newest.
    pub fn history_oldest_first(&self) -> (iter: CircularVecIter<'_, AsciiString>)
        requires
            self.wf(),
        ensures
            iter.wf(),
            iter.position() == 0,
            iter.items() == self.ring().forward(),
    {
        self.history.iter()
    }

    /// The position of the cursor: the number of characters before it.
    pub fn cursor_position(&self) -> (position: usize)
        ensures
            position == self.cursor(),
    {
        self.cursor
    }

    /// Text currently entered at the command line
    pub fn get_text(&self) -> (text: &AsciiString)
        ensures
            text_codes(*text) == self.text(),
    {
        &self.text
    }

    /// Insert the character with the given ASCII code at the cursor and
    /// move the cursor behind it.
    pub fn insert(&mut self, code: u8)
        requires
            old(self).wf(),
            code <= 0x7f,
        ensures
            final(self).wf(),
            final(self).text() == old(self).text().insert(old(self).cursor(), code),
            final(self).cursor() == old(self).cursor() + 1,
            final(self).ring() == old(self).ring(),
            final(self).depth() == old(self).depth(),
    {
        text_insert(&mut self.text, self.cursor, code);
        let len: usize = self.text.len();
        assert(self.cursor < len);
        self.cursor += 1;
    }

    /// Backspace one character at the cursor position, if possible.
    pub fn backspace(&mut self)
        requires
            old(self).wf(),
        ensures
            final(self).wf(),
            final(self).ring() == old(self).ring(),
            final(self).depth() == old(self).depth(),
            old(self).cursor() == 0 ==> {
                &&& final(self).text() == old(self).text()
                &&& final(self).cursor() == 0
            },
            old(self).cursor() > 0 ==> {
                &&& final(self).text() == old(self).text().remove(old(self).cursor() - 1)
                &&& final(self).cursor() == old(self).cursor() - 1
            },
    {
        if self.cursor != 0 {
            self.cursor -= 1;
            text_remove(&mut self.text, self.cursor);
        }
    }

    /// Shift the cursor one character to the left, if possible.
    pub fn shift_left(&mut self)
        requires
            old(self).wf(),
        ensures
            final(self).wf(),
            final(self).text() == old(self).text(),
            final(self).ring() == old(self).ring(),
            final(self).depth() == old(self).depth(),
            final(self).cursor() == if old(self).cursor() == 0 {
                0
            } else {
                old(self).cursor() - 1
            },
    {
        if self.cursor != 0 {
            self.cursor -= 1;
        }
    }

    /// Shift the cursor one character to the right, if possible.
    pub fn shift_right(&mut self)
        requires
            old(self).wf(),
        ensures
            final(self).wf(),
            final(self).text() == old(self).text(),
            final(self).ring() == old(self).ring(),
            final(self).depth() == old(self).depth(),
            final(self).cursor() == if old(self).cursor() == old(self).text().len() {
                old(self).cursor()
            } else {
                old(self).cursor() + 1
            },
    {
        if self.cursor != self.text.len() {
            self.cursor += 1;
        }
    }

    /// Shift the cursor to the beginning of the text.
    pub fn shift_home(&mut self)
        requires
            old(self).wf(),
        ensures
            final(self).wf(),
            final(self).text() == old(self).text(),
            final(self).ring() == old(self).ring(),
            final(self).depth() == old(self).depth(),
            final(self).cursor() == 0,
    {
        self.cursor = 0;
    }

    /// Shift the cursor to the end of the text.
    pub fn shift_end(&mut self)
        requires
            old(self).wf(),
        ensures
            final(self).wf(),
            final(self).text() == old(self).text(),
            final(self).ring() == old(self).ring(),
            final(self).depth() == old(self).depth(),
            final(self).cursor() == old(self).text().len(),
    {
        self.cursor = self.text.len();
    }

    /// Empty the text and move the cursor home.
    pub fn clear(&mut self)
        requires
            old(self).wf(),
        ensures
            final(self).wf(),
            final(self).text() == Seq::<u8>::empty(),
            final(self).cursor() == 0,
            final(self).ring() == old(self).ring(),
            final(self).depth() == old(self).depth(),
    {
        self.text.clear();
        self.cursor = 0;
    }

    /// `after` is the console after a submission that returned `submitted`.
    pub open spec fn submitted(&self, after: &Self, submitted: Option<String>) -> bool {
        &&& after.wf()
        &&& after.lines().len() == self.lines().len()
        &&& self.text().len() == 0 ==> submitted.is_none() && *after == *self
        &&& self.text().len() > 0 ==> {
            &&& submitted.is_some()
            &&& submitted.unwrap()@ == codes_as_chars(self.text())
            &&& after.text() == Seq::<u8>::empty()
            &&& after.cursor() == 0
            &&& after.depth() == 0
            &&& after.lines() == self.lines().update(self.ring().head_position(), self.text())
            &&& after.ring().head_position() == ring_position(
                self.ring().head_position(),
                1,
                self.lines().len() as int,
            )
        }
    }

    /// Get & clear the text of the console.
    ///
    /// Empty text is not submitted. Any other text replaces the line at
    /// the head of the history, the head moves on, and the console returns
    /// to the bottom of the history.
    pub fn submit(&mut self) -> (submitted: Option<String>)
        requires
            old(self).wf(),
            old(self).lines().len() > 0,
        ensures
            old(self).submitted(final(self), submitted),
    {
        if self.text.len() == 0 {
            None
        } else {
            let text: String = text_to_string(&self.text);
            proof {
                self.history.lemma_head_in_range();
            }
            self.history.replace(self.text.clone());
            self.history.advance();
            self.index_up_history = 0;
            self.text.clear();
            self.cursor = 0;
            assert(self.lines() =~= old(self).lines().update(
                old(self).ring().head_position(),
                old(self).text(),
            ));
            Some(text)
        }
    }

    /// Go back in time up the history, if possible: the text becomes the
    /// line one submission further back, and the cursor moves to its end.
    /// At the top of the history the depth stays as it is.
    pub fn navigate_backwards(&mut self)
        requires
            old(self).wf(),
            old(self).lines().len() > 0,
        ensures
            final(self).wf(),
            final(self).ring() == old(self).ring(),
            final(self).depth() == if old(self).depth() < old(self).lines().len() {
                old(self).depth() + 1
            } else {
                old(self).depth()
            },
            final(self).text() == old(self).line_at(final(self).depth()),
            final(self).cursor() == final(self).text().len(),
    {
        let len: usize = self.history.len();
        if self.index_up_history < len {
            self.index_up_history += 1;
        }
        self.text = self.history.get(len - self.index_up_history).clone();
        self.cursor = self.text.len();
    }

    /// Go forward in time down the history, if possible.
    /// If we're already at the bottom, then clear the text.
    pub fn navigate_forwards(&mut self)
        requires
            old(self).wf(),
            old(self).lines().len() > 0,
        ensures
            final(self).wf(),
            final(self).ring() == old(self).ring(),
            old(self).depth() <= 1 ==> {
                &&& final(self).depth() == 0
                &&& final(self).text() == Seq::<u8>::empty()
                &&& final(self).cursor() == 0
            },
            old(self).depth() > 1 ==> {
                &&& final(self).depth() == old(self).depth() - 1
                &&& final(self).text() == old(self).line_at(final(self).depth())
                &&& final(self).cursor() == final(self).text().len()
            },
    {
        if self.index_up_history <= 1 {
            self.index_up_history = 0;
            self.text.clear();
            self.cursor = 0;
        } else {
            self.index_up_history -= 1;
            let len: usize = self.history.len();
            self.text = self.history.get(len - self.index_up_history).clone();
            self.cursor = self.text.len();
        }
    }
}

/// Whether two strings hold the same characters.
fn same_text(left: &str, right: &str) -> (same: bool)
    ensures
        same == (left@ == right@),
{
    let len: usize = left.unicode_len();
    if right.unicode_len() != len {
        return false;
    }
    let mut i: usize = 0;
    while i < len
        invariant
            i <= len,
            len == left@.len(),
            len == right@.len(),
            forall|k: int| 0 <= k < i ==> left@[k] == right@[k],
        decreases len - i,
    {
        if left.get_char(i) != right.get_char(i) {
            return false;
        }
        i += 1;
    }
    assert(left@ =~= right@);
    true
}

/// The action that a submitted line stands for, if it is a command:
/// `exit` asks the application to close, `wires` shows or hides the
/// collider volumes.
pub open spec fn spec_command(line: Seq<char>) -> Option<ConfigAction> {
    if line == "exit"@ {
        Some(ConfigAction::RequestClose)
    } else if line == "wires"@ {
        Some(ConfigAction::ToglePaintColliderVolumes)
    } else {
        None
    }
}

/// The action that a submitted line stands for, if it is a command.
pub fn command(line: &str) -> (action: Option<ConfigAction>)
    ensures
        action == spec_command(line@),
{
    if same_text(line, "exit") {
        Some(ConfigAction::RequestClose)
    } else if same_text(line, "wires") {
        Some(ConfigAction::ToglePaintColliderVolumes)
    } else {
        None
    }
}

/// Number of submitted lines that a session's console remembers.
pub const HISTORY_LEN: usize = 16;

/// Wraps a [`Console`] and turns submitted lines into actions.
pub struct ConsoleSession {
    is_showing: bool,
    pub console: Console,
}

impl ConsoleSession {
    /// Whether the console is on screen.
    pub closed spec fn showing(&self) -> bool {
        self.is_showing
    }

    /// The console of the session, as the field `console` holds it.
    pub closed spec fn spec_console(&self) -> Console {
        self.console
    }

    /// A hidden session with an empty console.
    pub fn new() -> (session: Self)
        ensures
            !session.showing(),
            session.spec_console().wf(),
            session.spec_console().text() == Seq::<u8>::empty(),
            session.spec_console().cursor() == 0,
            session.spec_console().depth() == 0,
            session.spec_console().lines() == Seq::new(
                HISTORY_LEN as nat,
                |i: int| Seq::<u8>::empty(),
            ),
    {
        ConsoleSession { is_showing: false, console: Console::new(HISTORY_LEN) }
    }

    /// Submit the console's text and return the action that it stands
    /// for, if it is a command. Empty text is not submitted.
    pub fn submit<Pan>(&mut self) -> (action: Option<Action<Pan>>)
        requires
            old(self).spec_console().wf(),
            old(self).spec_console().lines().len() > 0,
        ensures
            final(self).showing() == old(self).showing(),
            final(self).spec_console().wf(),
            final(self).spec_console().lines().len() == old(self).spec_console().lines().len(),
            exists|submitted: Option<String>|
                {
                    &&& #[trigger] old(self).spec_console().submitted(
                        &final(self).spec_console(),
                        submitted,
                    )
                    &&& action == match submitted {
                        Some(line) => match spec_command(line@) {
                            Some(config) => Some(Action::<Pan>::Config(config)),
                            None => None,
                        },
                        None => None,
                    }
                },
    {
        let submitted: Option<String> = self.console.submit();
        let action: Option<Action<Pan>> = match &submitted {
            Some(line) => match command(line.as_str()) {
                Some(config) => Some(Action::Config(config)),
                None => None,
            },
            None => None,
        };
        assert(old(self).spec_console().submitted(&self.spec_console(), submitted));
        action
    }

    /// Put the console on screen.
    pub fn show(&mut self)
        ensures
            final(self).showing(),
            final(self).spec_console() == old(self).spec_console(),
    {
        self.is_showing = true;
    }

    /// Take the console off screen.
    pub fn dismiss(&mut self)
        ensures
            !final(self).showing(),
            final(self).spec_console() == old(self).spec_console(),
    {
        self.is_showing = false;
    }

    /// Whether the console is on screen.
    pub fn is_showing(&self) -> (showing: bool)
        ensures
            showing == self.showing(),
    {
        self.is_showing
    }
}

impl Console {
    /// `after` is the console after an action that edits the line or walks
    /// the history. A character that is not ASCII is not inserted.
    pub open spec fn edited(&self, action: ConsoleAction, after: &Self) -> bool {
        &&& after.wf()
        &&& after.ring() == self.ring()
        &&& match action {
            ConsoleAction::Insert(code) => if code <= 0x7f {
                &&& after.text() == self.text().insert(self.cursor(), code)
                &&& after.cursor() == self.cursor() + 1
                &&& after.depth() == self.depth()
            } else {
                *after == *self
            },
            ConsoleAction::Backspace => {
                &&& after.depth() == self.depth()
                &&& if self.cursor() == 0 {
                    after.text() == self.text() && after.cursor() == 0
                } else {
                    after.text() == self.text().remove(self.cursor() - 1) && after.cursor()
                        == self.cursor() - 1
                }
            },
            ConsoleAction::NavigateBackwards => {
                &&& after.depth() == if self.depth() < self.lines().len() {
                    self.depth() + 1
                } else {
                    self.depth()
                }
                &&& after.text() == self.line_at(after.depth())
                &&& after.cursor() == after.text().len()
            },
            ConsoleAction::NavigateForwards => if self.depth() <= 1 {
                &&& after.depth() == 0
                &&& after.text() == Seq::<u8>::empty()
                &&& after.cursor() == 0
            } else {
                &&& after.depth() == self.depth() - 1
                &&& after.text() == self.line_at(after.depth())
                &&& after.cursor() == after.text().len()
            },
            ConsoleAction::ShiftLeft => {
                &&& after.text() == self.text()
                &&& after.depth() == self.depth()
                &&& after.cursor() == if self.cursor() == 0 {
                    0
                } else {
                    self.cursor() - 1
                }
            },
            ConsoleAction::ShiftRight => {
                &&& after.text() == self.text()
                &&& after.depth() == self.depth()
                &&& after.cursor() == if self.cursor() == self.text().len() {
                    self.cursor()
                } else {
                    self.cursor() + 1
                }
            },
            ConsoleAction::ShiftHome => {
                &&& after.text() == self.text()
                &&& after.depth() == self.depth()
                &&& after.cursor() == 0
            },
            ConsoleAction::ShiftEnd => {
                &&& after.text() == self.text()
                &&& after.depth() == self.depth()
                &&& after.cursor() == self.text().len()
            },
            _ => *after == *self,
        }
    }
}

impl ConsoleAction {
    /// What performing the action does to the session and the stack of
    /// input contexts, and the action `next` that follows from it.
    pub open spec fn performed<Pan>(
        self,
        session: &ConsoleSession,
        session_after: &ConsoleSession,
        events: &EventInterpreter,
        events_after: &EventInterpreter,
        next: Option<Action<Pan>>,
    ) -> bool {
        &&& session_after.spec_console().wf()
        &&& session_after.spec_console().lines().len() == session.spec_console().lines().len()
        &&& match self {
            ConsoleAction::Show => {
                &&& session_after.showing()
                &&& session_after.spec_console() == session.spec_console()
                &&& next matches Some(Action::Window(WindowAction::UngrabCursor))
                &&& events_after.contexts().len() == events.contexts().len() + 1
                &&& events_after.contexts().drop_last() == events.contexts()
                &&& events_after.contexts().last() matches InputContext::Console(context)
                    && context.just_opened()
            },
            ConsoleAction::Hide => {
                let before = events.contexts();
                let after = events_after.contexts();
                &&& !session_after.showing()
                &&& session_after.spec_console() == session.spec_console()
                &&& before.len() <= 1 ==> next.is_none() && after.len() == 0
                &&& before.len() > 1 ==> {
                    &&& after.len() == before.len() - 1
                    &&& next == before[before.len() - 2].activation::<Pan>()
                    &&& before[before.len() - 2].activated(&after[before.len() - 2])
                    &&& forall|i: int| 0 <= i < before.len() - 2 ==> after[i] == before[i]
                }
            },
            ConsoleAction::Submit => {
                &&& session_after.showing() == session.showing()
                &&& *events_after == *events
                &&& exists|submitted: Option<String>|
                    {
                        &&& #[trigger] session.spec_console().submitted(
                            &session_after.spec_console(),
                            submitted,
                        )
                        &&& next == match submitted {
                            Some(line) => match spec_command(line@) {
                                Some(config) => Some(Action::<Pan>::Config(config)),
                                None => None,
                            },
                            None => None,
                        }
                    }
            },
            _ => {
                &&& session_after.showing() == session.showing()
                &&& *events_after == *events
                &&& next.is_none()
                &&& session.spec_console().edited(self, &session_after.spec_console())
            },
        }
    }

    /// Perform & consume the action on the session and the stack of input
    /// contexts, and return the action that follows from it, if any.
    ///
    /// Showing the console pushes its input context and hiding it pops the
    /// context again; what follows is the action of the context that comes
    /// to the top. Submitting yields the action that the line stands for.
    /// Every other action edits the console and nothing follows.
    pub fn perform<Pan>(self, session: &mut ConsoleSession, events: &mut EventInterpreter) -> (next:
        Option<Action<Pan>>)
        requires
            old(session).spec_console().wf(),
            old(session).spec_console().lines().len() > 0,
        ensures
            self.performed(old(session), final(session), old(events), final(events), next),
    {
        match self {
            ConsoleAction::Show => {
                session.show();
                events.push_context(InputContext::Console(ConsoleInputContext::new()))
            },
            ConsoleAction::Hide => {
                session.dismiss();
                events.pop_context()
            },
            ConsoleAction::Insert(code) => {
                if code <= 0x7f {
                    session.console.insert(code);
                }
                None
            },
            ConsoleAction::Submit => session.submit(),
            ConsoleAction::Backspace => {
                session.console.backspace();
                None
            },
            ConsoleAction::NavigateBackwards => {
                session.console.navigate_backwards();
                None
            },
            ConsoleAction::NavigateForwards => {
                session.console.navigate_forwards();
                None
            },
            ConsoleAction::ShiftLeft => {
                session.console.shift_left();
                None
            },
            ConsoleAction::ShiftRight => {
                session.console.shift_right();
                None
            },
            ConsoleAction::ShiftHome => {
                session.console.shift_home();
                None
            },
            ConsoleAction::ShiftEnd => {
                session.console.shift_end();
                None
            },
        }
    }
}

} // verus!
