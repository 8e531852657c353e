//! Input contexts: how an event is read depends on what has the focus,
//! the scene or the console. The contexts form a stack; the topmost one
//! interprets the events.

use crate::action::{Action, ConsoleAction, SceneAction, WindowAction};
use ascii::AsciiChar;
use vstd::prelude::*;

verus! {

/// The keys that the contexts bind.
#[derive(Clone, Copy, Debug, PartialEq, Eq, Structural)]
pub enum Key {
    T,
    W,
    A,
    S,
    D,
    Space,
    LShift,
    Escape,
    Return,
    Back,
    Up,
    Down,
    Left,
    Right,
    Home,
    End,
    Tab,
    /// Any key that no context binds.
    Other,
}

/// An event of the window in focus or of a device, reduced to what the
/// contexts read.
#[derive(Clone, Copy)]
pub enum InputEvent<Pan> {
    /// The mouse moved.
    MouseMotion(Pan),
    /// A key went down (`pressed`) or up.
    Keyboard { key: Key, pressed: bool },
    /// A character was typed.
    ReceivedCharacter(char),
    /// Any other event.
    Other,
}

/// What became of an event.
#[derive(Clone, Copy)]
pub enum EventAction<Pan> {
    /// The input event was unprocessed by the context.
    Unconsumed,
    /// The input event was consumed by the context but produced no action.
    Consumed,
    /// The input event was consumed by the context and produced an action.
    React(Action<Pan>),
}

/// Queryable input state of the scene for one tick.
pub struct SceneInputState<Pan> {
    pub forward: bool,
    pub backward: bool,
    pub left: bool,
    pub right: bool,
    pub up: bool,
    pub down: bool,
    pub pan: Option<Pan>,
}

impl<Pan> SceneInputState<Pan> {
    /// No key is down and nothing was panned.
    pub fn new() -> (state: Self)
        ensures
            !state.forward,
            !state.backward,
            !state.left,
            !state.right,
            !state.up,
            !state.down,
            state.pan.is_none(),
    {
        Self {
            forward: false,
            backward: false,
            left: false,
            right: false,
            up: false,
            down: false,
            pan: None,
        }
    }

    /// Reset what lasts for one tick only: the pan. The keys stay as they are.
    pub fn reset(&mut self)
        ensures
            final(self).pan.is_none(),
            final(self).forward == old(self).forward,
            final(self).backward == old(self).backward,
            final(self).left == old(self).left,
            final(self).right == old(self).right,
            final(self).up == old(self).up,
            final(self).down == old(self).down,
    {
        self.pan = None;
    }

    /// `after` is the state after an emitted action: a key action sets its
    /// flag, and a pan is recorded, or merged by `merge` into the pan
    /// already recorded in this tick.
    pub open spec fn updated<F: Fn(Pan, Pan) -> Pan>(
        &self,
        action: SceneAction<Pan>,
        merge: F,
        after: &Self,
    ) -> bool {
        &&& after.forward == (match action {
            SceneAction::Forward(state) => state,
            _ => self.forward,
        })
        &&& after.backward == (match action {
            SceneAction::Backward(state) => state,
            _ => self.backward,
        })
        &&& after.left == (match action {
            SceneAction::Left(state) => state,
            _ => self.left,
        })
        &&& after.right == (match action {
            SceneAction::Right(state) => state,
            _ => self.right,
        })
        &&& after.up == (match action {
            SceneAction::Up(state) => state,
            _ => self.up,
        })
        &&& after.down == (match action {
            SceneAction::Down(state) => state,
            _ => self.down,
        })
        &&& match action {
            SceneAction::Pan(pan) => match self.pan {
                Some(prior) => after.pan.is_some() && call_ensures(
                    merge,
                    (prior, pan),
                    after.pan.unwrap(),
                ),
                None => after.pan == Some(pan),
            },
            _ => after.pan == self.pan,
        }
    }

    /// Update the input state with an emitted [`SceneAction`].
    ///
    /// A key action sets its flag. A pan is recorded, or merged by `merge`
    /// into the pan already recorded in this tick.
    pub fn update<F: Fn(Pan, Pan) -> Pan>(&mut self, action: SceneAction<Pan>, merge: F)
        requires
            forall|prior: Pan, pan: Pan| call_requires(merge, (prior, pan)),
        ensures
            old(self).updated(action, merge, final(self)),
    {
        match action {
            SceneAction::Forward(state) => {
                self.forward = state;
            },
            SceneAction::Backward(state) => {
                self.backward = state;
            },
            SceneAction::Left(state) => {
                self.left = state;
            },
            SceneAction::Right(state) => {
                self.right = state;
            },
            SceneAction::Up(state) => {
                self.up = state;
            },
            SceneAction::Down(state) => {
                self.down = state;
            },
            SceneAction::Pan(pan) => {
                let prior = self.pan.take();
                match prior {
                    Some(prior) => {
                        self.pan = Some(merge(prior, pan));
                    },
                    None => {
                        self.pan = Some(pan);
                    },
                }
            },
        }
    }
}

/// Interprets events as inputs to the scene.
pub struct SceneInputContext {}

impl SceneInputContext {
    pub fn new() -> (context: Self) {
        Self {  }
    }

    /// The action to take when the context comes to the top: grab the cursor.
    pub fn on_active<Pan>(&mut self) -> (action: Option<Action<Pan>>)
        ensures
            action matches Some(Action::Window(WindowAction::GrabCursor)),
    {
        Some(Action::Window(WindowAction::GrabCursor))
    }

    /// What the scene makes of an event.
    pub open spec fn interpreted<Pan>(event: InputEvent<Pan>) -> EventAction<Pan> {
        match event {
            InputEvent::MouseMotion(delta) => EventAction::React(
                Action::Scene(SceneAction::Pan(delta)),
            ),
            InputEvent::Keyboard { key, pressed } => match key {
                Key::T => EventAction::React(Action::Console(ConsoleAction::Show)),
                Key::Space => EventAction::React(Action::Scene(SceneAction::Up(pressed))),
                Key::LShift => EventAction::React(Action::Scene(SceneAction::Down(pressed))),
                Key::W => EventAction::React(Action::Scene(SceneAction::Forward(pressed))),
                Key::A => EventAction::React(Action::Scene(SceneAction::Left(pressed))),
                Key::S => EventAction::React(Action::Scene(SceneAction::Backward(pressed))),
                Key::D => EventAction::React(Action::Scene(SceneAction::Right(pressed))),
                _ => EventAction::Unconsumed,
            },
            _ => EventAction::Unconsumed,
        }
    }

    /// Interpret an event: mouse motion pans, the movement keys set their
    /// flags, and `T` opens the console.
    pub fn interpret<Pan>(&mut self, event: InputEvent<Pan>) -> (action: EventAction<Pan>)
        ensures
            action == Self::interpreted(event),
    {
        match event {
            InputEvent::MouseMotion(delta) => EventAction::React(
                Action::Scene(SceneAction::Pan(delta)),
            ),
            InputEvent::Keyboard { key, pressed } => match key {
                Key::T => EventAction::React(Action::Console(ConsoleAction::Show)),
                Key::Space => EventAction::React(Action::Scene(SceneAction::Up(pressed))),
                Key::LShift => EventAction::React(Action::Scene(SceneAction::Down(pressed))),
                Key::W => EventAction::React(Action::Scene(SceneAction::Forward(pressed))),
                Key::A => EventAction::React(Action::Scene(SceneAction::Left(pressed))),
                Key::S => EventAction::React(Action::Scene(SceneAction::Backward(pressed))),
                Key::D => EventAction::React(Action::Scene(SceneAction::Right(pressed))),
                _ => EventAction::Unconsumed,
            },
            _ => EventAction::Unconsumed,
        }
    }
}

/// The code of `ch` if it is an ASCII character.
pub open spec fn spec_ascii_code(ch: char) -> Option<u8> {
    if ch as u32 <= 0x7f {
        Some(ch as u8)
    } else {
        None
    }
}

/// Whether the ASCII code stands for a printable character, the space included.
pub open spec fn spec_printable(code: u8) -> bool {
    0x20 <= code <= 0x7e
}

/// Calls `AsciiChar::from_ascii` and, on success, `AsciiChar::as_byte`.
///
/// Trusted: a character up to U+007F is accepted and gives its own code;
/// any other character is refused.
#[verifier::external_body]
fn ascii_code(ch: char) -> (code: Option<u8>)
    ensures
        code == spec_ascii_code(ch),
{
    match AsciiChar::from_ascii(ch) {
        Ok(ascii) => Some(ascii.as_byte()),
        Err(_) => None,
    }
}

/// Calls `AsciiChar::is_ascii_printable` on the character that
/// `AsciiChar::new` makes of the code.
///
/// Trusted: of the ASCII codes exactly those from the space (0x20) to the
/// tilde (0x7e) are printable. `AsciiChar::new` panics for a code above
/// 0x7f.
#[verifier::external_body]
fn is_printable(code: u8) -> (printable: bool)
    requires
        code <= 0x7f,
    ensures
        printable == spec_printable(code),
{
    AsciiChar::new(code as char).is_ascii_printable()
}

/// Interprets events as inputs to the console.
pub struct ConsoleInputContext {
    /// A key press arrives both as a key event and as a typed character.
    /// The key that opened the console must not also be typed into it:
    /// this flag is set when the console opens and cleared by the first
    /// event, so that the first event is ignored if it is a character.
    did_just_open: bool,
}

impl ConsoleInputContext {
    /// Whether the console has opened and seen no event since.
    pub closed spec fn just_opened(&self) -> bool {
        self.did_just_open
    }

    pub fn new() -> (context: Self)
        ensures
            !context.just_opened(),
    {
        Self { did_just_open: false }
    }

    /// The action to take when the context comes to the top: release the cursor.
    pub fn on_active<Pan>(&mut self) -> (action: Option<Action<Pan>>)
        ensures
            final(self).just_opened(),
            action matches Some(Action::Window(WindowAction::UngrabCursor)),
    {
        self.did_just_open = true;
        Some(Action::Window(WindowAction::UngrabCursor))
    }

    /// What the console makes of a key that went down.
    pub open spec fn key_action<Pan>(key: Key) -> EventAction<Pan> {
        match key {
            Key::Escape => EventAction::React(Action::Console(ConsoleAction::Hide)),
            Key::Return => EventAction::React(Action::Console(ConsoleAction::Submit)),
            Key::Back => EventAction::React(Action::Console(ConsoleAction::Backspace)),
            Key::Up => EventAction::React(Action::Console(ConsoleAction::NavigateBackwards)),
            Key::Down => EventAction::React(Action::Console(ConsoleAction::NavigateForwards)),
            Key::Left => EventAction::React(Action::Console(ConsoleAction::ShiftLeft)),
            Key::Right => EventAction::React(Action::Console(ConsoleAction::ShiftRight)),
            Key::Home => EventAction::React(Action::Console(ConsoleAction::ShiftHome)),
            Key::End => EventAction::React(Action::Console(ConsoleAction::ShiftEnd)),
            _ => EventAction::Unconsumed,
        }
    }

    /// What the console makes of an event, given whether it has just opened.
    pub open spec fn interpreted<Pan>(just_opened: bool, event: InputEvent<Pan>) -> EventAction<
        Pan,
    > {
        match event {
            InputEvent::ReceivedCharacter(ch) => match spec_ascii_code(ch) {
                Some(code) => if !just_opened && spec_printable(code) {
                    EventAction::React(Action::Console(ConsoleAction::Insert(code)))
                } else {
                    EventAction::Unconsumed
                },
                None => EventAction::Unconsumed,
            },
            InputEvent::Keyboard { key, pressed } => if pressed {
                Self::key_action(key)
            } else {
                EventAction::Unconsumed
            },
            _ => EventAction::Unconsumed,
        }
    }

    /// What the console makes of a key that went down.
    fn receive_key<Pan>(key: Key) -> (action: EventAction<Pan>)
        ensures
            action == Self::key_action::<Pan>(key),
    {
        match key {
            Key::Escape => EventAction::React(Action::Console(ConsoleAction::Hide)),
            Key::Return => EventAction::React(Action::Console(ConsoleAction::Submit)),
            Key::Back => EventAction::React(Action::Console(ConsoleAction::Backspace)),
            Key::Up => EventAction::React(Action::Console(ConsoleAction::NavigateBackwards)),
            Key::Down => EventAction::React(Action::Console(ConsoleAction::NavigateForwards)),
            Key::Left => EventAction::React(Action::Console(ConsoleAction::ShiftLeft)),
            Key::Right => EventAction::React(Action::Console(ConsoleAction::ShiftRight)),
            Key::Home => EventAction::React(Action::Console(ConsoleAction::ShiftHome)),
            Key::End => EventAction::React(Action::Console(ConsoleAction::ShiftEnd)),
            _ => EventAction::Unconsumed,
        }
    }

    /// Interpret an event: a typed printable ASCII character is inserted,
    /// unless it is the first event after the console opened; the editing
    /// keys act when they go down. Any event clears the "just opened" flag.
    pub fn interpret<Pan>(&mut self, event: InputEvent<Pan>) -> (action: EventAction<Pan>)
        ensures
            !final(self).just_opened(),
            action == Self::interpreted(old(self).just_opened(), event),
    {
        let did_just_open: bool = self.did_just_open;
        self.did_just_open = false;
        match event {
            InputEvent::ReceivedCharacter(received_char) => {
                if !did_just_open {
                    match ascii_code(received_char) {
                        Some(code) => {
                            if is_printable(code) {
                                return EventAction::React(
                                    Action::Console(ConsoleAction::Insert(code)),
                                );
                            }
                        },
                        None => {},
                    }
                }
            },
            InputEvent::Keyboard { key, pressed } => {
                if pressed {
                    return Self::receive_key(key);
                }
            },
            _ => {},
        }
        EventAction::Unconsumed
    }
}

/// Each input context has its own bindings.
/// Contexts may safely bind different actions to the same events.
pub enum InputContext {
    Scene(SceneInputContext),
    Console(ConsoleInputContext),
}

impl InputContext {
    /// What the context makes of an event.
    pub open spec fn interpreted<Pan>(&self, event: InputEvent<Pan>) -> EventAction<Pan> {
        match self {
            InputContext::Scene(_) => SceneInputContext::interpreted(event),
            InputContext::Console(context) => ConsoleInputContext::interpreted(
                context.just_opened(),
                event,
            ),
        }
    }

    /// The action that the context asks for when it comes to the top.
    pub open spec fn activation<Pan>(&self) -> Option<Action<Pan>> {
        match self {
            InputContext::Scene(_) => Some(Action::Window(WindowAction::GrabCursor)),
            InputContext::Console(_) => Some(Action::Window(WindowAction::UngrabCursor)),
        }
    }

    /// The context after it has come to the top.
    pub open spec fn activated(&self, after: &Self) -> bool {
        match (self, after) {
            (InputContext::Scene(_), InputContext::Scene(_)) => true,
            (InputContext::Console(_), InputContext::Console(context)) => context.just_opened(),
            _ => false,
        }
    }

    /// The context after it has seen an event.
    pub open spec fn seen(&self, after: &Self) -> bool {
        match (self, after) {
            (InputContext::Scene(_), InputContext::Scene(_)) => true,
            (InputContext::Console(_), InputContext::Console(context)) => !context.just_opened(),
            _ => false,
        }
    }

    /// Tell the context that it has come to the top of the stack.
    pub fn on_active<Pan>(&mut self) -> (action: Option<Action<Pan>>)
        ensures
            action == old(self).activation::<Pan>(),
            old(self).activated(final(self)),
    {
        match self {
            InputContext::Scene(context) => context.on_active(),
            InputContext::Console(context) => context.on_active(),
        }
    }

    /// Let the context interpret an event.
    pub fn interpret<Pan>(&mut self, event: InputEvent<Pan>) -> (action: EventAction<Pan>)
        ensures
            action == old(self).interpreted(event),
            old(self).seen(final(self)),
    {
        match self {
            InputContext::Scene(context) => context.interpret(event),
            InputContext::Console(context) => context.interpret(event),
        }
    }
}

/// The stack of input contexts. The topmost context interprets the events.
pub struct EventInterpreter {
    context_stack: Vec<InputContext>,
}

impl EventInterpreter {
    /// The contexts, the topmost last.
    pub closed spec fn contexts(&self) -> Seq<InputContext> {
        self.context_stack@
    }

    /// An interpreter without a context.
    pub fn new() -> (interpreter: Self)
        ensures
            interpreter.contexts().len() == 0,
    {
        Self { context_stack: Vec::new() }
    }

    /// Make the given `context` the top-most selected input context and
    /// return the action that it asks for on coming to the top.
    pub fn push_context<Pan>(&mut self, context: InputContext) -> (action: Option<Action<Pan>>)
        ensures
            action == context.activation::<Pan>(),
            final(self).contexts().len() == old(self).contexts().len() + 1,
            final(self).contexts().drop_last() == old(self).contexts(),
            context.activated(&final(self).contexts().last()),
    {
        let mut context = context;
        let action = context.on_active();
        self.context_stack.push(context);
        assert(self.contexts().drop_last() =~= old(self).contexts());
        action
    }

    /// Remove the topmost input context from the priority stack, if any,
    /// and tell the context below, if any, that it has come to the top.
    pub fn pop_context<Pan>(&mut self) -> (action: Option<Action<Pan>>)
        ensures
            old(self).contexts().len() <= 1 ==> action.is_none() && final(self).contexts().len()
                == 0,
            old(self).contexts().len() > 1 ==> {
                let below = old(self).contexts().len() - 2;
                &&& final(self).contexts().len() == old(self).contexts().len() - 1
                &&& action == old(self).contexts()[below].activation::<Pan>()
                &&& old(self).contexts()[below].activated(&final(self).contexts()[below])
                &&& forall|i: int|
                    0 <= i < below ==> final(self).contexts()[i] == old(self).contexts()[i]
            },
    {
        self.context_stack.pop();
        let len: usize = self.context_stack.len();
        if len > 0 {
            let context: &mut InputContext = &mut self.context_stack[len - 1];
            context.on_active()
        } else {
            None
        }
    }

    /// Pass the `event` to the active input context, if any.
    /// Without a context the event is left unconsumed.
    pub fn consume<Pan>(&mut self, event: InputEvent<Pan>) -> (action: EventAction<Pan>)
        ensures
            final(self).contexts().len() == old(self).contexts().len(),
            old(self).contexts().len() == 0 ==> action matches EventAction::Unconsumed,
            old(self).contexts().len() > 0 ==> {
                let top = old(self).contexts().len() - 1;
                &&& action == old(self).contexts()[top].interpreted(event)
                &&& old(self).contexts()[top].seen(&final(self).contexts()[top])
                &&& forall|i: int|
                    0 <= i < top ==> final(self).contexts()[i] == old(self).contexts()[i]
            },
    {
        let len: usize = self.context_stack.len();
        if len > 0 {
            let context: &mut InputContext = &mut self.context_stack[len - 1];
            context.interpret(event)
        } else {
            EventAction::Unconsumed
        }
    }
}

/// An action scoped to the stack of input contexts.
pub enum InputSystemAction {
    /// Pop the current input context.
    PopContext,
    /// Push a new input context & make it active.
    PushContext(InputContext),
}

impl InputSystemAction {
    /// Perform & consume the action on the stack of contexts, and return
    /// the action that the context now on top asks for.
    pub fn perform<Pan>(self, events: &mut EventInterpreter) -> (action: Option<Action<Pan>>)
        ensures
            match self {
                InputSystemAction::PopContext => {
                    let before = old(events).contexts();
                    let after = final(events).contexts();
                    &&& before.len() <= 1 ==> action.is_none() && after.len() == 0
                    &&& before.len() > 1 ==> {
                        &&& after.len() == before.len() - 1
                        &&& action == before[before.len() - 2].activation::<Pan>()
                        &&& before[before.len() - 2].activated(&after[before.len() - 2])
                    }
                },
                InputSystemAction::PushContext(context) => {
                    &&& action == context.activation::<Pan>()
                    &&& final(events).contexts().drop_last() == old(events).contexts()
                    &&& context.activated(&final(events).contexts().last())
                },
            },
    {
        match self {
            InputSystemAction::PopContext => events.pop_context(),
            InputSystemAction::PushContext(context) => events.push_context(context),
        }
    }
}

/// Interprets events as inputs to the puppets of the scene.
pub struct PuppetInputContext {}

impl PuppetInputContext {
    pub fn new() -> (context: Self) {
        Self {  }
    }

    /// The action to take when the context comes to the top: grab the cursor.
    pub fn on_active<Pan>(&mut self) -> (action: Option<Action<Pan>>)
        ensures
            action matches Some(Action::Window(WindowAction::GrabCursor)),
    {
        Some(Action::Window(WindowAction::GrabCursor))
    }
}

/// The scene's context as an input context.
impl From<SceneInputContext> for InputContext {
    fn from(context: SceneInputContext) -> (converted: Self) {
        InputContext::Scene(context)
    }
}

impl vstd::std_specs::convert::FromSpecImpl<SceneInputContext> for InputContext {
    open spec fn obeys_from_spec() -> bool {
        true
    }

    open spec fn from_spec(context: SceneInputContext) -> Self {
        InputContext::Scene(context)
    }
}

/// The console's context as an input context.
impl From<ConsoleInputContext> for InputContext {
    fn from(context: ConsoleInputContext) -> (converted: Self) {
        InputContext::Console(context)
    }
}

impl vstd::std_specs::convert::FromSpecImpl<ConsoleInputContext> for InputContext {
    open spec fn obeys_from_spec() -> bool {
        true
    }

    open spec fn from_spec(context: ConsoleInputContext) -> Self {
        InputContext::Console(context)
    }
}

/// An action as the reaction to an event.
impl<Pan> From<Action<Pan>> for EventAction<Pan> {
    fn from(action: Action<Pan>) -> (converted: Self) {
        EventAction::React(action)
    }
}

impl<Pan> vstd::std_specs::convert::FromSpecImpl<Action<Pan>> for EventAction<Pan> {
    open spec fn obeys_from_spec() -> bool {
        true
    }

    open spec fn from_spec(action: Action<Pan>) -> Self {
        EventAction::React(action)
    }
}

/// An action on the console as the reaction to an event.
impl<Pan> From<ConsoleAction> for EventAction<Pan> {
    fn from(action: ConsoleAction) -> (converted: Self) {
        EventAction::React(Action::Console(action))
    }
}

impl<Pan> vstd::std_specs::convert::FromSpecImpl<ConsoleAction> for EventAction<Pan> {
    open spec fn obeys_from_spec() -> bool {
        true
    }

    open spec fn from_spec(action: ConsoleAction) -> Self {
        EventAction::React(Action::Console(action))
    }
}

/// An action on the scene as the reaction to an event.
impl<Pan> From<SceneAction<Pan>> for EventAction<Pan> {
    fn from(action: SceneAction<Pan>) -> (converted: Self) {
        EventAction::React(Action::Scene(action))
    }
}

impl<Pan> vstd::std_specs::convert::FromSpecImpl<SceneAction<Pan>> for EventAction<Pan> {
    open spec fn obeys_from_spec() -> bool {
        true
    }

    open spec fn from_spec(action: SceneAction<Pan>) -> Self {
        EventAction::React(Action::Scene(action))
    }
}

} // verus!
