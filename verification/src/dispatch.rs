//! Performing actions: every action but one on the window is carried out
//! on the state it is scoped to; an action on the window is handed back.

use crate::action::{Action, AppConfig, WindowAction};
use crate::console::ConsoleSession;
use crate::input::{EventInterpreter, SceneInputState};
use vstd::prelude::*;

verus! {

impl<Pan> Action<Pan> {
    /// What performing the action does: an action on the application
    /// state changes the configuration, an action on the scene updates the
    /// input state, an action on the console is performed on the session
    /// and the input contexts, and what follows from it is performed in
    /// turn. An action on the window changes nothing here: it is `window`,
    /// for whoever owns the window to carry out.
    pub open spec fn performed<F: Fn(Pan, Pan) -> Pan>(
        self,
        config: &AppConfig,
        config_after: &AppConfig,
        session: &ConsoleSession,
        session_after: &ConsoleSession,
        events: &EventInterpreter,
        events_after: &EventInterpreter,
        input: &SceneInputState<Pan>,
        input_after: &SceneInputState<Pan>,
        merge: F,
        window: Option<WindowAction>,
    ) -> bool {
        match self {
            Action::Config(action) => {
                &&& *config_after == action.performed(*config)
                &&& *session_after == *session
                &&& *events_after == *events
                &&& *input_after == *input
                &&& window.is_none()
            },
            Action::Window(action) => {
                &&& *config_after == *config
                &&& *session_after == *session
                &&& *events_after == *events
                &&& *input_after == *input
                &&& window == Some(action)
            },
            Action::Scene(action) => {
                &&& *config_after == *config
                &&& *session_after == *session
                &&& *events_after == *events
                &&& input.updated(action, merge, input_after)
                &&& window.is_none()
            },
            Action::Console(action) => {
                &&& *input_after == *input
                &&& exists|next: Option<Action<Pan>>|
                    {
                        &&& #[trigger] action.performed(session, session_after, events, events_after, next)
                        &&& match next {
                            Some(Action::Window(follow)) => window == Some(follow) && *config_after
                                == *config,
                            Some(Action::Config(follow)) => window.is_none() && *config_after
                                == follow.performed(*config),
                            _ => window.is_none() && *config_after == *config,
                        }
                    }
            },
        }
    }

    /// Perform & consume the action, and return the action on the window
    /// that is left for the owner of the window to carry out, if any.
    pub fn perform<F: Fn(Pan, Pan) -> Pan>(
        self,
        config: &mut AppConfig,
        session: &mut ConsoleSession,
        events: &mut EventInterpreter,
        input: &mut SceneInputState<Pan>,
        merge: F,
    ) -> (window: Option<WindowAction>)
        requires
            old(session).spec_console().wf(),
            old(session).spec_console().lines().len() > 0,
            forall|prior: Pan, pan: Pan| call_requires(merge, (prior, pan)),
        ensures
            final(session).spec_console().wf(),
            final(session).spec_console().lines().len() > 0,
            self.performed(
                old(config),
                final(config),
                old(session),
                final(session),
                old(events),
                final(events),
                old(input),
                final(input),
                merge,
                window,
            ),
    {
        match self {
            Action::Config(action) => {
                action.perform(config);
                None
            },
            Action::Window(action) => Some(action),
            Action::Scene(action) => {
                input.update(action, merge);
                None
            },
            Action::Console(action) => {
                let next: Option<Action<Pan>> = action.perform(session, events);
                assert(action.performed(old(session), session, old(events), events, next));
                match next {
                    Some(Action::Window(follow)) => Some(follow),
                    Some(Action::Config(follow)) => {
                        follow.perform(config);
                        None
                    },
                    _ => None,
                }
            },
        }
    }
}

} // verus!
