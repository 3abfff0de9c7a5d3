//! Window events, as far as the application reacts to them.
use vstd::prelude::*;

verus! {

/// Whether a key went down or up.
#[derive(Clone, Copy, Debug, PartialEq, Eq, Structural)]
pub enum ElementState {
    Pressed,
    Released,
}

/// A key, by its meaning.
#[derive(Clone, Copy, Debug, PartialEq, Eq, Structural)]
pub enum KeyCode {
    H,
    Other,
}

/// A window event. The key is missing where the window system gives it no meaning.
#[derive(Clone, Copy, Debug, PartialEq)]
pub enum WindowEvent {
    KeyboardInput { state: ElementState, virtual_keycode: Option<KeyCode> },
    Other,
}

/// One step of taking an event in.
#[derive(Clone, Copy, Debug, PartialEq, Eq, Structural)]
pub enum InputCommand {
    /// Show the event to what keeps track of the keyboard.
    WatchKeyboard,
    /// Greet the user.
    Greet,
}

impl WindowEvent {
    /// What taking this event in means. The keyboard is kept track of in any case, and
    /// first.
    pub open spec fn commands(self) -> Seq<InputCommand> {
        if self.greets() {
            seq![InputCommand::WatchKeyboard, InputCommand::Greet]
        } else {
            seq![InputCommand::WatchKeyboard]
        }
    }

    /// The key H went down.
    pub open spec fn greets(self) -> bool {
        self == WindowEvent::KeyboardInput {
            state: ElementState::Pressed,
            virtual_keycode: Some(KeyCode::H),
        }
    }
}

/// The keyboard sees every event before anything else happens, and sees it once, whether
/// or not the application has a use for it. The user is greeted only if it has.
pub proof fn lemma_keyboard_sees_every_event(event: WindowEvent)
    ensures
        event.commands().len() > 0,
        forall|i: int|
            0 <= i < event.commands().len() ==> (#[trigger] event.commands()[i]
                == InputCommand::WatchKeyboard <==> i == 0),
        event.commands().contains(InputCommand::Greet) <==> event.greets(),
{
    if event.greets() {
        assert(event.commands()[1] == InputCommand::Greet);
    }
}

/// The only event that the application has a use for is a key going down that means H: not
/// one going up, not another key, not one without a meaning, and nothing but a key.
pub proof fn lemma_only_pressing_h_greets(event: WindowEvent)
    ensures
        event.greets() ==> event is KeyboardInput && event->state is Pressed
            && event->virtual_keycode is Some && event->virtual_keycode->0 is H,
        event is Other ==> !event.greets(),
        event matches WindowEvent::KeyboardInput { state, virtual_keycode } ==> {
            &&& state is Released ==> !event.greets()
            &&& virtual_keycode is None ==> !event.greets()
            &&& virtual_keycode matches Some(key) ==> (event.greets() <==> state is Pressed
                && key is H)
        },
{
}

/// Letting go of a key, and pressing it, never both greet; nor do two keys that differ.
pub proof fn lemma_greeting_tells_keys_apart(
    state: ElementState,
    other_state: ElementState,
    key: Option<KeyCode>,
    other_key: Option<KeyCode>,
)
    requires
        state != other_state || key != other_key,
    ensures
        !((WindowEvent::KeyboardInput { state, virtual_keycode: key }).greets() && (
        WindowEvent::KeyboardInput { state: other_state, virtual_keycode: other_key }).greets()),
{
}

/// What taking an event in means, by what the event holds: two steps for a key that means H
/// and goes down, one step for every other event.
pub proof fn lemma_events_are_watched_and_greeted(event: WindowEvent)
    ensures
        event.commands().len() == 1 || event.commands().len() == 2,
        event.commands()[0] is WatchKeyboard,
        event.commands().len() == 2 ==> event.commands()[1] is Greet,
        event.commands().len() == 2 <==> (event matches WindowEvent::KeyboardInput {
            state,
            virtual_keycode,
        } && state is Pressed && virtual_keycode is Some && virtual_keycode->0 is H),
{
}

} // verus!
