//! Key handling: what each key press does to the interface state.

use vstd::prelude::*;

use crate::ui::app::{down_adjustment, toggle_adjustment, up_adjustment, Adjustment, App};

verus! {

/// A key as the terminal reports it, reduced to what the interface reads.
#[derive(Clone, Copy, Debug, PartialEq, Eq, Structural)]
pub enum Key {
    Char(char),
    Tab,
    Left,
    Right,
    Up,
    Down,
    Enter,
    /// Any other key; it does nothing.
    Other,
}

/// What a key press asks of the interface.
#[derive(Clone, Copy, Debug, PartialEq, Eq, Structural)]
pub enum Command {
    Quit,
    NextTab,
    FocusLeft,
    FocusRight,
    Raise,
    Lower,
    Toggle,
}

/// The command bound to a key: Ctrl-C and `q` quit, Tab switches tab, the
/// arrows move focus and adjust, Space and Enter toggle; the rest is ignored.
pub open spec fn command_for(key: Key, ctrl: bool) -> Option<Command> {
    if ctrl && key == Key::Char('c') {
        Some(Command::Quit)
    } else {
        match key {
            Key::Char('q') => Some(Command::Quit),
            Key::Tab => Some(Command::NextTab),
            Key::Left => Some(Command::FocusLeft),
            Key::Right => Some(Command::FocusRight),
            Key::Up => Some(Command::Raise),
            Key::Down => Some(Command::Lower),
            Key::Char(' ') => Some(Command::Toggle),
            Key::Enter => Some(Command::Toggle),
            _ => None,
        }
    }
}

/// The key bindings: only `q`, and `c` with Ctrl, quit; Tab alone switches
/// tab; each arrow does its own command; Space and Enter toggle; every other
/// key, every other character included, does nothing. Ctrl changes nothing
/// but what `c` does.
pub proof fn lemma_key_bindings(key: Key, ctrl: bool)
    ensures
        command_for(key, ctrl) == Some(Command::Quit) <==> (key == Key::Char('q') || (ctrl && key
            == Key::Char('c'))),
        command_for(key, ctrl) == Some(Command::NextTab) <==> key == Key::Tab,
        command_for(key, ctrl) == Some(Command::FocusLeft) <==> key == Key::Left,
        command_for(key, ctrl) == Some(Command::FocusRight) <==> key == Key::Right,
        command_for(key, ctrl) == Some(Command::Raise) <==> key == Key::Up,
        command_for(key, ctrl) == Some(Command::Lower) <==> key == Key::Down,
        command_for(key, ctrl) == Some(Command::Toggle) <==> (key == Key::Char(' ') || key
            == Key::Enter),
        forall|ch: char|
            ch != 'q' && ch != ' ' && !(ctrl && ch == 'c') ==> #[trigger] command_for(
                Key::Char(ch),
                ctrl,
            ) is None,
        command_for(Key::Other, ctrl) is None,
        key != Key::Char('c') ==> command_for(key, true) == command_for(key, false),
{
}

/// Apply a key press to the interface state; returns the change that the
/// shared controls are to make, if any.
pub fn handle_key(app: &mut App, key: Key, ctrl: bool) -> (r: Option<Adjustment>)
    requires
        command_for(key, ctrl) == Some(Command::NextTab) ==> old(app).tab_index < usize::MAX,
    ensures
        final(app).should_quit == (old(app).should_quit || command_for(key, ctrl) == Some(
            Command::Quit,
        )),
        final(app).tab_index == if command_for(key, ctrl) == Some(Command::NextTab) {
            (old(app).tab_index + 1) % 2
        } else {
            old(app).tab_index as int
        },
        final(app).focus == match command_for(key, ctrl) {
            Some(Command::FocusLeft) => old(app).focus.left(),
            Some(Command::FocusRight) => old(app).focus.right(),
            _ => old(app).focus,
        },
        final(app).should_quit == (old(app).should_quit || key == Key::Char('q') || (ctrl && key
            == Key::Char('c'))),
        command_for(key, ctrl) is None ==> r is None && final(app).tab_index == old(app).tab_index
            && final(app).focus == old(app).focus,
        final(app).logs@ == old(app).logs@,
        r == match command_for(key, ctrl) {
            Some(Command::Raise) => Some(up_adjustment(old(app).focus)),
            Some(Command::Lower) => Some(down_adjustment(old(app).focus)),
            Some(Command::Toggle) => toggle_adjustment(old(app).focus),
            _ => None,
        },
{
    proof {
        lemma_key_bindings(key, ctrl);
    }
    if ctrl && key == Key::Char('c') {
        app.quit();
        return None;
    }
    match key {
        Key::Char('q') => {
            app.quit();
            None
        },
        Key::Tab => {
            app.on_tab();
            None
        },
        Key::Left => {
            app.on_left();
            None
        },
        Key::Right => {
            app.on_right();
            None
        },
        Key::Up => Some(app.on_up()),
        Key::Down => Some(app.on_down()),
        Key::Char(' ') | Key::Enter => app.on_toggle(),
        _ => None,
    }
}

} // verus!
