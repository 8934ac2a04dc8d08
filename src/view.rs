//! The view state machine: which screen is shown, and whether the calendar spans are
//! framed as time passed or time left.
use vstd::prelude::*;

verus! {

/// The screens, in the order that the cycle key walks them.
#[derive(Clone, Copy, Debug, PartialEq, Eq, Structural)]
pub enum View {
    Main,
    TimeLimit,
    TimeBlocks,
}

/// Screens in the ring of views.
pub const VIEW_COUNT: usize = 3;

/// The state a session carries from tick to tick.
#[derive(Clone, Copy, Debug, PartialEq, Eq, Structural)]
pub struct AppState {
    pub current_view: View,
    pub show_remaining: bool,
}

/// What one key press means to the session.
#[derive(Clone, Copy, Debug, PartialEq, Eq, Structural)]
pub enum InputSymbol {
    Cycle,
    Toggle,
    Quit,
    ForceQuit,
    Unrecognized,
}

/// A key as the terminal reports it.
#[derive(Clone, Copy, Debug, PartialEq, Eq, Structural)]
pub enum Key {
    Char(char),
    Tab,
    Other,
}

/// Position of a view in the ring.
pub open spec fn view_index(v: View) -> int {
    match v {
        View::Main => 0,
        View::TimeLimit => 1,
        View::TimeBlocks => 2,
    }
}

/// The view that follows `v` in the ring; the last one wraps to the first.
pub open spec fn spec_next_view(v: View) -> View {
    match v {
        View::Main => View::TimeLimit,
        View::TimeLimit => View::TimeBlocks,
        View::TimeBlocks => View::Main,
    }
}

pub fn next_view(v: View) -> (r: View)
    ensures
        r == spec_next_view(v),
        view_index(r) == (view_index(v) + 1) % 3,
{
    match v {
        View::Main => View::TimeLimit,
        View::TimeLimit => View::TimeBlocks,
        View::TimeBlocks => View::Main,
    }
}

/// The meaning of a key event: only presses count; `q` quits, Ctrl+C forces a quit,
/// Tab cycles the view, and the space bar toggles elapsed against remaining.
pub open spec fn spec_classify_key(key: Key, ctrl: bool, is_press: bool) -> InputSymbol {
    if !is_press {
        InputSymbol::Unrecognized
    } else {
        match key {
            Key::Char(c) => {
                if c == 'q' {
                    InputSymbol::Quit
                } else if c == 'c' && ctrl {
                    InputSymbol::ForceQuit
                } else if c == ' ' {
                    InputSymbol::Toggle
                } else {
                    InputSymbol::Unrecognized
                }
            },
            Key::Tab => InputSymbol::Cycle,
            Key::Other => InputSymbol::Unrecognized,
        }
    }
}

pub fn classify_key(key: Key, ctrl: bool, is_press: bool) -> (r: InputSymbol)
    ensures
        r == spec_classify_key(key, ctrl, is_press),
{
    if !is_press {
        return InputSymbol::Unrecognized;
    }
    match key {
        Key::Char(c) => {
            if c == 'q' {
                InputSymbol::Quit
            } else if c == 'c' && ctrl {
                InputSymbol::ForceQuit
            } else if c == ' ' {
                InputSymbol::Toggle
            } else {
                InputSymbol::Unrecognized
            }
        },
        Key::Tab => InputSymbol::Cycle,
        Key::Other => InputSymbol::Unrecognized,
    }
}

/// Whether a key ends the session: `q`, or `c` with Ctrl held.
pub fn should_exit(key: Key, ctrl: bool) -> (r: bool)
    ensures
        r == (key == Key::Char('q') || (key == Key::Char('c') && ctrl)),
{
    match key {
        Key::Char(c) => c == 'q' || (c == 'c' && ctrl),
        _ => false,
    }
}

/// Whether a symbol ends the session.
pub open spec fn is_quit(symbol: InputSymbol) -> bool {
    symbol == InputSymbol::Quit || symbol == InputSymbol::ForceQuit
}

/// The state after one symbol; quitting and unrecognized symbols leave it as it is.
pub open spec fn step(s: AppState, symbol: InputSymbol) -> AppState {
    match symbol {
        InputSymbol::Cycle => AppState { current_view: spec_next_view(s.current_view), ..s },
        InputSymbol::Toggle => AppState { show_remaining: !s.show_remaining, ..s },
        _ => s,
    }
}

/// The state after a run of symbols, the first one first.
pub open spec fn run(s: AppState, symbols: Seq<InputSymbol>) -> AppState
    decreases symbols.len(),
{
    if symbols.len() == 0 {
        s
    } else {
        step(run(s, symbols.drop_last()), symbols.last())
    }
}

/// `n` cycle symbols in a row.
pub open spec fn cycles(n: nat) -> Seq<InputSymbol> {
    Seq::new(n, |i: int| InputSymbol::Cycle)
}

impl AppState {
    pub open spec fn spec_initial() -> AppState {
        AppState { current_view: View::Main, show_remaining: false }
    }

    /// A session starts on the main view, showing time passed.
    pub fn new() -> (r: AppState)
        ensures
            r == AppState::spec_initial(),
    {
        AppState { current_view: View::Main, show_remaining: false }
    }
}

/// Applies one input symbol to the session state; returns whether the session ends.
pub fn handle_input(app_state: &mut AppState, symbol: InputSymbol) -> (quit: bool)
    ensures
        quit == is_quit(symbol),
        *final(app_state) == step(*old(app_state), symbol),
{
    match symbol {
        InputSymbol::Quit | InputSymbol::ForceQuit => true,
        InputSymbol::Cycle => {
            app_state.current_view = next_view(app_state.current_view);
            false
        },
        InputSymbol::Toggle => {
            app_state.show_remaining = !app_state.show_remaining;
            false
        },
        InputSymbol::Unrecognized => false,
    }
}

/// `n` cycle symbols move the view `n` places along the ring of views and leave
/// the remaining-time toggle alone.
pub proof fn lemma_cycles_advance(s: AppState, n: nat)
    ensures
        view_index(run(s, cycles(n)).current_view) == (view_index(s.current_view) + n) % (VIEW_COUNT as int),
        run(s, cycles(n)).show_remaining == s.show_remaining,
    decreases n,
{
    if n > 0 {
        assert(cycles(n).drop_last() =~= cycles((n - 1) as nat));
        lemma_cycles_advance(s, (n - 1) as nat);
    }
}

/// From the main view, `n` cycle symbols reach the view at position `n` modulo the
/// ring's size, and as many symbols as there are views come back to the main view.
pub proof fn lemma_cycling_from_main(n: nat)
    ensures
        view_index(run(AppState::spec_initial(), cycles(n)).current_view) == (n as int) % (VIEW_COUNT as int),
        run(AppState::spec_initial(), cycles(VIEW_COUNT as nat)) == AppState::spec_initial(),
{
    lemma_cycles_advance(AppState::spec_initial(), n);
    lemma_cycles_advance(AppState::spec_initial(), VIEW_COUNT as nat);
    let back = run(AppState::spec_initial(), cycles(VIEW_COUNT as nat));
    assert(view_index(back.current_view) == 0);
    assert(back.current_view == View::Main);
}

} // verus!
