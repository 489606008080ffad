use vstd::prelude::*;
use vstd::arithmetic::div_mod::{lemma_fundamental_div_mod, lemma_mod_multiples_vanish};
use crate::layout::{split_frame, tiles, total_width, Region};
use crate::panels::{LoggingPanel, MenuPanel};

verus! {

/// The panel that has the focus.
#[derive(Clone, Copy, Debug, PartialEq, Eq, Structural)]
pub enum FocusedWidgetArea {
    Menu,
    Actions,
}

impl FocusedWidgetArea {
    /// The other panel.
    pub open spec fn other(self) -> FocusedWidgetArea {
        match self {
            FocusedWidgetArea::Menu => FocusedWidgetArea::Actions,
            FocusedWidgetArea::Actions => FocusedWidgetArea::Menu,
        }
    }
}

impl Default for FocusedWidgetArea {
    fn default() -> (r: Self)
        ensures
            r == FocusedWidgetArea::Menu,
    {
        FocusedWidgetArea::Menu
    }
}

/// A key as the state machine sees it: the keys it maps, any character, and
/// every other key.
#[derive(Clone, Copy, Debug, PartialEq, Eq, Structural)]
pub enum KeyCode {
    Char(char),
    Left,
    Right,
    Tab,
    Other,
}

/// Whether a key went down, auto-repeated or came up.
#[derive(Clone, Copy, Debug, PartialEq, Eq, Structural)]
pub enum KeyEventKind {
    Press,
    Repeat,
    Release,
}

#[derive(Clone, Copy, Debug, PartialEq, Eq, Structural)]
pub struct KeyEvent {
    pub code: KeyCode,
    pub kind: KeyEventKind,
}

/// An input event read from the terminal: a key, or anything else (mouse,
/// resize, focus, paste).
#[derive(Clone, Copy, Debug, PartialEq, Eq, Structural)]
pub enum Event {
    Key(KeyEvent),
    Other,
}

/// The logical events the state machine acts on.
#[derive(Clone, Copy, Debug, PartialEq, Eq, Structural)]
pub enum Command {
    Quit,
    NavigateLeft,
    NavigateRight,
    LogAction,
    CycleFocus,
}

/// Outside work that handling an event asks the event loop to perform.
#[derive(Clone, Copy, Debug, PartialEq, Eq, Structural)]
pub enum Effect {
    Nothing,
    Authenticate,
}

/// The application's whole state. The counter wraps around at the bounds of
/// `i64`; `log_failed` records whether the last log action failed.
#[derive(Clone, Copy, Debug, PartialEq, Eq, Structural)]
pub struct App {
    pub counter: i64,
    pub focused_widget: FocusedWidgetArea,
    pub exit: bool,
    pub log_failed: bool,
}

/// The panels of one frame and the region each is drawn into.
pub struct FramePlan {
    pub menu: MenuPanel,
    pub menu_area: Region,
    pub logging: LoggingPanel,
    pub logging_area: Region,
}

/// The command a key stands for, if any.
pub open spec fn command_of(code: KeyCode) -> Option<Command> {
    match code {
        KeyCode::Char(c) => if c == 'q' {
            Some(Command::Quit)
        } else if c == 'L' {
            Some(Command::LogAction)
        } else {
            None
        },
        KeyCode::Left => Some(Command::NavigateLeft),
        KeyCode::Right => Some(Command::NavigateRight),
        KeyCode::Tab => Some(Command::CycleFocus),
        KeyCode::Other => None,
    }
}

/// The state a command leads to. Once the application is exiting no command
/// changes anything.
pub open spec fn step(s: App, c: Command) -> App {
    if s.exit {
        s
    } else {
        match c {
            Command::Quit => App { exit: true, ..s },
            Command::NavigateLeft => App {
                counter: vstd::wrapping::i64_specs::wrapping_sub(s.counter, 1),
                ..s
            },
            Command::NavigateRight => App {
                counter: vstd::wrapping::i64_specs::wrapping_add(s.counter, 1),
                ..s
            },
            Command::LogAction => s,
            Command::CycleFocus => App { focused_widget: s.focused_widget.other(), ..s },
        }
    }
}

/// The outside work a command asks for in a state.
pub open spec fn effect_of(s: App, c: Command) -> Effect {
    if !s.exit && c == Command::LogAction {
        Effect::Authenticate
    } else {
        Effect::Nothing
    }
}

/// The state a key leads to: its command's, or the same state for a key
/// with none.
pub open spec fn step_key(s: App, code: KeyCode) -> App {
    match command_of(code) {
        Some(c) => step(s, c),
        None => s,
    }
}

pub open spec fn effect_of_key(s: App, code: KeyCode) -> Effect {
    match command_of(code) {
        Some(c) => effect_of(s, c),
        None => Effect::Nothing,
    }
}

/// Only key presses reach the state machine.
pub open spec fn pressed_key(e: Event) -> Option<KeyCode> {
    match e {
        Event::Key(k) => if k.kind == KeyEventKind::Press {
            Some(k.code)
        } else {
            None
        },
        Event::Other => None,
    }
}

pub open spec fn step_event(s: App, e: Event) -> App {
    match pressed_key(e) {
        Some(code) => step_key(s, code),
        None => s,
    }
}

pub open spec fn effect_of_event(s: App, e: Event) -> Effect {
    match pressed_key(e) {
        Some(code) => effect_of_key(s, code),
        None => Effect::Nothing,
    }
}

/// The state after a sequence of commands, first to last.
pub open spec fn run(s: App, cs: Seq<Command>) -> App
    decreases cs.len(),
{
    if cs.len() == 0 {
        s
    } else {
        run(step(s, cs[0]), cs.drop_first())
    }
}

/// The state after a sequence of input events, first to last.
pub open spec fn run_events(s: App, es: Seq<Event>) -> App
    decreases es.len(),
{
    if es.len() == 0 {
        s
    } else {
        run_events(step_event(s, es[0]), es.drop_first())
    }
}

/// Rights less lefts in a sequence of commands.
pub open spec fn net_moves(cs: Seq<Command>) -> int
    decreases cs.len(),
{
    if cs.len() == 0 {
        0
    } else {
        let d: int = if cs[0] == Command::NavigateRight {
            1
        } else if cs[0] == Command::NavigateLeft {
            -1
        } else {
            0
        };
        d + net_moves(cs.drop_first())
    }
}

/// The `i64` that `x` wraps around to.
pub open spec fn wrap_i64(x: int) -> int {
    (x - i64::MIN) % 0x1_0000_0000_0000_0000int + i64::MIN
}

impl App {
    /// The state the application starts in.
    pub open spec fn initial() -> App {
        App { counter: 0, focused_widget: FocusedWidgetArea::Menu, exit: false, log_failed: false }
    }
}

impl Default for App {
    fn default() -> (r: Self)
        ensures
            r == App::initial(),
    {
        App { counter: 0, focused_widget: FocusedWidgetArea::Menu, exit: false, log_failed: false }
    }
}

impl App {
    /// Whether the event loop should draw and read another event.
    pub fn is_running(&self) -> (r: bool)
        ensures
            r == !self.exit,
    {
        !self.exit
    }

    /// Marks the application as exiting.
    pub fn exit(&mut self)
        ensures
            *final(self) == (App { exit: true, ..*old(self) }),
    {
        self.exit = true;
    }

    /// Adds one to the counter, wrapping from the largest `i64` to the least.
    pub fn increment_counter(&mut self)
        ensures
            *final(self) == (App {
                counter: vstd::wrapping::i64_specs::wrapping_add(old(self).counter, 1),
                ..*old(self)
            }),
    {
        self.counter = self.counter.wrapping_add(1);
    }

    /// Takes one from the counter, wrapping from the least `i64` to the largest.
    pub fn decrement_counter(&mut self)
        ensures
            *final(self) == (App {
                counter: vstd::wrapping::i64_specs::wrapping_sub(old(self).counter, 1),
                ..*old(self)
            }),
    {
        self.counter = self.counter.wrapping_sub(1);
    }

    /// Moves the focus to the other panel.
    pub fn next_focus(&mut self)
        ensures
            *final(self) == (App { focused_widget: old(self).focused_widget.other(), ..*old(self) }),
    {
        self.focused_widget = match self.focused_widget {
            FocusedWidgetArea::Menu => FocusedWidgetArea::Actions,
            FocusedWidgetArea::Actions => FocusedWidgetArea::Menu,
        };
    }

    /// The log action: it changes no state and asks the event loop to call
    /// the authentication service.
    pub fn self_log_time(&self) -> (r: Effect)
        ensures
            r == Effect::Authenticate,
    {
        Effect::Authenticate
    }

    /// Records how the last log action ended, so that a failure is shown
    /// rather than ending the application.
    pub fn record_log_outcome(&mut self, succeeded: bool)
        ensures
            *final(self) == (App { log_failed: !succeeded, ..*old(self) }),
    {
        self.log_failed = !succeeded;
    }

    /// Applies one command. Once the application is exiting, nothing changes.
    pub fn apply_command(&mut self, command: Command) -> (r: Effect)
        ensures
            *final(self) == step(*old(self), command),
            r == effect_of(*old(self), command),
    {
        if self.exit {
            return Effect::Nothing;
        }
        match command {
            Command::Quit => {
                self.exit();
                Effect::Nothing
            },
            Command::NavigateLeft => {
                self.decrement_counter();
                Effect::Nothing
            },
            Command::NavigateRight => {
                self.increment_counter();
                Effect::Nothing
            },
            Command::LogAction => self.self_log_time(),
            Command::CycleFocus => {
                self.next_focus();
                Effect::Nothing
            },
        }
    }

    /// Handles one pressed key: `q` quits, the left and right arrows move the
    /// counter, `L` asks for the log action, Tab moves the focus, and any
    /// other key does nothing.
    pub fn handle_key_event(&mut self, key_event: KeyEvent) -> (r: Effect)
        ensures
            *final(self) == step_key(*old(self), key_event.code),
            r == effect_of_key(*old(self), key_event.code),
    {
        match command_for(key_event.code) {
            Some(command) => self.apply_command(command),
            None => Effect::Nothing,
        }
    }

    /// Handles one input event: key presses go to `handle_key_event`, and
    /// every other event (key releases and repeats included) is dropped.
    pub fn handle_events(&mut self, event: Event) -> (r: Effect)
        ensures
            *final(self) == step_event(*old(self), event),
            r == effect_of_event(*old(self), event),
    {
        match event {
            Event::Key(key_event) => match key_event.kind {
                KeyEventKind::Press => self.handle_key_event(key_event),
                _ => Effect::Nothing,
            },
            Event::Other => Effect::Nothing,
        }
    }

    /// The frame for the current state: the menu panel in the first column of
    /// `area` and the activity panel in the third, the focused one marked.
    pub fn draw(&self, area: Region) -> (r: FramePlan)
        ensures
            r.menu.title@ == "Hello"@,
            r.menu.is_focused == (self.focused_widget == FocusedWidgetArea::Menu),
            r.logging.title@ == "World"@,
            r.logging.is_focused == (self.focused_widget == FocusedWidgetArea::Actions),
            r.logging.log_failed == self.log_failed,
            r.menu.is_focused != r.logging.is_focused,
            exists|cols: Seq<Region>|
                cols.len() == 3 && tiles(area, cols) && r.menu_area == cols[0] && r.logging_area
                    == cols[2],
            tiles(area, seq![r.menu_area, r.logging_area]),
    {
        let columns = split_frame(area);
        let menu = MenuPanel {
            title: String::from_str("Hello"),
            is_focused: self.focused_widget == FocusedWidgetArea::Menu,
        };
        let logging = LoggingPanel {
            title: String::from_str("World"),
            is_focused: self.focused_widget == FocusedWidgetArea::Actions,
            log_failed: self.log_failed,
        };
        let r = FramePlan { menu, menu_area: columns[0], logging, logging_area: columns[2] };
        proof {
            let pair = seq![r.menu_area, r.logging_area];
            assert(pair[0] == columns@[0] && pair[1] == columns@[2]);
            assert(columns@[0].right() <= columns@[2].x);
            assert(pair.drop_first().drop_first() =~= Seq::<Region>::empty());
            assert(columns@.drop_first().drop_first().drop_first() =~= Seq::<Region>::empty());
            reveal_with_fuel(total_width, 4);
            assert(total_width(pair) == pair[0].width + pair[1].width + total_width(
                pair.drop_first().drop_first(),
            ));
            assert(tiles(area, columns@));
            assert(total_width(columns@) == columns@[0].width + columns@[1].width + columns@[2].width
                + total_width(columns@.drop_first().drop_first().drop_first()));
        }
        r
    }
}

/// The command a key stands for, if any.
pub fn command_for(code: KeyCode) -> (r: Option<Command>)
    ensures
        r == command_of(code),
{
    match code {
        KeyCode::Char(c) => if c == 'q' {
            Some(Command::Quit)
        } else if c == 'L' {
            Some(Command::LogAction)
        } else {
            None
        },
        KeyCode::Left => Some(Command::NavigateLeft),
        KeyCode::Right => Some(Command::NavigateRight),
        KeyCode::Tab => Some(Command::CycleFocus),
        KeyCode::Other => None,
    }
}

proof fn lemma_wrap_shift(a: int, b: int)
    ensures
        wrap_i64(wrap_i64(a) + b) == wrap_i64(a + b),
{
    let m = 0x1_0000_0000_0000_0000int;
    let x = a - i64::MIN;
    lemma_fundamental_div_mod(x, m);
    let q = x / m;
    assert(m * (-q) == -(m * q)) by (nonlinear_arith);
    lemma_mod_multiples_vanish(-q, x + b, m);
    assert(wrap_i64(a) + b - i64::MIN == m * (-q) + (x + b));
}

proof fn lemma_wrap_in_range(x: int)
    requires
        i64::MIN <= x <= i64::MAX,
    ensures
        wrap_i64(x) == x,
{
}

proof fn lemma_wrap_bounds(x: int)
    ensures
        i64::MIN <= wrap_i64(x) <= i64::MAX,
{
}

proof fn lemma_wrapping_steps(c: i64)
    ensures
        vstd::wrapping::i64_specs::wrapping_add(c, 1) == wrap_i64(c + 1),
        vstd::wrapping::i64_specs::wrapping_sub(c, 1) == wrap_i64(c - 1),
{
}

/// Left and right moves accumulate: from a running state, a sequence of them
/// leaves the counter at its start value plus the rights less the lefts,
/// wrapped into `i64`, and changes nothing else. Where that sum is an `i64`
/// the counter equals it exactly.
pub proof fn lemma_navigation_accumulates(s: App, cs: Seq<Command>)
    requires
        !s.exit,
        forall|i: int|
            0 <= i < cs.len() ==> #[trigger] cs[i] == Command::NavigateLeft || cs[i]
                == Command::NavigateRight,
    ensures
        run(s, cs) == (App { counter: wrap_i64(s.counter + net_moves(cs)) as i64, ..s }),
        i64::MIN <= s.counter + net_moves(cs) <= i64::MAX ==> run(s, cs).counter == s.counter
            + net_moves(cs),
    decreases cs.len(),
{
    lemma_wrap_bounds(s.counter + net_moves(cs));
    if cs.len() == 0 {
        lemma_wrap_in_range(s.counter as int);
    } else {
        let rest = cs.drop_first();
        let s1 = step(s, cs[0]);
        lemma_wrapping_steps(s.counter);
        assert forall|i: int| 0 <= i < rest.len() implies #[trigger] rest[i] == Command::NavigateLeft
            || rest[i] == Command::NavigateRight by {
            assert(rest[i] == cs[i + 1]);
        }
        lemma_navigation_accumulates(s1, rest);
        if cs[0] == Command::NavigateRight {
            lemma_wrap_shift(s.counter + 1, net_moves(rest));
        } else {
            lemma_wrap_shift(s.counter - 1, net_moves(rest));
        }
    }
    if i64::MIN <= s.counter + net_moves(cs) <= i64::MAX {
        lemma_wrap_in_range(s.counter + net_moves(cs));
    }
}

/// The order of left and right moves does not matter: two sequences of them
/// with the same rights less lefts (any reordering of one sequence, say)
/// lead from one state to the same state.
pub proof fn lemma_navigation_order_free(s: App, a: Seq<Command>, b: Seq<Command>)
    requires
        forall|i: int|
            0 <= i < a.len() ==> #[trigger] a[i] == Command::NavigateLeft || a[i]
                == Command::NavigateRight,
        forall|i: int|
            0 <= i < b.len() ==> #[trigger] b[i] == Command::NavigateLeft || b[i]
                == Command::NavigateRight,
        net_moves(a) == net_moves(b),
    ensures
        run(s, a) == run(s, b),
{
    if s.exit {
        lemma_quit_absorbing(s, a);
        lemma_quit_absorbing(s, b);
    } else {
        lemma_navigation_accumulates(s, a);
        lemma_navigation_accumulates(s, b);
    }
}

/// Cycling the focus twice gives back the state it started from.
pub proof fn lemma_cycle_focus_involution(s: App)
    ensures
        step(step(s, Command::CycleFocus), Command::CycleFocus) == s,
        step_key(step_key(s, KeyCode::Tab), KeyCode::Tab) == s,
{
}

/// In every state exactly one of the two panels has the focus.
pub proof fn lemma_exactly_one_focused(s: App)
    ensures
        (s.focused_widget == FocusedWidgetArea::Menu) != (s.focused_widget
            == FocusedWidgetArea::Actions),
{
}

/// Once the application is exiting, no sequence of commands changes its
/// state, and no command asks for outside work.
pub proof fn lemma_quit_absorbing(s: App, cs: Seq<Command>)
    requires
        s.exit,
    ensures
        run(s, cs) == s,
        forall|c: Command| #[trigger] effect_of(s, c) == Effect::Nothing,
    decreases cs.len(),
{
    if cs.len() > 0 {
        lemma_quit_absorbing(s, cs.drop_first());
    }
}

/// Once the application is exiting, no sequence of input events changes its
/// state, and no event asks for outside work.
pub proof fn lemma_quit_absorbing_events(s: App, es: Seq<Event>)
    requires
        s.exit,
    ensures
        run_events(s, es) == s,
        forall|e: Event| #[trigger] effect_of_event(s, e) == Effect::Nothing,
    decreases es.len(),
{
    if es.len() > 0 {
        lemma_quit_absorbing_events(s, es.drop_first());
    }
}

} // verus!
