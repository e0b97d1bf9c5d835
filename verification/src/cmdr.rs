//! The console itself: which view it shows, where a frame's keys go, and what
//! it draws.

use vstd::prelude::*;
use vstd::string::*;
use crate::draw::{
    make_small_text, small_text, Background, Color, Frame, FrameView, Text, TextSize, TextView,
    Unit,
};
use crate::dump::{dump_lines, format_dump, window_in_range, DumpError};
use crate::entry::{edit_address, type_text};
use crate::keys::FrameInput;
use crate::machine::{with_up, ControllerState, Machine, MEMORY_SIZE};
use crate::numeral::{decimal, push_decimal, push_decimal_justified, right_justified};
use crate::screen::{console_columns, console_columns_spec};

verus! {

/// The number of history lines the console shows: the newest ones.
pub const HISTORY_ROWS: usize = 23;

/// The ticks between two changes of the cursor.
pub const BLINK_TICKS: u16 = 1000;

/// The row of the cycle counter.
pub const CYCLES_ROW: usize = 22;

/// The byte that a new console watches.
pub const WATCHED_BYTE: u16 = 55122;

/// What an input mode collects.
#[derive(Clone, Copy, Debug, PartialEq, Eq, Structural)]
pub enum InputMode {
    /// The start address of a memory dump, as far as it is typed.
    ViewMemory(u16),
}

/// The view the console shows.
#[derive(Clone, Copy, Debug, PartialEq, Eq, Structural)]
pub enum Mode {
    Help,
    History,
    Input(InputMode),
}

/// One line of the overlay: what it samples from the machine.
#[derive(Clone, Copy, Debug, PartialEq, Eq, Structural)]
pub enum Overlay {
    PC,
    MemByte(u16),
    /// Reserved: draws nothing.
    Reg(u8),
    /// Reserved: draws nothing.
    ExtReg(u8),
}

/// What the host is told at a tick.
#[derive(Clone, Copy, Debug, PartialEq, Eq, Structural)]
pub enum UpdateEvent {
    /// A tick began.
    Tick,
    /// The machine ran, as `UpdateAction::Execute` asked, and is now halted
    /// or not.
    Executed { halted: bool },
}

/// What the host does next.
#[derive(Clone, Copy, Debug, PartialEq, Eq, Structural)]
pub enum UpdateAction {
    /// Nothing: the tick is over.
    Continue,
    /// Run the machine for one step and report with
    /// `UpdateEvent::Executed`.
    Execute,
    /// End the session: the machine has halted.
    Finish,
}

/// The console.
pub struct Cmdr {
    active: bool,
    overlay: Vec<Overlay>,
    history: Vec<String>,
    mode: Mode,
    cursor_blink: (u16, bool),
}

/// The console as a value of mathematics.
pub struct CmdrView {
    /// Whether the console, not the machine, has the keys and the screen.
    pub active: bool,
    pub overlay: Seq<Overlay>,
    /// The lines written so far, oldest first.
    pub history: Seq<Seq<char>>,
    pub mode: Mode,
    /// The ticks left until the cursor changes, and whether it shows.
    pub cursor_blink: (u16, bool),
}

/// What one frame of input leads to.
pub struct InputStep {
    pub console: CmdrView,
    pub controller: ControllerState,
    /// Whether the session ends, or why a dump was refused.
    pub outcome: Result<bool, DumpError>,
}

impl View for Cmdr {
    type V = CmdrView;

    closed spec fn view(&self) -> CmdrView {
        CmdrView {
            active: self.active,
            overlay: self.overlay@,
            history: self.history.deep_view(),
            mode: self.mode,
            cursor_blink: self.cursor_blink,
        }
    }
}

/// A console as `Cmdr::new` makes it.
pub open spec fn initial_view() -> CmdrView {
    CmdrView {
        active: false,
        overlay: seq![Overlay::PC, Overlay::MemByte(WATCHED_BYTE)],
        history: Seq::empty(),
        mode: Mode::Help,
        cursor_blink: (0, false),
    }
}

/// The view to fall back to when an input mode ends: the history once
/// anything was written to it, the help before that.
pub open spec fn cleared_mode(history: Seq<Seq<char>>) -> Mode {
    if history.len() == 0 {
        Mode::Help
    } else {
        Mode::History
    }
}

/// The mode after the keys that select one: V opens the address entry at
/// zero, H shows the help, and V wins where both went down.
pub open spec fn selected_mode(mode: Mode, frame: FrameInput) -> Mode {
    if frame.pressed_v {
        Mode::Input(InputMode::ViewMemory(0))
    } else if frame.pressed_h {
        Mode::Help
    } else {
        mode
    }
}

/// The address that the entry holds; zero while no entry is open.
pub open spec fn entry_address(mode: Mode) -> u16 {
    match mode {
        Mode::Input(InputMode::ViewMemory(addr)) => addr,
        _ => 0,
    }
}

/// Whether this frame asks for a dump that memory cannot give: the address
/// entry is open, it is not cancelled, Return went down, and the window
/// reaches past the end.
pub open spec fn dump_refused(pre: CmdrView, frame: FrameInput, memory: Seq<u8>) -> bool {
    &&& selected_mode(pre.mode, frame) matches Mode::Input(InputMode::ViewMemory(addr))
    &&& !frame.pressed_escape
    &&& frame.pressed_return
    &&& !window_in_range(memory.len(), addr)
}

/// Whether Escape cancels the address entry in this frame: it went down, and
/// the entry is open once the mode is selected.
pub open spec fn entry_cancelled(mode: Mode, frame: FrameInput) -> bool {
    frame.pressed_escape && selected_mode(mode, frame) is Input
}

/// The console after a frame of input that it took itself.
///
/// P hands the keys back to the machine. Then a mode is selected. Then, if
/// the address entry is open: Escape ends it and hands the keys back; Return
/// writes the dump at the address to the history and ends it, or does nothing
/// where the dump is refused; anything else edits the address. Outside the
/// address entry Escape does nothing.
pub open spec fn console_input(pre: CmdrView, frame: FrameInput, memory: Seq<u8>) -> CmdrView {
    let active = pre.active && !frame.pressed_p && !entry_cancelled(pre.mode, frame);
    let mode = selected_mode(pre.mode, frame);
    match mode {
        Mode::Input(InputMode::ViewMemory(addr)) => {
            if frame.pressed_escape {
                CmdrView { active, mode: cleared_mode(pre.history), ..pre }
            } else if frame.pressed_return {
                if window_in_range(memory.len(), addr) {
                    let history = pre.history + dump_lines(memory, addr as int);
                    CmdrView { active, history, mode: cleared_mode(history), ..pre }
                } else {
                    CmdrView { active, mode, ..pre }
                }
            } else {
                CmdrView {
                    active,
                    mode: Mode::Input(InputMode::ViewMemory(type_text(addr, frame.text@))),
                    ..pre
                }
            }
        },
        _ => CmdrView { active, mode, ..pre },
    }
}

/// What one frame of input leads to.
///
/// An active console takes the frame itself and leaves the controller alone.
/// Otherwise Escape ends the session, P activates the console, and without
/// either the controller's up flag follows the W key.
pub open spec fn input_spec(
    pre: CmdrView,
    frame: FrameInput,
    memory: Seq<u8>,
    controller: ControllerState,
) -> InputStep {
    if pre.active {
        InputStep {
            console: console_input(pre, frame, memory),
            controller,
            outcome: if dump_refused(pre, frame, memory) {
                Err(DumpError::RangeInvalid)
            } else {
                Ok(false)
            },
        }
    } else if frame.pressed_escape {
        InputStep { console: pre, controller, outcome: Ok(true) }
    } else if frame.pressed_p {
        InputStep { console: CmdrView { active: true, ..pre }, controller, outcome: Ok(false) }
    } else {
        InputStep { console: pre, controller: with_up(controller, frame.held_w), outcome: Ok(false) }
    }
}

/// The cursor one tick later: it counts down, and from zero it starts over
/// and changes.
pub open spec fn blinked(cursor_blink: (u16, bool)) -> (u16, bool) {
    if cursor_blink.0 == 0 {
        (BLINK_TICKS, !cursor_blink.1)
    } else {
        ((cursor_blink.0 - 1) as u16, cursor_blink.1)
    }
}

/// The console after an event of a tick, and what the host does next.
///
/// At a tick an active console moves its cursor and an inactive one has the
/// machine run. After the machine ran, the session ends if it has halted.
pub open spec fn update_spec(pre: CmdrView, event: UpdateEvent) -> (CmdrView, UpdateAction) {
    match event {
        UpdateEvent::Tick => if pre.active {
            (CmdrView { cursor_blink: blinked(pre.cursor_blink), ..pre }, UpdateAction::Continue)
        } else {
            (pre, UpdateAction::Execute)
        },
        UpdateEvent::Executed { halted } => (
            pre,
            if halted {
                UpdateAction::Finish
            } else {
                UpdateAction::Continue
            },
        ),
    }
}

/// The overlay line of the program counter, in row `row`.
pub open spec fn pc_text(pc: u16, row: usize) -> TextView {
    small_text("PC: "@ + right_justified(decimal(pc as nat), 5), 10, 31, row, Color::White)
}

/// The overlay line of a watched byte, in row `row`: its address, and the
/// value that memory holds there.
pub open spec fn byte_text(addr: u16, value: u8, row: usize) -> TextView {
    small_text(
        decimal(addr as nat) + ": "@ + right_justified(decimal(value as nat), 3),
        12,
        30,
        row,
        Color::White,
    )
}

/// The line of the cycle counter.
pub open spec fn cycles_text(cycles: usize) -> TextView {
    small_text(decimal(cycles as nat), 22, 30, CYCLES_ROW, Color::White)
}

/// The overlay lines. Every item has the row of its place in the overlay,
/// also behind an item that draws nothing.
pub open spec fn overlay_texts(overlay: Seq<Overlay>, pc: u16, memory: Seq<u8>) -> Seq<TextView>
    decreases overlay.len(),
{
    if overlay.len() == 0 {
        Seq::empty()
    } else {
        let above = overlay_texts(overlay.drop_last(), pc, memory);
        let row = (overlay.len() - 1) as usize;
        match overlay.last() {
            Overlay::PC => above.push(pc_text(pc, row)),
            Overlay::MemByte(addr) => above.push(byte_text(addr, memory[addr as int], row)),
            Overlay::Reg(_) => above,
            Overlay::ExtReg(_) => above,
        }
    }
}

/// The console's heading.
pub open spec fn title_text() -> TextView {
    TextView {
        text: "Memory Commander"@,
        width: 20,
        x: 2,
        y: 2,
        unit: Unit::Pixels,
        size: TextSize::Normal,
        color: Color::White,
    }
}

/// The number of history lines that show.
pub open spec fn shown_rows(history: Seq<Seq<char>>) -> nat {
    if history.len() <= HISTORY_ROWS {
        history.len()
    } else {
        HISTORY_ROWS as nat
    }
}

/// Row `i` of the history view: the newest lines, oldest of them first, from
/// the third row down.
pub open spec fn history_text(history: Seq<Seq<char>>, columns: usize, i: int) -> TextView {
    small_text(
        history[history.len() - shown_rows(history) + i],
        columns,
        1,
        (3 + i) as usize,
        Color::White,
    )
}

/// The texts of the active console, under its heading: the help, the
/// history, or the address entry with the address as far as it is typed.
pub open spec fn console_texts(view: CmdrView, columns: usize) -> Seq<TextView> {
    seq![title_text()] + match view.mode {
        Mode::Help => seq![small_text("v) View memory contents"@, columns, 1, 3, Color::White)],
        Mode::Input(InputMode::ViewMemory(addr)) => seq![
            small_text("View memory range:"@, columns, 1, 4, Color::Blue),
            small_text(
                "Start: "@ + right_justified(decimal(addr as nat), 5),
                columns,
                2,
                5,
                Color::White,
            ),
        ],
        Mode::History => Seq::new(
            shown_rows(view.history),
            |i: int| history_text(view.history, columns, i),
        ),
    }
}

/// The frame the console draws. Active, it fills the screen with black and
/// writes its own texts, `columns` characters to a line. Otherwise the
/// machine's picture shows, with the overlay and the cycle counter on it.
pub open spec fn render_spec(
    view: CmdrView,
    pc: u16,
    memory: Seq<u8>,
    cycles: usize,
    columns: usize,
) -> FrameView {
    if view.active {
        FrameView {
            background: Background::Fill(Color::Black),
            texts: console_texts(view, columns),
        }
    } else {
        FrameView {
            background: Background::Machine,
            texts: overlay_texts(view.overlay, pc, memory).push(cycles_text(cycles)),
        }
    }
}

/// When the address entry ends, by Escape or by a dump, the console shows the
/// help if its history is empty and the history if it is not. Escape writes
/// nothing, so there the history of before decides. A dump has written its
/// lines by then, so it ends in the history view.
pub proof fn lemma_entry_ends_in_cleared_mode(pre: CmdrView, frame: FrameInput, memory: Seq<u8>)
    requires
        selected_mode(pre.mode, frame) matches Mode::Input(InputMode::ViewMemory(addr)) && (
        frame.pressed_escape || (frame.pressed_return && window_in_range(memory.len(), addr))),
    ensures
        console_input(pre, frame, memory).mode == cleared_mode(
            console_input(pre, frame, memory).history,
        ),
        frame.pressed_escape ==> console_input(pre, frame, memory).history == pre.history
            && console_input(pre, frame, memory).mode == cleared_mode(pre.history),
        !frame.pressed_escape ==> console_input(pre, frame, memory).history == pre.history
            + dump_lines(memory, entry_address(selected_mode(pre.mode, frame)) as int)
            && console_input(pre, frame, memory).mode == Mode::History,
{
}

/// Outside the address entry, keys that select no mode leave the mode and
/// the history alone, and only P hands the keys back to the machine. So
/// Escape there has no effect: without P the console stays as it is.
pub proof fn lemma_mode_kept_outside_entry(pre: CmdrView, frame: FrameInput, memory: Seq<u8>)
    requires
        !(pre.mode is Input),
        !frame.pressed_h,
        !frame.pressed_v,
    ensures
        console_input(pre, frame, memory).mode == pre.mode,
        console_input(pre, frame, memory).history == pre.history,
        console_input(pre, frame, memory).active == (pre.active && !frame.pressed_p),
        !frame.pressed_p ==> console_input(pre, frame, memory) == pre,
{
}

/// The console keeps the keys through a frame unless P went down or Escape
/// cancelled the address entry.
pub proof fn lemma_keys_handed_back(pre: CmdrView, frame: FrameInput, memory: Seq<u8>)
    requires
        pre.active,
    ensures
        !console_input(pre, frame, memory).active <==> frame.pressed_p || entry_cancelled(
            pre.mode,
            frame,
        ),
{
}

/// Input only ever writes behind the history, and changes neither a line
/// that stands there, nor the overlay, nor the cursor.
pub proof fn lemma_input_appends_only(
    pre: CmdrView,
    frame: FrameInput,
    memory: Seq<u8>,
    controller: ControllerState,
)
    ensures
        pre.history.is_prefix_of(input_spec(pre, frame, memory, controller).console.history),
        input_spec(pre, frame, memory, controller).console.overlay == pre.overlay,
        input_spec(pre, frame, memory, controller).console.cursor_blink == pre.cursor_blink,
{
    let post = input_spec(pre, frame, memory, controller).console;
    if post.history != pre.history {
        let addr = entry_address(selected_mode(pre.mode, frame));
        assert(post.history == pre.history + dump_lines(memory, addr as int));
    }
}

/// The console is activated by P alone, and that changes nothing else.
pub proof fn lemma_activation_keeps_mode(
    pre: CmdrView,
    frame: FrameInput,
    memory: Seq<u8>,
    controller: ControllerState,
)
    requires
        !pre.active,
    ensures
        input_spec(pre, frame, memory, controller).console.active <==> frame.pressed_p
            && !frame.pressed_escape,
        input_spec(pre, frame, memory, controller).console == (CmdrView {
            active: input_spec(pre, frame, memory, controller).console.active,
            ..pre
        }),
{
}

/// A tick changes nothing but the cursor, and that only while the console is
/// active.
pub proof fn lemma_update_moves_cursor_only(pre: CmdrView, event: UpdateEvent)
    ensures
        update_spec(pre, event).0 == (CmdrView {
            cursor_blink: update_spec(pre, event).0.cursor_blink,
            ..pre
        }),
        !pre.active ==> update_spec(pre, event).0 == pre,
{
}

impl Cmdr {
    /// A console that is not active, shows the help, has written nothing,
    /// and overlays the program counter and one byte of memory.
    pub fn new() -> (cmdr: Self)
        ensures
            cmdr@ == initial_view(),
    {
        let mut overlay: Vec<Overlay> = Vec::new();
        overlay.push(Overlay::PC);
        overlay.push(Overlay::MemByte(WATCHED_BYTE));
        let cmdr = Cmdr {
            active: false,
            overlay,
            history: Vec::new(),
            mode: Mode::Help,
            cursor_blink: (0, false),
        };
        assert(cmdr@.overlay =~= initial_view().overlay);
        assert(cmdr@.history =~= initial_view().history);
        cmdr
    }

    /// Takes one frame of input. Returns whether the session ends, or the
    /// reason a dump was refused. The machine's memory is only read.
    pub fn input(&mut self, frame: &FrameInput, machine: &mut Machine) -> (outcome: Result<
        bool,
        DumpError,
    >)
        ensures
            final(self)@ == input_spec(
                old(self)@,
                *frame,
                old(machine).memory@,
                old(machine).input_state,
            ).console,
            final(machine).input_state == input_spec(
                old(self)@,
                *frame,
                old(machine).memory@,
                old(machine).input_state,
            ).controller,
            outcome == input_spec(
                old(self)@,
                *frame,
                old(machine).memory@,
                old(machine).input_state,
            ).outcome,
            final(machine).memory == old(machine).memory,
            final(machine).pc == old(machine).pc,
            final(machine).cycles_executed == old(machine).cycles_executed,
    {
        if self.active {
            match self.input_cmdr(frame, &machine.memory) {
                Ok(()) => Ok(false),
                Err(error) => Err(error),
            }
        } else {
            if frame.pressed_escape {
                return Ok(true);
            }
            if frame.pressed_p {
                self.active = true;
                return Ok(false);
            }
            if frame.held_w {
                machine.input_state.up = true;
                machine.input_state.cached = None;
            } else {
                machine.input_state.up = false;
                machine.input_state.cached = None;
            }
            Ok(false)
        }
    }

    /// The frame to draw on a screen of `width` by `height` pixels, given
    /// what the machine holds.
    pub fn render(&self, machine: &Machine, width: usize, height: usize) -> (frame: Frame)
        ensures
            frame@ == render_spec(
                self@,
                machine.pc,
                machine.memory@,
                machine.cycles_executed,
                console_columns_spec(width, height),
            ),
    {
        self.render_with(machine, console_columns(width, height))
    }

    /// The frame to draw, given what the machine holds and the number of
    /// small characters that fit on a line of the screen.
    pub fn render_with(&self, machine: &Machine, columns: usize) -> (frame: Frame)
        ensures
            frame@ == render_spec(
                self@,
                machine.pc,
                machine.memory@,
                machine.cycles_executed,
                columns,
            ),
    {
        if self.active {
            self.render_cmdr(columns)
        } else {
            let mut texts: Vec<Text> = Vec::new();
            let mut i: usize = 0;
            assert(self.overlay@.take(0) =~= Seq::<Overlay>::empty());
            while i < self.overlay.len()
                invariant
                    i <= self.overlay@.len(),
                    texts.deep_view() == overlay_texts(
                        self.overlay@.take(i as int),
                        machine.pc,
                        machine.memory@,
                    ),
                decreases self.overlay@.len() - i,
            {
                let ghost above = texts.deep_view();
                let ghost items = self.overlay@.take(i as int + 1);
                assert(items.drop_last() =~= self.overlay@.take(i as int));
                assert(items.last() == self.overlay@[i as int]);
                match self.overlay[i] {
                    Overlay::PC => {
                        let mut text = String::from_str("PC: ");
                        push_decimal_justified(&mut text, machine.pc as u64, 5);
                        texts.push(make_small_text(text, 10, 31, i, Color::White));
                        assert(texts.deep_view() =~= above.push(pc_text(machine.pc, i)));
                    },
                    Overlay::MemByte(addr) => {
                        let mut text = String::new();
                        push_decimal(&mut text, addr as u64);
                        text.append(": ");
                        push_decimal_justified(&mut text, machine.memory[addr as usize] as u64, 3);
                        assert(text@ =~= byte_text(addr, machine.memory@[addr as int], i).text);
                        texts.push(make_small_text(text, 12, 30, i, Color::White));
                        assert(texts.deep_view() =~= above.push(
                            byte_text(addr, machine.memory@[addr as int], i),
                        ));
                    },
                    Overlay::Reg(_) => {},
                    Overlay::ExtReg(_) => {},
                }
                i = i + 1;
            }
            assert(self.overlay@.take(i as int) =~= self.overlay@);
            let ghost overlaid = texts.deep_view();
            let mut text = String::new();
            push_decimal(&mut text, machine.cycles_executed as u64);
            texts.push(make_small_text(text, 22, 30, CYCLES_ROW, Color::White));
            assert(texts.deep_view() =~= overlaid.push(cycles_text(machine.cycles_executed)));
            Frame { background: Background::Machine, texts }
        }
    }

    /// Takes an event of a tick and says what the host does next.
    pub fn update(&mut self, event: UpdateEvent) -> (action: UpdateAction)
        ensures
            final(self)@ == update_spec(old(self)@, event).0,
            action == update_spec(old(self)@, event).1,
    {
        match event {
            UpdateEvent::Tick => {
                if self.active {
                    self.update_cmdr();
                    UpdateAction::Continue
                } else {
                    UpdateAction::Execute
                }
            },
            UpdateEvent::Executed { halted } => {
                if halted {
                    UpdateAction::Finish
                } else {
                    UpdateAction::Continue
                }
            },
        }
    }

    /// Whether the console, not the machine, has the keys and the screen.
    pub fn is_active(&self) -> (active: bool)
        ensures
            active == self@.active,
    {
        self.active
    }

    /// The view the console shows.
    pub fn mode(&self) -> (mode: Mode)
        ensures
            mode == self@.mode,
    {
        self.mode
    }

    /// The lines written so far, oldest first.
    pub fn history(&self) -> (history: &Vec<String>)
        ensures
            history.deep_view() == self@.history,
    {
        &self.history
    }

    /// The items of the overlay, top first.
    pub fn overlay(&self) -> (overlay: &Vec<Overlay>)
        ensures
            overlay@ == self@.overlay,
    {
        &self.overlay
    }

    /// Whether the cursor shows.
    pub fn cursor_visible(&self) -> (visible: bool)
        ensures
            visible == self@.cursor_blink.1,
    {
        self.cursor_blink.1
    }

    fn clear_mode(&mut self)
        ensures
            final(self)@ == (CmdrView { mode: cleared_mode(old(self)@.history), ..old(self)@ }),
    {
        if self.history.is_empty() {
            self.mode = Mode::Help;
        } else {
            self.mode = Mode::History;
        }
    }

    fn input_cmdr(&mut self, frame: &FrameInput, memory: &[u8; MEMORY_SIZE]) -> (done: Result<
        (),
        DumpError,
    >)
        ensures
            final(self)@ == console_input(old(self)@, *frame, memory@),
            done == if dump_refused(old(self)@, *frame, memory@) {
                Err::<(), DumpError>(DumpError::RangeInvalid)
            } else {
                Ok(())
            },
    {
        if frame.pressed_p {
            self.active = false;
        }
        if frame.pressed_h {
            self.mode = Mode::Help;
        }
        if frame.pressed_v {
            self.mode = Mode::Input(InputMode::ViewMemory(0));
        }
        match self.mode {
            Mode::Help => {},
            Mode::History => {},
            Mode::Input(InputMode::ViewMemory(addr)) => {
                if frame.pressed_escape {
                    self.active = false;
                    self.clear_mode();
                    return Ok(());
                }
                if frame.pressed_return {
                    match format_dump(memory.as_slice(), addr) {
                        Ok(lines) => {
                            let mut lines = lines;
                            let ghost written = lines.deep_view();
                            self.history.append(&mut lines);
                            assert(self.history.deep_view() =~= old(self)@.history + written);
                            self.clear_mode();
                            return Ok(());
                        },
                        Err(error) => {
                            return Err(error);
                        },
                    }
                }
                let edited = edit_address(addr, &frame.text);
                self.mode = Mode::Input(InputMode::ViewMemory(edited));
            },
        }
        Ok(())
    }

    fn render_cmdr(&self, columns: usize) -> (frame: Frame)
        ensures
            frame@ == (FrameView {
                background: Background::Fill(Color::Black),
                texts: console_texts(self@, columns),
            }),
    {
        let mut texts: Vec<Text> = Vec::new();
        texts.push(
            Text {
                text: String::from_str("Memory Commander"),
                width: 20,
                x: 2,
                y: 2,
                unit: Unit::Pixels,
                size: TextSize::Normal,
                color: Color::White,
            },
        );
        match self.mode {
            Mode::Help => {
                let text = String::from_str("v) View memory contents");
                texts.push(make_small_text(text, columns, 1, 3, Color::White));
            },
            Mode::Input(InputMode::ViewMemory(addr)) => {
                let prompt = String::from_str("View memory range:");
                texts.push(make_small_text(prompt, columns, 1, 4, Color::Blue));
                let mut start = String::from_str("Start: ");
                push_decimal_justified(&mut start, addr as u64, 5);
                texts.push(make_small_text(start, columns, 2, 5, Color::White));
            },
            Mode::History => {
                let len = self.history.len();
                let shown = if len <= HISTORY_ROWS {
                    len
                } else {
                    HISTORY_ROWS
                };
                let first = len - shown;
                let mut i: usize = 0;
                while i < shown
                    invariant
                        i <= shown <= HISTORY_ROWS,
                        shown == shown_rows(self@.history),
                        len == self.history@.len(),
                        first == len - shown,
                        texts@.len() == 1 + i,
                        texts@[0]@ == title_text(),
                        forall|k: int|
                            0 <= k < i ==> (#[trigger] texts@[1 + k])@ == history_text(
                                self@.history,
                                columns,
                                k,
                            ),
                    decreases shown - i,
                {
                    let line = self.history[first + i].clone();
                    texts.push(make_small_text(line, columns, 1, 3 + i, Color::White));
                    i = i + 1;
                }
                assert forall|j: int| 1 <= j < 1 + shown implies #[trigger] texts.deep_view()[j]
                    == history_text(self@.history, columns, j - 1) by {
                    assert(texts@[1 + (j - 1)]@ == history_text(self@.history, columns, j - 1));
                }
            },
        }
        assert(texts.deep_view() =~= console_texts(self@, columns));
        Frame { background: Background::Fill(Color::Black), texts }
    }

    fn update_cmdr(&mut self)
        ensures
            final(self)@ == (CmdrView {
                cursor_blink: blinked(old(self)@.cursor_blink),
                ..old(self)@
            }),
    {
        if self.cursor_blink.0 == 0 {
            self.cursor_blink = (BLINK_TICKS, !self.cursor_blink.1);
        } else {
            self.cursor_blink = (self.cursor_blink.0 - 1, self.cursor_blink.1);
        }
    }
}

} // verus!
