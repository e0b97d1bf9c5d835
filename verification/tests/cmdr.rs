use maikor_cmdr::cmdr::{Cmdr, InputMode, Mode, Overlay, UpdateAction, UpdateEvent};
use maikor_cmdr::draw::{Background, Color, TextSize, Unit};
use maikor_cmdr::dump::DumpError;
use maikor_cmdr::entry::TextChar;
use maikor_cmdr::keys::FrameInput;
use maikor_cmdr::machine::{ControllerState, Machine, MEMORY_SIZE};

fn machine() -> Machine {
    let mut memory = [0u8; MEMORY_SIZE];
    for (i, byte) in memory.iter_mut().enumerate() {
        *byte = (i % 251) as u8;
    }
    Machine {
        pc: 50,
        memory,
        cycles_executed: 1234567,
        input_state: ControllerState {
            a: false,
            b: true,
            up: false,
            down: true,
            left: false,
            right: false,
            x: false,
            y: false,
            start: true,
            cached: Some([2, 1]),
        },
    }
}

fn no_keys() -> FrameInput {
    FrameInput {
        pressed_escape: false,
        pressed_p: false,
        pressed_h: false,
        pressed_v: false,
        pressed_return: false,
        held_w: false,
        text: Vec::new(),
    }
}

fn key_p() -> FrameInput {
    FrameInput { pressed_p: true, text: vec![TextChar::Char('p')], ..no_keys() }
}

fn key_v() -> FrameInput {
    FrameInput { pressed_v: true, text: vec![TextChar::Char('v')], ..no_keys() }
}

fn key_h() -> FrameInput {
    FrameInput { pressed_h: true, text: vec![TextChar::Char('h')], ..no_keys() }
}

fn key_escape() -> FrameInput {
    FrameInput { pressed_escape: true, ..no_keys() }
}

fn key_return() -> FrameInput {
    FrameInput { pressed_return: true, ..no_keys() }
}

fn text(chars: &str) -> FrameInput {
    FrameInput { text: chars.chars().map(TextChar::Char).collect(), ..no_keys() }
}

fn active_console(vm: &mut Machine) -> Cmdr {
    let mut cmdr = Cmdr::new();
    assert_eq!(cmdr.input(&key_p(), vm), Ok(false));
    assert!(cmdr.is_active());
    cmdr
}

fn console_with_history(vm: &mut Machine) -> Cmdr {
    let mut cmdr = active_console(vm);
    cmdr.input(&key_v(), vm).unwrap();
    cmdr.input(&key_return(), vm).unwrap();
    assert_eq!(cmdr.history().len(), 4);
    cmdr
}

#[test]
fn a_new_console_is_inactive_and_shows_help() {
    let cmdr = Cmdr::new();
    assert!(!cmdr.is_active());
    assert_eq!(cmdr.mode(), Mode::Help);
    assert!(cmdr.history().is_empty());
    assert_eq!(cmdr.overlay(), &vec![Overlay::PC, Overlay::MemByte(55122)]);
    assert!(!cmdr.cursor_visible());
}

#[test]
fn p_activates_the_console_and_keeps_the_mode() {
    let mut vm = machine();
    let before = vm.clone();
    let mut cmdr = Cmdr::new();
    assert_eq!(cmdr.input(&key_p(), &mut vm), Ok(false));
    assert!(cmdr.is_active());
    assert_eq!(cmdr.mode(), Mode::Help);
    assert!(cmdr.history().is_empty());
    assert_eq!(vm.input_state, before.input_state);

    let mut cmdr = console_with_history(&mut vm);
    cmdr.input(&key_p(), &mut vm).unwrap();
    assert!(!cmdr.is_active());
    assert_eq!(cmdr.mode(), Mode::History);
    cmdr.input(&key_p(), &mut vm).unwrap();
    assert!(cmdr.is_active());
    assert_eq!(cmdr.mode(), Mode::History);
    assert_eq!(cmdr.history().len(), 4);
}

#[test]
fn escape_ends_the_session_while_the_machine_has_the_keys() {
    let mut vm = machine();
    let before = vm.clone();
    let mut cmdr = Cmdr::new();
    assert_eq!(cmdr.input(&key_escape(), &mut vm), Ok(true));
    assert!(!cmdr.is_active());
    assert_eq!(vm.input_state, before.input_state);
    let both = FrameInput { pressed_escape: true, pressed_p: true, held_w: true, ..no_keys() };
    assert_eq!(cmdr.input(&both, &mut vm), Ok(true));
    assert!(!cmdr.is_active());
    assert_eq!(vm.input_state, before.input_state);
}

#[test]
fn the_up_flag_follows_the_w_key() {
    let mut vm = machine();
    let mut cmdr = Cmdr::new();
    let held = FrameInput { held_w: true, ..no_keys() };
    assert_eq!(cmdr.input(&held, &mut vm), Ok(false));
    assert!(vm.input_state.up);
    assert_eq!(vm.input_state.cached, None);
    assert!(vm.input_state.b && vm.input_state.down && vm.input_state.start);
    assert!(!vm.input_state.a && !vm.input_state.left && !vm.input_state.right);

    vm.input_state.cached = Some([1, 0]);
    assert_eq!(cmdr.input(&held, &mut vm), Ok(false));
    assert!(vm.input_state.up);
    assert_eq!(vm.input_state.cached, None);

    vm.input_state.cached = Some([1, 0]);
    assert_eq!(cmdr.input(&no_keys(), &mut vm), Ok(false));
    assert!(!vm.input_state.up);
    assert_eq!(vm.input_state.cached, None);
    assert!(!cmdr.is_active());
}

#[test]
fn an_active_console_leaves_the_controller_alone() {
    let mut vm = machine();
    let mut cmdr = active_console(&mut vm);
    let before = vm.input_state;
    let held = FrameInput { held_w: true, ..no_keys() };
    assert_eq!(cmdr.input(&held, &mut vm), Ok(false));
    assert_eq!(vm.input_state, before);
    assert!(cmdr.is_active());
}

#[test]
fn escape_outside_the_address_entry_has_no_effect() {
    let mut vm = machine();
    let before = vm.clone();
    let mut cmdr = active_console(&mut vm);
    assert_eq!(cmdr.mode(), Mode::Help);
    assert_eq!(cmdr.input(&key_escape(), &mut vm), Ok(false));
    assert_eq!(cmdr.mode(), Mode::Help);
    assert!(cmdr.history().is_empty());
    assert!(cmdr.is_active());
    assert!(!cmdr.cursor_visible());
    assert_eq!(cmdr.overlay(), &vec![Overlay::PC, Overlay::MemByte(55122)]);
    assert_eq!(vm.input_state, before.input_state);
    assert!(vm.memory == before.memory);

    let mut cmdr = console_with_history(&mut vm);
    let history: Vec<String> = cmdr.history().clone();
    assert_eq!(cmdr.mode(), Mode::History);
    assert_eq!(cmdr.input(&key_escape(), &mut vm), Ok(false));
    assert_eq!(cmdr.mode(), Mode::History);
    assert_eq!(cmdr.history(), &history);
    assert!(cmdr.is_active());
}

#[test]
fn escape_with_a_key_that_leaves_the_entry_cancels_nothing() {
    let mut vm = machine();
    let mut cmdr = active_console(&mut vm);
    cmdr.input(&key_v(), &mut vm).unwrap();
    cmdr.input(&text("42"), &mut vm).unwrap();
    let frame = FrameInput { pressed_escape: true, ..key_h() };
    assert_eq!(cmdr.input(&frame, &mut vm), Ok(false));
    assert_eq!(cmdr.mode(), Mode::Help);
    assert!(cmdr.is_active());
}

#[test]
fn escape_with_the_key_that_opens_the_entry_cancels_it() {
    let mut vm = machine();
    let mut cmdr = active_console(&mut vm);
    let frame = FrameInput { pressed_escape: true, ..key_v() };
    assert_eq!(cmdr.input(&frame, &mut vm), Ok(false));
    assert_eq!(cmdr.mode(), Mode::Help);
    assert!(!cmdr.is_active());
}

#[test]
fn p_hands_the_keys_back_from_every_mode() {
    let mut vm = machine();
    let mut cmdr = active_console(&mut vm);
    assert_eq!(cmdr.input(&key_p(), &mut vm), Ok(false));
    assert!(!cmdr.is_active());
    assert_eq!(cmdr.mode(), Mode::Help);

    let mut cmdr = active_console(&mut vm);
    cmdr.input(&key_v(), &mut vm).unwrap();
    cmdr.input(&text("7"), &mut vm).unwrap();
    assert_eq!(cmdr.input(&key_p(), &mut vm), Ok(false));
    assert!(!cmdr.is_active());
    assert_eq!(cmdr.mode(), Mode::Input(InputMode::ViewMemory(7)));
}

#[test]
fn v_opens_the_address_entry_at_zero() {
    let mut vm = machine();
    let mut cmdr = active_console(&mut vm);
    assert_eq!(cmdr.input(&key_v(), &mut vm), Ok(false));
    assert_eq!(cmdr.mode(), Mode::Input(InputMode::ViewMemory(0)));
    cmdr.input(&text("77"), &mut vm).unwrap();
    assert_eq!(cmdr.mode(), Mode::Input(InputMode::ViewMemory(77)));
    cmdr.input(&key_v(), &mut vm).unwrap();
    assert_eq!(cmdr.mode(), Mode::Input(InputMode::ViewMemory(0)));
}

#[test]
fn h_shows_the_help_and_v_wins_over_h() {
    let mut vm = machine();
    let mut cmdr = console_with_history(&mut vm);
    assert_eq!(cmdr.input(&key_h(), &mut vm), Ok(false));
    assert_eq!(cmdr.mode(), Mode::Help);
    cmdr.input(&key_v(), &mut vm).unwrap();
    cmdr.input(&text("5"), &mut vm).unwrap();
    cmdr.input(&key_h(), &mut vm).unwrap();
    assert_eq!(cmdr.mode(), Mode::Help);
    let both = FrameInput { pressed_h: true, pressed_v: true, ..no_keys() };
    cmdr.input(&both, &mut vm).unwrap();
    assert_eq!(cmdr.mode(), Mode::Input(InputMode::ViewMemory(0)));
}

#[test]
fn typing_an_address_and_confirming_writes_a_dump() {
    let mut vm = machine();
    let before = vm.clone();
    let mut cmdr = active_console(&mut vm);
    cmdr.input(&key_v(), &mut vm).unwrap();
    assert_eq!(cmdr.mode(), Mode::Input(InputMode::ViewMemory(0)));
    cmdr.input(&text("1"), &mut vm).unwrap();
    cmdr.input(&text("2"), &mut vm).unwrap();
    cmdr.input(&text("8"), &mut vm).unwrap();
    assert_eq!(cmdr.mode(), Mode::Input(InputMode::ViewMemory(128)));
    assert_eq!(cmdr.input(&key_return(), &mut vm), Ok(false));
    assert_eq!(cmdr.mode(), Mode::History);
    let history = cmdr.history();
    assert_eq!(history.len(), 4);
    assert_eq!(history[0], "  128: 80 81 82 83 84 85 86 87 88 89 8A 8B 8C");
    assert_eq!(history[1], "  141: 8D 8E 8F 90 91 92 93 94 95 96 97 98 99");
    assert_eq!(history[2], "  154: 9A 9B 9C 9D 9E 9F A0 A1 A2 A3 A4 A5 A6");
    assert_eq!(history[3], "  167: A7 A8 A9 AA AB AC AD AE AF B0 B1 B2 B3");
    assert!(cmdr.is_active());
    assert!(vm.memory == before.memory);
    assert_eq!(vm.pc, before.pc);
    assert_eq!(vm.cycles_executed, before.cycles_executed);
    assert_eq!(vm.input_state, before.input_state);
}

#[test]
fn return_comes_before_the_text_of_its_frame() {
    let mut vm = machine();
    let mut cmdr = active_console(&mut vm);
    cmdr.input(&key_v(), &mut vm).unwrap();
    cmdr.input(&text("13"), &mut vm).unwrap();
    let frame = FrameInput { pressed_return: true, ..text("9") };
    cmdr.input(&frame, &mut vm).unwrap();
    assert_eq!(cmdr.mode(), Mode::History);
    assert_eq!(cmdr.history()[0], "   13: 0D 0E 0F 10 11 12 13 14 15 16 17 18 19");
}

#[test]
fn v_and_return_in_one_frame_dump_from_zero() {
    let mut vm = machine();
    let mut cmdr = active_console(&mut vm);
    let frame = FrameInput { pressed_v: true, pressed_return: true, ..no_keys() };
    assert_eq!(cmdr.input(&frame, &mut vm), Ok(false));
    assert_eq!(cmdr.mode(), Mode::History);
    assert_eq!(cmdr.history()[0], "    0: 00 01 02 03 04 05 06 07 08 09 0A 0B 0C");
}

#[test]
fn dumps_are_appended_in_order() {
    let mut vm = machine();
    let mut cmdr = console_with_history(&mut vm);
    let first: Vec<String> = cmdr.history().clone();
    cmdr.input(&key_v(), &mut vm).unwrap();
    cmdr.input(&text("1000"), &mut vm).unwrap();
    cmdr.input(&key_return(), &mut vm).unwrap();
    let history = cmdr.history();
    assert_eq!(history.len(), 8);
    assert_eq!(&history[..4], &first[..]);
    assert!(history[4].starts_with(" 1000: "));
    assert!(history[7].starts_with(" 1039: "));
}

#[test]
fn escape_cancels_the_entry_and_hands_the_keys_back() {
    let mut vm = machine();
    let mut cmdr = active_console(&mut vm);
    cmdr.input(&key_v(), &mut vm).unwrap();
    cmdr.input(&text("42"), &mut vm).unwrap();
    assert_eq!(cmdr.input(&key_escape(), &mut vm), Ok(false));
    assert_eq!(cmdr.mode(), Mode::Help);
    assert!(cmdr.history().is_empty());
    assert!(!cmdr.is_active());

    let mut cmdr = console_with_history(&mut vm);
    cmdr.input(&key_v(), &mut vm).unwrap();
    cmdr.input(&text("42"), &mut vm).unwrap();
    let frame = FrameInput { pressed_return: true, ..key_escape() };
    assert_eq!(cmdr.input(&frame, &mut vm), Ok(false));
    assert_eq!(cmdr.mode(), Mode::History);
    assert_eq!(cmdr.history().len(), 4);
}

#[test]
fn the_entry_ends_in_help_only_while_nothing_was_written() {
    let mut vm = machine();
    let mut cmdr = active_console(&mut vm);
    cmdr.input(&key_v(), &mut vm).unwrap();
    cmdr.input(&key_return(), &mut vm).unwrap();
    assert_eq!(cmdr.mode(), Mode::History);
    cmdr.input(&key_v(), &mut vm).unwrap();
    cmdr.input(&key_escape(), &mut vm).unwrap();
    assert_eq!(cmdr.mode(), Mode::History);
}

#[test]
fn a_dump_past_the_end_of_memory_is_refused() {
    let mut vm = machine();
    let mut cmdr = active_console(&mut vm);
    cmdr.input(&key_v(), &mut vm).unwrap();
    cmdr.input(&text("65485"), &mut vm).unwrap();
    assert_eq!(cmdr.mode(), Mode::Input(InputMode::ViewMemory(65485)));
    assert_eq!(cmdr.input(&key_return(), &mut vm), Err(DumpError::RangeInvalid));
    assert_eq!(cmdr.mode(), Mode::Input(InputMode::ViewMemory(65485)));
    assert!(cmdr.history().is_empty());
    assert!(cmdr.is_active());
    cmdr.input(&FrameInput { text: vec![TextChar::Back], ..no_keys() }, &mut vm).unwrap();
    cmdr.input(&text("4"), &mut vm).unwrap();
    assert_eq!(cmdr.mode(), Mode::Input(InputMode::ViewMemory(65484)));
    assert_eq!(cmdr.input(&key_return(), &mut vm), Ok(false));
    assert_eq!(cmdr.mode(), Mode::History);
    assert_eq!(cmdr.history().len(), 4);
}

#[test]
fn the_address_entry_takes_digits_and_backspace() {
    let mut vm = machine();
    let mut cmdr = active_console(&mut vm);
    cmdr.input(&key_v(), &mut vm).unwrap();
    cmdr.input(&text("65536"), &mut vm).unwrap();
    assert_eq!(cmdr.mode(), Mode::Input(InputMode::ViewMemory(6553)));
    let back = FrameInput { text: vec![TextChar::Back, TextChar::Char('1')], ..no_keys() };
    cmdr.input(&back, &mut vm).unwrap();
    assert_eq!(cmdr.mode(), Mode::Input(InputMode::ViewMemory(655)));
    let back = FrameInput { text: vec![TextChar::Back], ..no_keys() };
    cmdr.input(&back, &mut vm).unwrap();
    cmdr.input(&back, &mut vm).unwrap();
    cmdr.input(&back, &mut vm).unwrap();
    assert_eq!(cmdr.mode(), Mode::Input(InputMode::ViewMemory(0)));
    cmdr.input(&back, &mut vm).unwrap();
    assert_eq!(cmdr.mode(), Mode::Input(InputMode::ViewMemory(0)));
}

#[test]
fn text_outside_the_address_entry_is_dropped() {
    let mut vm = machine();
    let mut cmdr = active_console(&mut vm);
    cmdr.input(&text("123"), &mut vm).unwrap();
    assert_eq!(cmdr.mode(), Mode::Help);
    cmdr.input(&key_return(), &mut vm).unwrap();
    assert_eq!(cmdr.mode(), Mode::Help);
    assert!(cmdr.history().is_empty());
}

#[test]
fn a_tick_runs_the_machine_or_moves_the_cursor() {
    let mut vm = machine();
    let mut cmdr = Cmdr::new();
    assert_eq!(cmdr.update(UpdateEvent::Tick), UpdateAction::Execute);
    assert!(!cmdr.cursor_visible());
    assert_eq!(cmdr.update(UpdateEvent::Executed { halted: false }), UpdateAction::Continue);
    assert_eq!(cmdr.update(UpdateEvent::Executed { halted: true }), UpdateAction::Finish);
    cmdr.input(&key_p(), &mut vm).unwrap();
    assert_eq!(cmdr.update(UpdateEvent::Tick), UpdateAction::Continue);
    assert!(cmdr.cursor_visible());
    assert_eq!(cmdr.mode(), Mode::Help);
    assert!(cmdr.is_active());
}

#[test]
fn the_cursor_changes_every_thousand_and_one_ticks() {
    let mut vm = machine();
    let mut cmdr = active_console(&mut vm);
    cmdr.update(UpdateEvent::Tick);
    assert!(cmdr.cursor_visible());
    for _ in 0..1000 {
        assert_eq!(cmdr.update(UpdateEvent::Tick), UpdateAction::Continue);
        assert!(cmdr.cursor_visible());
    }
    cmdr.update(UpdateEvent::Tick);
    assert!(!cmdr.cursor_visible());
    for _ in 0..1000 {
        cmdr.update(UpdateEvent::Tick);
        assert!(!cmdr.cursor_visible());
    }
    cmdr.update(UpdateEvent::Tick);
    assert!(cmdr.cursor_visible());
}

#[test]
fn the_overlay_shows_counter_byte_and_cycles() {
    let mut vm = machine();
    vm.memory[55122] = 9;
    let cmdr = Cmdr::new();
    let frame = cmdr.render_with(&vm, 40);
    assert_eq!(frame.background, Background::Machine);
    assert_eq!(frame.texts.len(), 3);
    let pc = &frame.texts[0];
    assert_eq!(pc.text, "PC:    50");
    assert_eq!((pc.width, pc.x, pc.y), (10, 31, 0));
    assert_eq!((pc.unit, pc.size, pc.color), (Unit::Cells, TextSize::Small, Color::White));
    let byte = &frame.texts[1];
    assert_eq!(byte.text, "55122:   9");
    assert_eq!((byte.width, byte.x, byte.y), (12, 30, 1));
    assert_eq!((byte.unit, byte.size, byte.color), (Unit::Cells, TextSize::Small, Color::White));
    let cycles = &frame.texts[2];
    assert_eq!(cycles.text, "1234567");
    assert_eq!((cycles.width, cycles.x, cycles.y), (22, 30, 22));
    assert_eq!((cycles.unit, cycles.size, cycles.color), (Unit::Cells, TextSize::Small, Color::White));

    vm.pc = 65535;
    vm.memory[55122] = 255;
    vm.cycles_executed = 0;
    let frame = cmdr.render_with(&vm, 40);
    assert_eq!(frame.texts[0].text, "PC: 65535");
    assert_eq!(frame.texts[1].text, "55122: 255");
    assert_eq!(frame.texts[2].text, "0");
}

#[test]
fn the_help_view() {
    let mut vm = machine();
    let cmdr = active_console(&mut vm);
    let frame = cmdr.render_with(&vm, 40);
    assert_eq!(frame.background, Background::Fill(Color::Black));
    assert_eq!(frame.texts.len(), 2);
    let title = &frame.texts[0];
    assert_eq!(title.text, "Memory Commander");
    assert_eq!((title.width, title.x, title.y), (20, 2, 2));
    assert_eq!((title.unit, title.size, title.color), (Unit::Pixels, TextSize::Normal, Color::White));
    let help = &frame.texts[1];
    assert_eq!(help.text, "v) View memory contents");
    assert_eq!((help.width, help.x, help.y), (40, 1, 3));
    assert_eq!((help.unit, help.size, help.color), (Unit::Cells, TextSize::Small, Color::White));
}

#[test]
fn the_address_entry_view() {
    let mut vm = machine();
    let mut cmdr = active_console(&mut vm);
    cmdr.input(&key_v(), &mut vm).unwrap();
    cmdr.input(&text("128"), &mut vm).unwrap();
    let frame = cmdr.render_with(&vm, 33);
    assert_eq!(frame.background, Background::Fill(Color::Black));
    assert_eq!(frame.texts.len(), 3);
    assert_eq!(frame.texts[0].text, "Memory Commander");
    let prompt = &frame.texts[1];
    assert_eq!(prompt.text, "View memory range:");
    assert_eq!((prompt.width, prompt.x, prompt.y), (33, 1, 4));
    assert_eq!((prompt.unit, prompt.size, prompt.color), (Unit::Cells, TextSize::Small, Color::Blue));
    let start = &frame.texts[2];
    assert_eq!(start.text, "Start:   128");
    assert_eq!((start.width, start.x, start.y), (33, 2, 5));
    assert_eq!((start.unit, start.size, start.color), (Unit::Cells, TextSize::Small, Color::White));
}

#[test]
fn the_history_view_shows_the_newest_lines() {
    let mut vm = machine();
    let mut cmdr = console_with_history(&mut vm);
    let frame = cmdr.render_with(&vm, 40);
    assert_eq!(frame.background, Background::Fill(Color::Black));
    assert_eq!(frame.texts.len(), 5);
    assert_eq!(frame.texts[0].text, "Memory Commander");
    for i in 0..4 {
        let line = &frame.texts[1 + i];
        assert_eq!(line.text, cmdr.history()[i]);
        assert_eq!((line.width, line.x, line.y), (40, 1, 3 + i));
        assert_eq!((line.unit, line.size, line.color), (Unit::Cells, TextSize::Small, Color::White));
    }

    for _ in 0..5 {
        cmdr.input(&key_v(), &mut vm).unwrap();
        cmdr.input(&text("300"), &mut vm).unwrap();
        cmdr.input(&key_return(), &mut vm).unwrap();
    }
    assert_eq!(cmdr.history().len(), 24);
    let frame = cmdr.render_with(&vm, 40);
    assert_eq!(frame.texts.len(), 24);
    for i in 0..23 {
        let line = &frame.texts[1 + i];
        assert_eq!(line.text, cmdr.history()[1 + i]);
        assert_eq!(line.y, 3 + i);
    }
    assert!(frame.texts[1].text.starts_with("   13: "));
    assert!(frame.texts[23].text.starts_with("  339: "));
}

#[test]
fn drawing_changes_nothing() {
    let mut vm = machine();
    let cmdr = console_with_history(&mut vm);
    let first = cmdr.render_with(&vm, 40);
    let second = cmdr.render_with(&vm, 40);
    assert_eq!(first, second);
    assert_eq!(cmdr.mode(), Mode::History);
}

#[test]
fn the_screen_decides_the_width_of_the_lines() {
    let mut vm = machine();
    let cmdr = active_console(&mut vm);
    let frame = cmdr.render(&vm, 240, 160);
    assert_eq!(frame, cmdr.render_with(&vm, 47));
    assert_eq!(frame.texts[1].width, 47);
    let frame = cmdr.render(&vm, 480, 320);
    assert_eq!(frame.texts[1].width, 95);
    let frame = cmdr.render(&vm, 5, 6);
    assert_eq!(frame.texts[1].width, 0);
}

#[test]
fn a_screen_too_small_for_text_has_no_columns() {
    let mut vm = machine();
    let cmdr = active_console(&mut vm);
    for (width, height) in [(0, 0), (3, 100), (100, 4), (4, 100), (100, 5), (4, 5)] {
        let frame = cmdr.render(&vm, width, height);
        assert_eq!(frame, cmdr.render_with(&vm, 0));
    }
}

#[test]
fn the_overlay_does_not_depend_on_the_screen() {
    let vm = machine();
    let cmdr = Cmdr::new();
    assert_eq!(cmdr.render(&vm, 240, 160), cmdr.render_with(&vm, 0));
    assert_eq!(cmdr.render(&vm, 0, 0), cmdr.render_with(&vm, 99));
}
