use desktop::DesktopTUI;
use desktop::keyboard::{completed, printable, Decoded};
use desktop::Decoder;
use desktop::{Screenable, SA};
use pc_keyboard::{Error, KeyCode, KeyEvent, KeyState};

#[derive(Clone, Copy, Debug, PartialEq, Eq)]
enum Screen {
    MainMenu,
    Settings,
    Clock,
}

#[derive(Clone, Debug, PartialEq)]
enum Call {
    Init,
    Time(u8),
    Key(KeyEvent, Option<char>),
}

/// A screen that writes down every callback it gets.
///
/// The main menu opens the settings on `s` and asks for a redraw on the up arrow; the settings
/// go back on escape; the clock opens the settings over itself at epoch 2.
struct Recorder {
    id: Screen,
    calls: Vec<Call>,
}

impl Screenable for Recorder {
    type Id = Screen;
    type Canvas = Vec<Screen>;

    const MAIN_MENU: Screen = Screen::MainMenu;

    fn screen_to_instance(id: Screen) -> Recorder {
        Recorder { id, calls: Vec::new() }
    }

    fn init(&mut self) -> Option<Vec<SA<Screen>>> {
        self.calls.push(Call::Init);
        None
    }

    fn draw(&self, canvas: &mut Vec<Screen>) {
        canvas.push(self.id);
    }

    fn on_time(&mut self, epoch: u8) -> Option<Vec<SA<Screen>>> {
        self.calls.push(Call::Time(epoch));
        if self.id == Screen::Clock && epoch == 2 {
            Some(vec![SA::Load(Screen::Settings), SA::Draw])
        } else {
            None
        }
    }

    fn on_key(&mut self, event: KeyEvent, character: Option<char>) -> Option<Vec<SA<Screen>>> {
        self.calls.push(Call::Key(event.clone(), character));
        if event.state != KeyState::Down {
            return None;
        }
        match (self.id, character, event.code) {
            (Screen::MainMenu, Some('s'), _) => Some(vec![SA::Load(Screen::Settings)]),
            (Screen::MainMenu, None, KeyCode::ArrowUp) => Some(vec![SA::Draw]),
            (Screen::Settings, Some('\u{1b}'), _) => Some(vec![SA::Restore]),
            _ => None,
        }
    }
}

fn times(screen: &Recorder) -> Vec<u8> {
    let mut out = Vec::new();
    for call in &screen.calls {
        if let Call::Time(epoch) = call {
            out.push(*epoch);
        }
    }
    out
}

fn keys(screen: &Recorder) -> Vec<(KeyEvent, Option<char>)> {
    let mut out = Vec::new();
    for call in &screen.calls {
        if let Call::Key(event, character) = call {
            out.push((event.clone(), *character));
        }
    }
    out
}

fn ids(screens: &Vec<Recorder>) -> Vec<Screen> {
    let mut out = Vec::new();
    for screen in screens {
        out.push(screen.id);
    }
    out
}

#[test]
fn the_first_255_ticks_bring_no_callback() {
    let mut desktop: DesktopTUI<Recorder> = DesktopTUI::new();
    let mut canvas = Vec::new();
    for n in 1..=255u16 {
        desktop.int_time(&mut canvas);
        assert_eq!(desktop.tick(), n);
    }
    assert!(desktop.active_screen().calls.is_empty());
    assert!(canvas.is_empty());
}

#[test]
fn tick_256_brings_one_callback_with_epoch_1() {
    let mut desktop: DesktopTUI<Recorder> = DesktopTUI::new();
    let mut canvas = Vec::new();
    for _ in 0..256 {
        desktop.int_time(&mut canvas);
    }
    assert_eq!(desktop.tick(), 256);
    assert_eq!(desktop.active_screen().calls, vec![Call::Time(1)]);
    for _ in 0..255 {
        desktop.int_time(&mut canvas);
    }
    assert_eq!(desktop.active_screen().calls, vec![Call::Time(1)]);
    desktop.int_time(&mut canvas);
    assert_eq!(desktop.tick(), 512);
    assert_eq!(desktop.active_screen().calls, vec![Call::Time(1), Call::Time(2)]);
    assert!(canvas.is_empty());
}

#[test]
fn tick_65535_wraps_to_zero_with_epoch_0() {
    let mut desktop: DesktopTUI<Recorder> = DesktopTUI::new();
    let mut canvas = Vec::new();
    for _ in 0..65535u32 {
        desktop.int_time(&mut canvas);
    }
    assert_eq!(desktop.tick(), 65535);
    assert_eq!(times(desktop.active_screen()).len(), 255);
    assert_eq!(times(desktop.active_screen()).last(), Some(&255));

    desktop.int_time(&mut canvas);
    assert_eq!(desktop.tick(), 0);
    assert_eq!(times(desktop.active_screen()).len(), 256);
    assert_eq!(times(desktop.active_screen()).last(), Some(&0));

    desktop.int_time(&mut canvas);
    assert_eq!(desktop.tick(), 1);
    assert_eq!(times(desktop.active_screen()).len(), 256);
}

#[test]
fn the_epochs_run_from_1_to_255_then_0_and_start_over() {
    let mut desktop: DesktopTUI<Recorder> = DesktopTUI::new();
    let mut canvas = Vec::new();
    for _ in 0..(65536u32 + 512) {
        desktop.int_time(&mut canvas);
    }
    assert_eq!(desktop.tick(), 512);
    let mut expected: Vec<u8> = Vec::new();
    for epoch in 1..=255u8 {
        expected.push(epoch);
    }
    expected.push(0);
    expected.push(1);
    expected.push(2);
    assert_eq!(times(desktop.active_screen()), expected);
}

#[test]
fn what_the_time_callback_asks_for_is_executed() {
    let mut desktop: DesktopTUI<Recorder> = DesktopTUI::new();
    let mut canvas = Vec::new();
    desktop.execute_action(SA::Change(Screen::Clock), &mut canvas);
    for _ in 0..511 {
        desktop.int_time(&mut canvas);
    }
    assert_eq!(desktop.active_screen().id, Screen::Clock);
    assert_eq!(desktop.active_screen().calls, vec![Call::Init, Call::Time(1)]);
    assert!(canvas.is_empty());

    desktop.int_time(&mut canvas);
    assert_eq!(desktop.tick(), 512);
    assert_eq!(desktop.active_screen().id, Screen::Settings);
    assert_eq!(desktop.active_screen().calls, vec![Call::Init]);
    assert_eq!(ids(desktop.paused_screens()), vec![Screen::Clock]);
    assert_eq!(
        desktop.paused_screens()[0].calls,
        vec![Call::Init, Call::Time(1), Call::Time(2)]
    );
    assert_eq!(canvas, vec![Screen::Clock, Screen::Settings]);
}

#[test]
fn the_paused_screens_get_no_time_callback() {
    let mut desktop: DesktopTUI<Recorder> = DesktopTUI::new();
    let mut canvas = Vec::new();
    desktop.execute_action(SA::Load(Screen::Settings), &mut canvas);
    for _ in 0..256 {
        desktop.int_time(&mut canvas);
    }
    assert_eq!(desktop.active_screen().calls, vec![Call::Init, Call::Time(1)]);
    assert!(desktop.paused_screens()[0].calls.is_empty());
}

#[test]
fn a_scancode_that_completes_no_key_event_brings_one_draw_and_no_callback() {
    let mut desktop: DesktopTUI<Recorder> = DesktopTUI::new();
    let mut decoder = Decoder::new();
    let mut canvas = Vec::new();
    desktop.execute_action(SA::Load(Screen::Settings), &mut canvas);

    desktop.int_key(&mut decoder, 0xE0, &mut canvas);
    assert_eq!(canvas, vec![Screen::MainMenu, Screen::Settings]);
    assert_eq!(desktop.active_screen().id, Screen::Settings);
    assert_eq!(desktop.active_screen().calls, vec![Call::Init]);
    assert!(desktop.paused_screens()[0].calls.is_empty());
    assert_eq!(desktop.tick(), 0);
}

#[test]
fn scancodes_that_never_complete_a_key_event_bring_one_draw_each() {
    let mut desktop: DesktopTUI<Recorder> = DesktopTUI::new();
    let mut decoder = Decoder::new();
    let mut canvas = Vec::new();
    let bytes: Vec<u8> = vec![0x00, 0x54, 0x59, 0x7F, 0xE0, 0xE0, 0xE0, 0x00, 0xFF];
    let mut draws = 0;
    for byte in bytes {
        desktop.int_key(&mut decoder, byte, &mut canvas);
        draws += 1;
        assert_eq!(canvas.len(), draws);
        assert_eq!(canvas[draws - 1], Screen::MainMenu);
        assert!(desktop.active_screen().calls.is_empty());
    }
    assert_eq!(desktop.active_screen().id, Screen::MainMenu);
    assert!(desktop.paused_screens().is_empty());
}

#[test]
fn a_key_goes_to_the_active_screen_with_its_character() {
    let mut desktop: DesktopTUI<Recorder> = DesktopTUI::new();
    let mut decoder = Decoder::new();
    let mut canvas = Vec::new();
    desktop.int_key(&mut decoder, 0x10, &mut canvas);
    assert_eq!(
        desktop.active_screen().calls,
        vec![Call::Key(KeyEvent::new(KeyCode::Q, KeyState::Down), Some('a'))]
    );
    assert_eq!(canvas, vec![Screen::MainMenu]);

    desktop.int_key(&mut decoder, 0x90, &mut canvas);
    assert_eq!(
        keys(desktop.active_screen()),
        vec![
            (KeyEvent::new(KeyCode::Q, KeyState::Down), Some('a')),
            (KeyEvent::new(KeyCode::Q, KeyState::Up), None),
        ]
    );
    assert_eq!(canvas, vec![Screen::MainMenu, Screen::MainMenu]);
}

#[test]
fn shift_is_kept_by_the_decoder_between_interrupts() {
    let mut desktop: DesktopTUI<Recorder> = DesktopTUI::new();
    let mut decoder = Decoder::new();
    let mut canvas = Vec::new();
    let bytes: Vec<u8> = vec![0x2A, 0x10, 0xAA, 0x10];
    for byte in bytes {
        desktop.int_key(&mut decoder, byte, &mut canvas);
    }
    assert_eq!(
        keys(desktop.active_screen()),
        vec![
            (KeyEvent::new(KeyCode::ShiftLeft, KeyState::Down), None),
            (KeyEvent::new(KeyCode::Q, KeyState::Down), Some('A')),
            (KeyEvent::new(KeyCode::ShiftLeft, KeyState::Up), None),
            (KeyEvent::new(KeyCode::Q, KeyState::Down), Some('a')),
        ]
    );
    assert_eq!(canvas.len(), 4);
}

#[test]
fn a_key_without_a_character_goes_to_the_screen_without_one() {
    let mut desktop: DesktopTUI<Recorder> = DesktopTUI::new();
    let mut decoder = Decoder::new();
    let mut canvas = Vec::new();
    desktop.int_key(&mut decoder, 0xE0, &mut canvas);
    assert!(desktop.active_screen().calls.is_empty());
    assert_eq!(canvas, vec![Screen::MainMenu]);

    desktop.int_key(&mut decoder, 0x48, &mut canvas);
    assert_eq!(
        desktop.active_screen().calls,
        vec![Call::Key(KeyEvent::new(KeyCode::ArrowUp, KeyState::Down), None)]
    );
    assert_eq!(
        canvas,
        vec![Screen::MainMenu, Screen::MainMenu, Screen::MainMenu]
    );

    desktop.int_key(&mut decoder, 0x3B, &mut canvas);
    assert_eq!(
        keys(desktop.active_screen()).last(),
        Some(&(KeyEvent::new(KeyCode::F1, KeyState::Down), None))
    );
}

#[test]
fn what_the_key_callback_asks_for_is_executed_before_the_draw() {
    let mut desktop: DesktopTUI<Recorder> = DesktopTUI::new();
    let mut decoder = Decoder::new();
    let mut canvas = Vec::new();
    desktop.start(&mut canvas);

    desktop.int_key(&mut decoder, 0x1F, &mut canvas);
    assert_eq!(desktop.active_screen().id, Screen::Settings);
    assert_eq!(desktop.active_screen().calls, vec![Call::Init]);
    assert_eq!(ids(desktop.paused_screens()), vec![Screen::MainMenu]);
    assert_eq!(
        desktop.paused_screens()[0].calls,
        vec![
            Call::Init,
            Call::Key(KeyEvent::new(KeyCode::S, KeyState::Down), Some('s')),
        ]
    );
    assert_eq!(canvas, vec![Screen::MainMenu, Screen::Settings]);

    desktop.int_key(&mut decoder, 0x01, &mut canvas);
    assert_eq!(desktop.active_screen().id, Screen::MainMenu);
    assert!(desktop.paused_screens().is_empty());
    assert_eq!(
        desktop.active_screen().calls,
        vec![
            Call::Init,
            Call::Key(KeyEvent::new(KeyCode::S, KeyState::Down), Some('s')),
            Call::Init,
        ]
    );
    assert_eq!(
        canvas,
        vec![Screen::MainMenu, Screen::Settings, Screen::MainMenu]
    );
}

#[test]
fn dispatch_without_a_key_event_only_draws() {
    let mut desktop: DesktopTUI<Recorder> = DesktopTUI::new();
    let mut canvas = Vec::new();
    desktop.execute_action(SA::Load(Screen::Clock), &mut canvas);
    desktop.dispatch_key(None, &mut canvas);
    assert_eq!(canvas, vec![Screen::MainMenu, Screen::Clock]);
    assert_eq!(desktop.active_screen().calls, vec![Call::Init]);
    assert_eq!(ids(desktop.paused_screens()), vec![Screen::MainMenu]);
}

#[test]
fn dispatch_with_a_key_event_calls_then_executes_then_draws() {
    let mut desktop: DesktopTUI<Recorder> = DesktopTUI::new();
    let mut canvas = Vec::new();
    let up = KeyEvent::new(KeyCode::ArrowUp, KeyState::Down);
    desktop.dispatch_key(Some((up.clone(), None)), &mut canvas);
    assert_eq!(desktop.active_screen().calls, vec![Call::Key(up, None)]);
    assert_eq!(canvas, vec![Screen::MainMenu, Screen::MainMenu]);

    let s = KeyEvent::new(KeyCode::S, KeyState::Down);
    desktop.dispatch_key(Some((s, Some('s'))), &mut canvas);
    assert_eq!(desktop.active_screen().id, Screen::Settings);
    assert_eq!(
        canvas,
        vec![
            Screen::MainMenu,
            Screen::MainMenu,
            Screen::MainMenu,
            Screen::Settings,
        ]
    );
}

#[test]
fn printable_keeps_characters_and_drops_raw_keys() {
    assert_eq!(printable(Some(Decoded::Unicode('a'))), Some('a'));
    assert_eq!(printable(Some(Decoded::Unicode('\u{1b}'))), Some('\u{1b}'));
    assert_eq!(printable(Some(Decoded::RawKey)), None);
    assert_eq!(printable(None), None);
}

#[test]
fn key_interrupts_do_not_count_ticks() {
    let mut desktop: DesktopTUI<Recorder> = DesktopTUI::new();
    let mut decoder = Decoder::new();
    let mut canvas = Vec::new();
    for _ in 0..3 {
        desktop.int_time(&mut canvas);
    }
    desktop.int_key(&mut decoder, 0x1F, &mut canvas);
    desktop.int_key(&mut decoder, 0xE0, &mut canvas);
    assert_eq!(desktop.tick(), 3);
}

#[test]
fn completed_keeps_a_key_event_and_drops_the_rest() {
    let down = KeyEvent::new(KeyCode::Enter, KeyState::Down);
    assert_eq!(completed(Ok(Some(down.clone()))), Some(down));
    assert_eq!(completed(Ok(None)), None);
    assert_eq!(completed(Err(Error::UnknownKeyCode)), None);
    assert_eq!(completed(Err(Error::ParityError)), None);
}

#[test]
fn a_new_decoder_has_the_number_lock_on_and_no_shift() {
    let mut desktop: DesktopTUI<Recorder> = DesktopTUI::new();
    let mut decoder = Decoder::new();
    let mut canvas = Vec::new();
    desktop.int_key(&mut decoder, 0x47, &mut canvas);
    desktop.int_key(&mut decoder, 0x1E, &mut canvas);
    assert_eq!(
        keys(desktop.active_screen()),
        vec![
            (KeyEvent::new(KeyCode::Numpad7, KeyState::Down), Some('7')),
            (KeyEvent::new(KeyCode::A, KeyState::Down), Some('q')),
        ]
    );
}

#[test]
fn the_prefix_is_awaited_for_one_byte_only() {
    let mut desktop: DesktopTUI<Recorder> = DesktopTUI::new();
    let mut decoder = Decoder::new();
    let mut canvas = Vec::new();
    let bytes: Vec<u8> = vec![0xE0, 0x48, 0x48, 0xE0, 0xE0, 0x48, 0xE0, 0x00, 0x48];
    for byte in bytes {
        desktop.int_key(&mut decoder, byte, &mut canvas);
    }
    assert_eq!(
        keys(desktop.active_screen()),
        vec![
            (KeyEvent::new(KeyCode::ArrowUp, KeyState::Down), None),
            (KeyEvent::new(KeyCode::Numpad8, KeyState::Down), Some('8')),
            (KeyEvent::new(KeyCode::Numpad8, KeyState::Down), Some('8')),
            (KeyEvent::new(KeyCode::Numpad8, KeyState::Down), Some('8')),
        ]
    );
    assert_eq!(canvas.len(), 9 + 1);
}

#[test]
fn a_byte_that_the_tables_do_not_hold_leaves_the_decoder_at_the_start_of_a_key() {
    let mut desktop: DesktopTUI<Recorder> = DesktopTUI::new();
    let mut decoder = Decoder::new();
    let mut canvas = Vec::new();
    desktop.int_key(&mut decoder, 0x54, &mut canvas);
    assert!(desktop.active_screen().calls.is_empty());
    desktop.int_key(&mut decoder, 0x50, &mut canvas);
    assert_eq!(
        keys(desktop.active_screen()),
        vec![(KeyEvent::new(KeyCode::Numpad2, KeyState::Down), Some('2'))]
    );
}

#[test]
fn the_number_lock_key_is_noted_by_the_decoder() {
    let mut desktop: DesktopTUI<Recorder> = DesktopTUI::new();
    let mut decoder = Decoder::new();
    let mut canvas = Vec::new();
    let bytes: Vec<u8> = vec![0x47, 0x45, 0x47];
    for byte in bytes {
        desktop.int_key(&mut decoder, byte, &mut canvas);
    }
    assert_eq!(
        keys(desktop.active_screen()),
        vec![
            (KeyEvent::new(KeyCode::Numpad7, KeyState::Down), Some('7')),
            (KeyEvent::new(KeyCode::NumpadLock, KeyState::Down), None),
            (KeyEvent::new(KeyCode::Numpad7, KeyState::Down), None),
        ]
    );
}
