use solito::screen::cell::ScreenSnapshot;
use solito::size::TerminalSize;
use solito::ui::session::{SessionClosed, SessionInput};
use solito::ui::tabs::{tab_title_for_program, Tabs, TerminalTab};
use std::sync::mpsc::{channel, Receiver, Sender};

struct FakeTab {
    input_tx: Sender<SessionInput>,
    size: Option<TerminalSize>,
    closed: bool,
}

impl FakeTab {
    fn new() -> Self {
        let (input_tx, _input_rx) = channel();
        FakeTab { input_tx, size: None, closed: false }
    }

    fn connected(input_tx: Sender<SessionInput>) -> Self {
        FakeTab { input_tx, size: None, closed: false }
    }

    fn closed() -> Self {
        FakeTab { closed: true, ..FakeTab::new() }
    }
}

impl TerminalTab for FakeTab {
    fn input_tx(&self) -> &Sender<SessionInput> {
        &self.input_tx
    }

    fn resize(&mut self, size: TerminalSize) -> Result<(), SessionClosed> {
        if self.closed {
            return Err(SessionClosed);
        }
        self.size = Some(size);
        Ok(())
    }

    fn title(&self) -> &str {
        "fake"
    }

    fn snapshot(&self) -> ScreenSnapshot {
        ScreenSnapshot::default()
    }

    fn drain_output(&mut self) -> bool {
        false
    }
}

#[test]
fn activating_tabs_wraps_around() {
    let mut tabs: Tabs<FakeTab> = Tabs::new();
    tabs.push(FakeTab::new());
    tabs.push(FakeTab::new());

    assert_eq!(tabs.active_index(), 1);
    assert!(tabs.activate_next());
    assert_eq!(tabs.active_index(), 0);
    assert!(tabs.activate_previous());
    assert_eq!(tabs.active_index(), 1);
}

#[test]
fn closing_active_tab_selects_neighbor() {
    let mut tabs: Tabs<FakeTab> = Tabs::new();
    tabs.push(FakeTab::new());
    tabs.push(FakeTab::new());
    tabs.push(FakeTab::new());

    assert_eq!(tabs.active_index(), 2);
    assert!(tabs.close_active());
    assert_eq!(tabs.active_index(), 1);
    assert_eq!(tabs.titles(), vec!["fake".to_string(), "fake".to_string()]);
}

#[test]
fn closing_last_tab_leaves_tabs_empty() {
    let mut tabs: Tabs<FakeTab> = Tabs::new();
    tabs.push(FakeTab::new());

    assert!(tabs.close_active());
    assert!(tabs.is_empty());
    assert_eq!(tabs.active_index(), 0);
}

#[test]
fn tab_title_uses_shell_program_name() {
    assert_eq!(tab_title_for_program("nu"), "nu");
    assert_eq!(tab_title_for_program("C:\\tools\\nu.exe"), "nu");
}

#[test]
fn a_single_tab_does_not_switch_and_nothing_closes_when_empty() {
    let mut tabs: Tabs<FakeTab> = Tabs::new();
    assert!(!tabs.close_active());
    assert!(tabs.active_snapshot().is_none());
    tabs.push(FakeTab::new());
    assert!(!tabs.activate_next());
    assert!(!tabs.activate_previous());
    assert_eq!(tabs.active_index(), 0);
    assert!(tabs.active_snapshot().is_some());
    assert!(!tabs.drain_outputs());
    assert_eq!(tabs.len(), 1);
}

#[test]
fn closing_a_middle_tab_keeps_the_index() {
    let mut tabs: Tabs<FakeTab> = Tabs::new();
    tabs.push(FakeTab::new());
    tabs.push(FakeTab::new());
    tabs.push(FakeTab::new());
    assert!(tabs.activate_next());
    assert!(tabs.activate_next());
    assert_eq!(tabs.active_index(), 1);
    assert!(tabs.close_active());
    assert_eq!(tabs.active_index(), 1);
    assert_eq!(tabs.len(), 2);
}

#[test]
fn tab_titles_of_paths_and_blank_programs() {
    assert_eq!(tab_title_for_program("   "), "shell");
    assert_eq!(tab_title_for_program(""), "shell");
    assert_eq!(tab_title_for_program("  /usr/bin/fish  "), "fish");
    assert_eq!(tab_title_for_program("/bin/bash/"), "bash");
    assert_eq!(tab_title_for_program(".bashrc"), ".bashrc");
    assert_eq!(tab_title_for_program("archive.tar.gz"), "archive.tar");
    assert_eq!(tab_title_for_program("/usr/.."), "/usr/..");
    assert_eq!(tab_title_for_program("C:"), "C:");
    assert_eq!(tab_title_for_program("./run.sh"), "run");
}

#[test]
fn active_input_goes_to_the_active_tab() {
    let (first_tx, first_rx): (Sender<SessionInput>, Receiver<SessionInput>) = channel();
    let (second_tx, second_rx): (Sender<SessionInput>, Receiver<SessionInput>) = channel();
    let mut tabs: Tabs<FakeTab> = Tabs::new();
    assert!(tabs.active_input_tx().is_none());
    tabs.push(FakeTab::connected(first_tx));
    tabs.push(FakeTab::connected(second_tx));

    tabs.active_input_tx().unwrap().send(SessionInput::write(b"x".to_vec())).unwrap();

    assert!(first_rx.try_recv().is_err());
    assert!(matches!(second_rx.try_recv(), Ok(SessionInput::Write(bytes)) if bytes == b"x"));
}

#[test]
fn resizing_all_tabs_stops_at_a_closed_session() {
    let size = TerminalSize::new(100, 40);
    let mut tabs: Tabs<FakeTab> = Tabs::new();
    tabs.push(FakeTab::new());
    tabs.push(FakeTab::new());
    assert_eq!(tabs.resize_all(size), Ok(()));
    assert_eq!(tabs.get_mut(0).unwrap().size, Some(size));
    assert_eq!(tabs.get_mut(1).unwrap().size, Some(size));

    tabs.push(FakeTab::closed());
    tabs.push(FakeTab::new());
    assert_eq!(tabs.resize_all(TerminalSize::new(10, 5)), Err(SessionClosed));
    assert_eq!(tabs.get_mut(1).unwrap().size, Some(TerminalSize::new(10, 5)));
    assert_eq!(tabs.get_mut(3).unwrap().size, None);
    assert_eq!(tabs.len(), 4);
    assert_eq!(tabs.active_index(), 3);
}

#[test]
fn no_tabs_resize_and_drain_nothing() {
    let mut tabs: Tabs<FakeTab> = Tabs::new();
    assert_eq!(tabs.resize_all(TerminalSize::new(80, 24)), Ok(()));
    assert!(!tabs.drain_outputs());
}

#[test]
fn tab_titles_trim_exactly_the_white_space_characters() {
    for code in (0u32..0x4000).chain([0xfeff, 0x10ffff]) {
        let Some(c) = char::from_u32(code) else {
            continue;
        };
        if c == '/' || c == '\\' || c == '.' {
            continue;
        }
        let title = tab_title_for_program(&format!("{c}sh{c}"));
        if c.is_whitespace() {
            assert_eq!(title, "sh", "U+{code:04X}");
        } else {
            assert_eq!(title, format!("{c}sh{c}"), "U+{code:04X}");
        }
    }
}
