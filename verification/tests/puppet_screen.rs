//! The puppet-backend scenarios, driven through the library's event loop
//! and frame flattening.

use cursive::backends::puppet::observed::{ObservedPieceInterface, ObservedScreen};
use cursive::backends::puppet::Backend as PuppetBackend;
use cursive::event::{Event, Key};
use cursive::views::{Dialog, TextView};
use cursive::{Cursive, CursiveRunner, Vec2};

use hackernews_tim::harness::{after_round, default_size, step_until_idle};
use hackernews_tim::screen::{flatten_rows, is_white_space_char, trim_end};

struct Puppet {
    runner: CursiveRunner<Cursive>,
    screens: crossbeam_channel::Receiver<ObservedScreen>,
    events: crossbeam_channel::Sender<Option<Event>>,
    last: Option<ObservedScreen>,
}

impl Puppet {
    fn with_size(siv: Cursive, size: Vec2) -> Self {
        let backend = PuppetBackend::init(Some(size));
        let screens = backend.stream();
        let events = backend.input();
        let mut runner = CursiveRunner::new(siv, backend);
        runner.refresh();
        let mut p = Puppet { runner, screens, events, last: None };
        p.drain();
        p
    }

    fn new(siv: Cursive) -> Self {
        let (x, y) = default_size();
        Self::with_size(siv, Vec2::new(x, y))
    }

    fn drain(&mut self) {
        while let Ok(s) = self.screens.try_recv() {
            self.last = Some(s);
        }
    }

    fn step(&mut self) -> usize {
        let n = step_until_idle(&mut self.runner);
        self.drain();
        n
    }

    fn text(&self) -> String {
        match &self.last {
            Some(screen) => {
                let piece = screen.piece(Vec2::zero(), screen.size());
                flatten_rows(&piece.as_strings())
            }
            None => String::new(),
        }
    }
}

#[test]
fn renders_text_view_with_default_size() {
    let mut siv = Cursive::new();
    siv.add_layer(TextView::new("hello puppet"));
    let mut harness = Puppet::new(siv);
    harness.step();
    let text = harness.text();
    assert!(
        text.contains("hello puppet"),
        "expected 'hello puppet' in screen:\n{text}"
    );
}

#[test]
fn screen_size_is_respected() {
    let siv = Cursive::new();
    let harness = Puppet::with_size(siv, Vec2::new(40, 10));
    let screen = harness.last.as_ref().expect("initial frame should be captured");
    assert_eq!(screen.size(), Vec2::new(40, 10));
}

#[test]
fn dialog_dismisses_on_escape() {
    let mut siv = Cursive::new();
    siv.add_layer(Dialog::info("press esc to dismiss"));
    let mut harness = Puppet::new(siv);
    harness.step();
    assert!(
        harness.text().contains("press esc to dismiss"),
        "dialog should be visible before Esc; got:\n{}",
        harness.text()
    );

    harness.events.send(Some(Event::Key(Key::Enter))).unwrap();
    harness.step();
    assert!(
        !harness.text().contains("press esc to dismiss"),
        "dialog should be dismissed; got:\n{}",
        harness.text()
    );
}

#[test]
fn step_until_idle_returns_zero_when_nothing_pending() {
    let siv = Cursive::new();
    let mut harness = Puppet::new(siv);
    let iters = harness.step();
    assert_eq!(iters, 0);
}

#[test]
fn flatten_screen_drops_trailing_blank_rows() {
    let mut siv = Cursive::new();
    siv.add_layer(TextView::new("only row"));
    let mut harness = Puppet::with_size(siv, Vec2::new(20, 10));
    harness.step();
    let text = harness.text();
    let line_count = text.lines().count();
    assert!(
        line_count <= 5,
        "expected trailing blank rows trimmed; got {line_count} lines:\n{text}"
    );
}

#[test]
fn flatten_rows_trims_and_drops_blank_tail() {
    let rows = vec!["abc  ".to_string(), "  ".to_string(), "".to_string()];
    assert_eq!(flatten_rows(&rows), "abc");
    let rows = vec!["a".to_string(), " \t".to_string(), "b \u{3000}".to_string(), "".to_string()];
    assert_eq!(flatten_rows(&rows), "a\n\nb");
    assert_eq!(flatten_rows(&vec![]), "");
    assert_eq!(flatten_rows(&vec!["   ".to_string()]), "");
}

#[test]
fn idle_rounds_count_until_first_idle_round() {
    assert_eq!(after_round(0, true), Some(1));
    assert_eq!(after_round(41, true), Some(42));
    assert_eq!(after_round(7, false), None);
}

#[test]
fn trim_end_strips_unicode_white_space_only_at_the_end() {
    assert_eq!(trim_end("a b \t\u{3000}\u{a0}"), "a b");
    assert_eq!(trim_end("  lead"), "  lead");
    assert_eq!(trim_end(" \n "), "");
    assert_eq!(trim_end(""), "");
    assert_eq!(trim_end("x\u{200b}"), "x\u{200b}");
    assert!(is_white_space_char('\u{2029}'));
    assert!(!is_white_space_char('_'));
}
