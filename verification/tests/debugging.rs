use ec_demo::debug::{
    Action, AttachError, DefmtHandler, Forward, InvalidCommand, Request, Sample,
};
use defmt_decoder::Table;
use ec_demo::decoder::{DecodeError, Frame, Reading};
use ec_demo::input::{InputEvent, Key};
use ec_demo::log_line::LogLine;
use ec_demo::log_view::{LogView, MalformedPacket, MAX_LOGS};
use ec_demo::mock::mock_defmt_wire;
use ec_demo::notifications::{Delivery, Event, EventRx, Notifications, ServiceFlag};
use object::write::{Object, Symbol, SymbolSection};
use object::{
    Architecture, BinaryFormat, Endianness, SectionKind, SymbolFlags, SymbolKind, SymbolScope,
};

fn symbol(name: String, value: u64, section: SymbolSection) -> Symbol {
    Symbol {
        name: name.into_bytes(),
        value,
        size: 1,
        kind: SymbolKind::Data,
        scope: SymbolScope::Dynamic,
        weak: false,
        section,
        flags: SymbolFlags::None,
    }
}

fn mangled(tag: &str, data: &str) -> String {
    format!(
        "{{\"package\":\"fw\",\"tag\":\"{tag}\",\"data\":\"{data}\",\"disambiguator\":\"{tag}{data}\",\"crate_name\":\"fw\"}}"
    )
}

/// A firmware image with an error string at address 1 and a string of two
/// lines, without level, at address 2.
fn image() -> Vec<u8> {
    let mut obj = Object::new(BinaryFormat::Elf, Architecture::Arm, Endianness::Little);
    let section = obj.add_section(Vec::new(), b".defmt".to_vec(), SectionKind::Data);
    obj.append_section_data(section, &[0u8; 8], 1);
    let absolute = SymbolSection::Absolute;
    obj.add_symbol(symbol("_defmt_version_ = 4".to_string(), 0, absolute));
    obj.add_symbol(symbol("_defmt_encoding_ = rzcobs".to_string(), 0, absolute));
    let here = SymbolSection::Section(section);
    obj.add_symbol(symbol(mangled("defmt_timestamp", "{=u64:us}"), 0, here));
    obj.add_symbol(symbol(mangled("defmt_error", "Fan stalled"), 1, here));
    obj.add_symbol(symbol(mangled("defmt_println", "first\\nsecond"), 2, here));
    obj.write().unwrap()
}

fn read(table: &Table, bytes: &[u8]) -> Reading {
    match table.decode(bytes) {
        Ok((f, used)) => Ok((
            Frame {
                timestamp: f.display_timestamp().map(|t| t.to_string()),
                level: f.level().map(|l| l.as_str().to_string()),
                message: f.display_message().to_string(),
            },
            used,
        )),
        Err(defmt_decoder::DecodeError::UnexpectedEof) => Err(DecodeError::UnexpectedEof),
        Err(defmt_decoder::DecodeError::Malformed) => Err(DecodeError::Malformed),
    }
}

fn receiver() -> EventRx<Sample> {
    let mut flag = ServiceFlag::new();
    let service = Notifications::new(&mut flag, || 0).unwrap();
    service.event_receiver(Event::DbgFrameAvailable)
}

fn texts(view: &LogView) -> Vec<String> {
    view.lines()
        .into_iter()
        .map(|line| match line {
            LogLine::Record {
                timestamp,
                level,
                text,
            } => format!("{timestamp}{level}{text}"),
            LogLine::Plain { text } => text.clone(),
            LogLine::Meta { text } => text.clone(),
        })
        .collect()
}

fn record(n: usize) -> Vec<LogLine> {
    vec![LogLine::Record {
        timestamp: "0 ".to_string(),
        level: "INFO   ".to_string(),
        text: format!("line {n}"),
    }]
}

#[test]
fn commands_are_read_from_their_words() {
    assert_eq!(
        Action::parse("attach mock-bin"),
        Ok(Action::Attach {
            path: "mock-bin".to_string()
        })
    );
    assert_eq!(
        Action::parse("  attach \t /tmp/fw.elf  "),
        Ok(Action::Attach {
            path: "/tmp/fw.elf".to_string()
        })
    );
    assert_eq!(Action::parse("detach"), Ok(Action::Detach));
    assert_eq!(Action::parse(" help\n"), Ok(Action::Help));
}

#[test]
fn anything_else_is_no_command() {
    for line in [
        "", "   ", "attach", "attach a b", "detach now", "help me", "Attach x", "quit", "attachx",
        "attach\u{a0}",
    ] {
        assert_eq!(Action::parse(line), Err(InvalidCommand), "{line:?}");
    }
    assert_eq!(InvalidCommand.message(), "Invalid command");
}

#[test]
fn frame_is_shown_behind_time_stamp_and_level() {
    let frame = Frame {
        timestamp: Some("1.500000".to_string()),
        level: Some("warn".to_string()),
        message: "Fan slow".to_string(),
    };
    assert_eq!(
        DefmtHandler::frame2lines(&frame),
        vec![LogLine::Record {
            timestamp: "1.500000 ".to_string(),
            level: "WARN   ".to_string(),
            text: "Fan slow ".to_string(),
        }]
    );
}

#[test]
fn further_lines_of_a_frame_start_below_the_first() {
    let frame = Frame {
        timestamp: Some("12.000001".to_string()),
        level: Some("error".to_string()),
        message: "one\r\ntwo\n\nfour".to_string(),
    };
    let lines = DefmtHandler::frame2lines(&frame);
    assert_eq!(
        lines,
        vec![
            LogLine::Record {
                timestamp: "12.000001 ".to_string(),
                level: "ERROR  ".to_string(),
                text: "one".to_string(),
            },
            LogLine::Plain {
                text: format!("{}two", " ".repeat(17)),
            },
            LogLine::Plain {
                text: " ".repeat(17),
            },
            LogLine::Plain {
                text: format!("{}four ", " ".repeat(17)),
            },
        ]
    );
    assert_eq!(lines[0].width(), 20);
    assert_eq!(lines[3].width(), 22);
}

#[test]
fn frame_without_time_stamp_and_level_keeps_its_columns() {
    let frame = Frame {
        timestamp: None,
        level: None,
        message: "bare\nmore".to_string(),
    };
    assert_eq!(
        DefmtHandler::frame2lines(&frame),
        vec![
            LogLine::Record {
                timestamp: " ".to_string(),
                level: "       ".to_string(),
                text: "bare".to_string(),
            },
            LogLine::Plain {
                text: "        more ".to_string(),
            },
        ]
    );
}

#[test]
fn level_is_shown_in_capitals() {
    let frame = Frame {
        timestamp: None,
        level: Some("straße".to_string()),
        message: String::new(),
    };
    assert_eq!(
        DefmtHandler::frame2lines(&frame),
        vec![LogLine::Record {
            timestamp: " ".to_string(),
            level: "STRASSE".to_string(),
            text: " ".to_string(),
        }]
    );
}

#[test]
fn line_width_counts_bytes() {
    let line = LogLine::Plain {
        text: "grüße".to_string(),
    };
    assert_eq!(line.width(), 7);
    let line = LogLine::Meta {
        text: "<x>".to_string(),
    };
    assert_eq!(line.width(), 3);
}

#[test]
fn log_pane_keeps_the_last_thousand_lines() {
    let mut view = LogView::default();
    for n in 0..MAX_LOGS + 5 {
        view.log_frame(Ok(Some(record(n))));
    }
    assert_eq!(view.len(), 1000);
    let held = texts(&view);
    assert_eq!(held[0], "0 INFO   line 5");
    assert_eq!(held[999], "0 INFO   line 1004");
}

#[test]
fn log_pane_follows_the_tail_until_scrolled_away() {
    let mut view = LogView::default();
    view.resize(10, 80);
    for n in 0..10 {
        view.log_frame(Ok(Some(record(n))));
        assert_eq!(view.vertical().position(), 0);
    }
    for n in 10..30 {
        view.log_frame(Ok(Some(record(n))));
        assert_eq!(view.vertical().position(), n + 1 - 10);
    }
    view.scroll_up();
    view.scroll_up();
    assert_eq!(view.vertical().position(), 18);
    view.log_frame(Ok(Some(record(30))));
    view.log_meta("note");
    assert_eq!(view.vertical().position(), 18);
    assert_eq!(view.vertical().max_offset(), 22);
    view.scroll_down();
    view.scroll_down();
    view.scroll_down();
    view.scroll_down();
    view.scroll_down();
    assert_eq!(view.vertical().position(), 22);
    view.log_frame(Ok(Some(record(31))));
    assert_eq!(view.vertical().position(), 23);
}

#[test]
fn log_pane_takes_a_frame_of_several_lines_at_once() {
    let mut view = LogView::default();
    view.resize(3, 80);
    let lines: Vec<LogLine> = (0..5)
        .map(|n| LogLine::Plain {
            text: format!("{n}"),
        })
        .collect();
    view.log_frame(Ok(Some(lines.clone())));
    assert_eq!(view.vertical().position(), 2);
    view.log_frame(Ok(Some(lines)));
    assert_eq!(view.vertical().position(), 7);
    view.log_frame(Ok(None));
    assert_eq!(view.len(), 10);
    assert_eq!(view.vertical().position(), 7);
}

#[test]
fn log_pane_measures_the_widest_record() {
    let mut view = LogView::default();
    view.resize(10, 12);
    assert_eq!(view.max_log_len(), 0);
    view.log_frame(Ok(Some(record(1))));
    assert_eq!(view.max_log_len(), 15);
    view.log_meta("a word from the viewer that is wider than any record");
    assert_eq!(view.max_log_len(), 15);
    view.log_frame(Ok(Some(record(123456))));
    assert_eq!(view.max_log_len(), 20);
    view.log_frame(Ok(Some(record(2))));
    assert_eq!(view.max_log_len(), 20);
    assert_eq!(view.horizontal().max_offset(), 8);
    for _ in 0..10 {
        view.scroll_right();
    }
    assert_eq!(view.horizontal().position(), 8);
    view.scroll_left();
    assert_eq!(view.horizontal().position(), 7);
    for _ in 0..10 {
        view.scroll_left();
    }
    assert_eq!(view.horizontal().position(), 0);
}

#[test]
fn log_pane_notes_a_frame_that_could_not_be_read() {
    let mut view = LogView::default();
    view.log_frame(Err(MalformedPacket));
    assert_eq!(texts(&view), vec!["<Received malformed defmt packet>"]);
    assert_eq!(
        view.lines()[0],
        &LogLine::Meta {
            text: "<Received malformed defmt packet>".to_string()
        }
    );
}

#[test]
fn help_names_the_commands() {
    let mut view = LogView::default();
    view.resize(2, 80);
    view.display_help();
    assert_eq!(
        texts(&view),
        vec![
            "Commands supported:",
            "help (Display help)",
            "attach <elf-path> (Attach an ELF file to view defmt logs)",
            "detach (Detach ELF)",
        ]
    );
    assert_eq!(view.vertical().position(), 2);
    assert_eq!(view.max_log_len(), 0);
}

#[test]
fn rescrolling_moves_only_a_position_at_the_tail() {
    let mut view = LogView::default();
    view.resize(2, 80);
    view.display_help();
    view.scroll_up();
    assert_eq!(view.vertical().position(), 1);
    view.update_scroll(2);
    assert_eq!(view.vertical().position(), 1);
    view.update_scroll(1);
    assert_eq!(view.vertical().position(), 1);
    view.scroll_down();
    view.update_scroll(1);
    assert_eq!(view.vertical().position(), 2);
}

#[test]
fn full_pane_leaves_a_position_short_of_the_tail() {
    let mut view = LogView::default();
    view.resize(10, 80);
    for _ in 0..1000 {
        view.log_meta("line");
    }
    assert_eq!(view.vertical().position(), 990);
    view.scroll_up();
    assert_eq!(view.vertical().position(), 989);
    view.log_meta("one more");
    assert_eq!(view.vertical().position(), 989);
    assert_eq!(view.len(), 1000);
    assert_eq!(texts(&view)[999], "<one more>");
}

#[test]
fn help_that_fills_the_pane_moves_the_tail_on() {
    let mut view = LogView::default();
    view.resize(10, 80);
    for _ in 0..999 {
        view.log_meta("line");
    }
    assert_eq!(view.vertical().position(), 989);
    view.display_help();
    assert_eq!(view.len(), 1000);
    assert_eq!(view.vertical().position(), 990);
    assert_eq!(
        texts(&view)[996..],
        [
            "Commands supported:",
            "help (Display help)",
            "attach <elf-path> (Attach an ELF file to view defmt logs)",
            "detach (Detach ELF)",
        ]
    );
}

#[test]
fn frame_that_fills_the_pane_moves_the_tail_on() {
    let mut view = LogView::default();
    view.resize(10, 80);
    for _ in 0..998 {
        view.log_meta("line");
    }
    assert_eq!(view.vertical().position(), 988);
    let lines: Vec<LogLine> = (0..4).flat_map(record).collect();
    view.log_frame(Ok(Some(lines)));
    assert_eq!(view.len(), 1000);
    assert_eq!(view.vertical().position(), 990);
}

#[test]
fn tab_starts_detached() {
    let mut rx = receiver();
    rx.start();
    let (debug, kick) = ec_demo::debug::Debug::new(None, false, &mut rx);
    assert!(!kick);
    assert!(!debug.is_attached());
    assert!(!rx.is_running());
    assert_eq!(debug.title(), "Debug Information (None)");
    assert_eq!(
        texts(debug.log_view()),
        vec!["<No ELF attached so debug logs are not available>"]
    );
}

#[test]
fn tab_gives_a_hint_where_asked() {
    let mut rx = receiver();
    let (debug, _) = ec_demo::debug::Debug::new(None, true, &mut rx);
    assert_eq!(
        texts(debug.log_view()),
        vec![
            "<No ELF attached so debug logs are not available>",
            "<Try running the command `attach mock-bin`>",
        ]
    );
}

#[test]
fn tab_starts_attached_where_an_image_was_loaded() {
    let mut rx = receiver();
    let loaded = Ok(("fw.elf".to_string(), image()));
    let (debug, kick) = ec_demo::debug::Debug::new(Some(loaded), false, &mut rx);
    assert!(kick);
    assert!(debug.is_attached());
    assert!(rx.is_running());
    assert_eq!(debug.title(), "Debug Information (fw.elf)");
    assert_eq!(texts(debug.log_view()), vec!["<Attached ELF: fw.elf>"]);
}

#[test]
fn failed_attach_is_noted_and_leaves_the_tab_detached() {
    let mut rx = receiver();
    let (mut debug, _) = ec_demo::debug::Debug::new(Some(Err(AttachError::ReadFailed)), false, &mut rx);
    assert!(!debug.is_attached());
    assert!(!rx.is_running());
    assert!(!debug.attach_elf(Err(AttachError::NoFileName), &mut rx));
    assert!(!debug.attach_elf(Ok(("junk".to_string(), vec![1, 2, 3])), &mut rx));
    let lines = texts(debug.log_view());
    assert_eq!(lines[0], "<Failed to attach ELF: Failed to read ELF>");
    assert_eq!(
        lines[1],
        "<Failed to attach ELF: No file name found in ELF path>"
    );
    assert!(lines[2].starts_with("<Failed to attach ELF: "));
    assert!(lines[2].len() > "<Failed to attach ELF: >".len());
    assert_eq!(debug.title(), "Debug Information (None)");
}

#[test]
fn failed_attach_detaches_what_was_attached() {
    let mut rx = receiver();
    let (mut debug, _) = ec_demo::debug::Debug::new(Some(Ok(("fw".to_string(), image()))), false, &mut rx);
    assert!(debug.is_attached());
    assert!(!debug.attach_elf(Err(AttachError::InvalidPath), &mut rx));
    assert!(!debug.is_attached());
    assert!(rx.is_running());
}

#[test]
fn commands_are_carried_out() {
    let mut rx = receiver();
    let (mut debug, _) = ec_demo::debug::Debug::new(Some(Ok(("fw".to_string(), image()))), false, &mut rx);
    assert_eq!(
        debug.handle_cmd("attach other.elf", &mut rx),
        Request::Load {
            path: "other.elf".to_string()
        }
    );
    assert!(debug.is_attached());
    assert_eq!(debug.handle_cmd("bogus", &mut rx), Request::Nothing);
    assert_eq!(debug.handle_cmd("help", &mut rx), Request::Nothing);
    assert!(rx.is_running());
    assert_eq!(debug.handle_cmd("detach", &mut rx), Request::Nothing);
    assert!(!debug.is_attached());
    assert!(!rx.is_running());
    assert_eq!(
        texts(debug.log_view()),
        vec![
            "<Attached ELF: fw>",
            "<Invalid command>",
            "Commands supported:",
            "help (Display help)",
            "attach <elf-path> (Attach an ELF file to view defmt logs)",
            "detach (Detach ELF)",
            "<No ELF attached so debug logs are not available>",
        ]
    );
}

#[test]
fn update_takes_every_sample_in_order() {
    let mut rx = receiver();
    let (mut debug, _) = ec_demo::debug::Debug::new(Some(Ok(("fw".to_string(), image()))), false, &mut rx);
    let frame = mock_defmt_wire(2, 3_000_000);
    let samples: Vec<Sample> = vec![
        Ok(mock_defmt_wire(1, 1_000_000)),
        Err("device is away".to_string()),
        Ok(frame[..2].to_vec()),
        Ok(frame[2..].to_vec()),
        Ok(mock_defmt_wire(8, 0)),
    ];
    for sample in samples {
        assert!(matches!(rx.deliver(sample), Delivery::Delivered));
    }
    debug.update(&mut rx, &read);
    assert_eq!(rx.pending(), 0);
    assert_eq!(
        texts(debug.log_view()),
        vec![
            "<Attached ELF: fw>",
            "1.000000 ERROR  Fan stalled ",
            "<device is away>",
            "3.000000        first",
            "                second ",
            "<Received malformed defmt packet>",
        ]
    );
}

#[test]
fn update_takes_nothing_while_detached() {
    let mut rx = receiver();
    let (mut debug, _) = ec_demo::debug::Debug::new(None, false, &mut rx);
    assert!(matches!(
        rx.deliver(Ok(mock_defmt_wire(1, 0))),
        Delivery::Delivered
    ));
    debug.update(&mut rx, &read);
    assert_eq!(rx.pending(), 1);
    assert_eq!(debug.log_view().len(), 1);
}

#[test]
fn arrow_keys_scroll_and_enter_submits() {
    let mut rx = receiver();
    let (mut debug, _) = ec_demo::debug::Debug::new(None, false, &mut rx);
    debug.resize(2, 10);
    for _ in 0..3 {
        debug.handle_cmd("help", &mut rx);
    }
    assert_eq!(debug.log_view().vertical().position(), 11);
    assert_eq!(
        debug.handle_event(&InputEvent::Press(Key::Up)),
        Forward::Nothing
    );
    assert_eq!(debug.log_view().vertical().position(), 10);
    assert_eq!(
        debug.handle_event(&InputEvent::Press(Key::Down)),
        Forward::Nothing
    );
    assert_eq!(debug.log_view().vertical().position(), 11);
    assert_eq!(
        debug.handle_event(&InputEvent::Press(Key::Right)),
        Forward::Nothing
    );
    assert_eq!(
        debug.handle_event(&InputEvent::Press(Key::Left)),
        Forward::Nothing
    );
    assert_eq!(
        debug.handle_event(&InputEvent::Press(Key::Enter)),
        Forward::Submit
    );
    assert_eq!(
        debug.handle_event(&InputEvent::Press(Key::Char('a'))),
        Forward::Edit
    );
    assert_eq!(
        debug.handle_event(&InputEvent::Key(Key::Up)),
        Forward::Nothing
    );
    assert_eq!(debug.handle_event(&InputEvent::Other), Forward::Nothing);
    assert_eq!(debug.log_view().vertical().position(), 11);
}
