use qvault::qvault_tui::{
    box_text, clear_output_text, goto_text, help_panel_text, render_settings_text, screen_text,
    settings_step, shutdown_ops, shutdown_text, KeyInput, ScreenLayout, SettingsExit,
    SettingsForm, TermOp,
};

#[test]
fn test_goto_text() {
    assert_eq!(goto_text(5, 3), "\x1b[3;5H");
    assert_eq!(goto_text(1, 1), "\x1b[1;1H");
    assert_eq!(goto_text(120, 42), "\x1b[42;120H");
}

#[test]
fn test_layout() {
    let layout = ScreenLayout::layout_for(80, 24);
    assert_eq!(layout.output_row, 1);
    assert_eq!(layout.hbar_row, 23);
    assert_eq!(layout.input_row, 24);
}

#[test]
fn test_screen_and_clear_text() {
    let (layout, s) = screen_text(4, 3);
    assert_eq!(layout.hbar_row, 2);
    assert_eq!(
        s,
        "\x1b[2J\x1b[2;1H\x1b[48;5;12m    \x1b[0m\x1b[?25h\x1b[1B\x1b[3;1H"
    );
    let (_, s) = clear_output_text(4, 3);
    assert_eq!(s, "\x1b[2J\x1b[2;1H\x1b[48;5;12m    \x1b[0m\x1b[?25h\x1b[3;1H");
}

#[test]
fn test_prompt_and_echo_text() {
    let mut layout = ScreenLayout::layout_for(80, 24);
    assert_eq!(layout.prompt_text(), "\x1b[24;1H\x1b[2K\u{1F50D}>");
    layout.input_col = 3;
    assert_eq!(layout.echo_text("abc"), "\x1b[24;3Habc");
}

#[test]
fn test_message_and_url_text() {
    let layout = ScreenLayout::layout_for(80, 24);
    assert_eq!(layout.msg_text("hello"), "\x1b[2;1Hhello\n");
    assert_eq!(
        layout.message_text(1, "body"),
        "\x1b[8;1H\u{1F7E2}  body\n"
    );
    assert_eq!(
        layout.url_text("https://x"),
        "\x1b[16;1H\x1b]8;;https://x\x1b\\\u{1F7E2} URL : https://x\x1b]8;;\x1b\\"
    );
}

#[test]
fn test_title_text() {
    let layout = ScreenLayout::layout_for(80, 24);
    // Ten clovers of four bytes, two spaces and three letters: 45 bytes, so
    // the centered start column is (80 - 45) / 2 = 17.
    let deco = "\u{1F340}\u{1F340}\u{1F340}\u{1F340}\u{1F340}";
    assert_eq!(
        layout.title_text("abc"),
        format!("\x1b[2;17H\x1b[1m{} ABC {}\x1b[0m\n", deco, deco)
    );
    // An empty title falls back to the default.
    assert_eq!(
        layout.title_text(""),
        format!("\x1b[2;12H\x1b[1m{} SEARCH RESULTS {}\x1b[0m\n", deco, deco)
    );
}

#[test]
fn test_nav_text() {
    let layout = ScreenLayout::layout_for(80, 24);
    // "3 Search Results" is 16 bytes: centered at 40 - 8 = 32, row 21.
    assert_eq!(
        layout.nav_text(3),
        "\x1b[21;32H\x1b[38;5;4m3 Search Results\x1b[21;66H\x1b[38;5;2m\x1b[7mNext Page \u{2192} \x1b[0m\x1b[21;66H"
    );
    // A single result shows no next-page hint.
    assert_eq!(layout.nav_text(1), "\x1b[21;32H\x1b[38;5;4m1 Search Results");
}

#[test]
fn test_bar_message_text() {
    let layout = ScreenLayout::layout_for(80, 24);
    assert_eq!(
        layout.bar_message_text("hint"),
        "\x1b[s\x1b[23;1H\x1b[1;37m\x1b[48;5;12m\u{1F30D}  \u{1F4DA}  hint\x1b[0m\x1b[23;78H\u{1F5C4}\x1b[u"
    );
}

#[test]
fn test_box_text() {
    // A 2-by-2 box: borders column by column and row by row, corners last.
    let expected = "\x1b[1;1H\u{2500}\x1b[2;1H\u{2500}\x1b[1;2H\u{2500}\x1b[2;2H\u{2500}\x1b[1;1H\u{2502}\x1b[1;2H\u{2502}\x1b[2;1H\u{2502}\x1b[2;2H\u{2502}\x1b[1;1H\u{250C}\x1b[1;2H\u{2510}\x1b[2;1H\u{2514}\x1b[2;2H\u{2518}";
    assert_eq!(box_text(1, 1, 2, 2), expected);
}

#[test]
fn test_help_panel_text() {
    let layout = ScreenLayout::layout_for(80, 24);
    let lines = vec!["a - b".to_string(), "c - d".to_string()];
    let panel = help_panel_text(&layout, &lines);
    // The box is centered: x = 10, y = 4; the lines start at (15, 8).
    let expected_box = box_text(10, 4, 60, 15);
    assert!(panel.starts_with(expected_box.as_str()));
    assert_eq!(
        &panel[expected_box.len()..],
        "\x1b[8;15Ha - b\n\x1b[9;15Hc - d\n"
    );
}

#[test]
fn test_settings_form_steps() {
    let mut form = SettingsForm::new_form();
    assert_eq!(form.active_field, 0);
    // Tab cycles through the four elements and wraps around.
    assert!(settings_step(&mut form, KeyInput::Char('\t')).is_none());
    assert_eq!(form.active_field, 1);
    settings_step(&mut form, KeyInput::Char('\t'));
    settings_step(&mut form, KeyInput::Char('\t'));
    settings_step(&mut form, KeyInput::Char('\t'));
    assert_eq!(form.active_field, 0);
    // Characters edit the active field; Backspace removes.
    settings_step(&mut form, KeyInput::Char('a'));
    settings_step(&mut form, KeyInput::Char('b'));
    assert_eq!(form.username, "ab");
    settings_step(&mut form, KeyInput::Backspace);
    assert_eq!(form.username, "a");
    settings_step(&mut form, KeyInput::Char('\t'));
    settings_step(&mut form, KeyInput::Char('k'));
    assert_eq!(form.password, "k");
    assert_eq!(form.username, "a");
    // Enter on a text field does nothing.
    settings_step(&mut form, KeyInput::Char('\n'));
    assert_eq!(form.username, "a");
    // Enter on Cancel and Submit leaves the form; Escape aborts.
    form.active_field = 2;
    assert_eq!(
        settings_step(&mut form, KeyInput::Char('\n')),
        Some(SettingsExit::Cancelled)
    );
    form.active_field = 3;
    assert_eq!(
        settings_step(&mut form, KeyInput::Char('\n')),
        Some(SettingsExit::Submitted)
    );
    assert_eq!(
        settings_step(&mut form, KeyInput::Esc),
        Some(SettingsExit::Aborted)
    );
}

#[test]
fn test_render_settings_text() {
    let s = render_settings_text("abc", "", 0);
    assert!(s.starts_with(box_text(18, 5, 33, 3).as_str()));
    assert!(s.contains("Brave API Key:"));
    assert!(s.contains("OpenAI API Key:"));
    assert!(s.contains("Cancel"));
    assert!(s.contains("Submit"));
    // The active label is highlighted; the field value is padded to 20.
    assert!(s.contains("\x1b[7m\x1b[36mBrave API Key:"));
    assert!(s.contains(format!("\x1b[6;19H{:<20}", "abc").as_str()));
}

#[test]
fn test_shutdown_sequence() {
    // The exact restore sequence, on every exit path: default colors,
    // cleared screen, visible cursor, origin, flush, raw mode released.
    assert_eq!(
        shutdown_ops(),
        vec![
            TermOp::ResetStyle,
            TermOp::ClearAll,
            TermOp::ShowCursor,
            TermOp::MoveTo(1, 1),
            TermOp::Flush,
            TermOp::ReleaseRaw,
        ]
    );
    assert_eq!(shutdown_text(), "\x1b[0m\x1b[2J\x1b[?25h\x1b[1;1H");
}
