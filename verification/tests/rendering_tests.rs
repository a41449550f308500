use agent_room::progress_bar::ProgressBar;
use agent_room::transcript::render_transcript_block;

#[test]
fn progress_line_shows_bar_and_remaining_time() {
    let mut bar = ProgressBar::new(10);
    bar.init();
    let line = bar.update(5000, 10000);
    assert_eq!(line, "\r[=====     ] Time remaining: 00:05");
    assert_eq!(bar.last_printed_length, line.chars().count());
}

#[test]
fn progress_line_is_empty_bar_at_start_and_full_at_end() {
    let mut bar = ProgressBar::new(4);
    let start = bar.update(0, 60000);
    assert_eq!(start, "\r[    ] Time remaining: 01:00");
    let mut done = ProgressBar::new(4);
    let end = done.update(60000, 60000);
    assert_eq!(end, "\r[====] Time remaining: 00:00");
    let past = done.update(90000, 60000);
    assert_eq!(past, "\r[====] Time remaining: 00:00");
}

#[test]
fn shorter_progress_line_is_padded_over_the_previous_one() {
    let mut bar = ProgressBar { bar_width: 4, last_printed_length: 40 };
    let line = bar.update(0, 60000);
    assert_eq!(line.chars().count(), 40);
    assert!(line.starts_with("\r[    ] Time remaining: 01:00"));
    assert!(line.ends_with(&" ".repeat(11)));
    assert_eq!(bar.last_printed_length, 40);
}

#[test]
fn transcript_block_for_a_fresh_file() {
    let block = render_transcript_block("System: hello\nAda: hi", "2024-01-02 03:04:05", false);
    assert_eq!(
        block,
        "Transcript Date: 2024-01-02 03:04:05\n\nSystem: hello\nAda: hi\n"
    );
}

#[test]
fn transcript_block_for_an_existing_file_starts_with_a_separator() {
    let block = render_transcript_block("System: hello", "2024-01-02 03:04:05", true);
    assert_eq!(
        block,
        "\n\n——————————-NEW ROOM——————————-\n\nTranscript Date: 2024-01-02 03:04:05\n\nSystem: hello\n"
    );
}
