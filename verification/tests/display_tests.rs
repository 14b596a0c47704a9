use filament_dryer::display::diff_runs;
use filament_dryer::display::pad_line;
use filament_dryer::display::Display;
use filament_dryer::display::DisplayState;
use filament_dryer::lcd_interface::BusOp;

#[test]
fn diff_single_changed_character() {
    let runs = diff_runs(b"AAAA", b"ABAA");
    assert_eq!(runs.len(), 1);
    assert_eq!(runs[0].idx, 1);
    assert_eq!(runs[0].text, b"B".to_vec());
}

#[test]
fn diff_identical_lines_yield_no_runs() {
    let runs = diff_runs(b"AAAA", b"AAAA");
    assert_eq!(runs.len(), 0);
    let empty = diff_runs(b"", b"");
    assert_eq!(empty.len(), 0);
}

#[test]
fn diff_entirely_different_lines_yield_one_run() {
    let runs = diff_runs(b"AAAA", b"BCDE");
    assert_eq!(runs.len(), 1);
    assert_eq!(runs[0].idx, 0);
    assert_eq!(runs[0].text, b"BCDE".to_vec());
}

#[test]
fn diff_run_reaching_end_of_line_is_kept() {
    let runs = diff_runs(b"AAAA", b"AABB");
    assert_eq!(runs.len(), 1);
    assert_eq!(runs[0].idx, 2);
    assert_eq!(runs[0].text, b"BB".to_vec());
}

#[test]
fn diff_separate_runs() {
    let runs = diff_runs(b"AAAAAA", b"BBAABB");
    assert_eq!(runs.len(), 2);
    assert_eq!(runs[0].idx, 0);
    assert_eq!(runs[0].text, b"BB".to_vec());
    assert_eq!(runs[1].idx, 4);
    assert_eq!(runs[1].text, b"BB".to_vec());
}

#[test]
fn new_display_is_blank() {
    let d = Display::new();
    assert_eq!(d.state, DisplayState::Idle);
    assert_eq!(d.line1_chars, vec![b' '; 39]);
    assert_eq!(d.line2_chars, vec![b' '; 39]);
}

#[test]
fn pad_line_pads_and_cuts() {
    let padded = pad_line(b"AB".to_vec());
    assert_eq!(padded.len(), 39);
    assert_eq!(&padded[0..2], b"AB");
    assert!(padded[2..].iter().all(|&b| b == b' '));

    let long = vec![b'X'; 50];
    let cut = pad_line(long);
    assert_eq!(cut, vec![b'X'; 39]);
}

#[test]
fn update_emits_only_changed_runs_and_retains_frame() {
    let mut d = Display::new();
    let mut line1 = vec![b' '; 39];
    line1[0] = b'A';
    let line2 = vec![b' '; 39];

    let ops = d.update(&line1, &line2);
    // One changed character: cursor to column 0 of row 0 (command 0x80),
    // then the data byte for 'A', each byte as two enable pulses.
    let expected = vec![
        BusOp::Byte(0x8C),
        BusOp::WaitUs(1),
        BusOp::Byte(0x88),
        BusOp::WaitUs(50),
        BusOp::Byte(0x0C),
        BusOp::WaitUs(1),
        BusOp::Byte(0x08),
        BusOp::WaitUs(50),
        BusOp::Byte(0x4D),
        BusOp::WaitUs(1),
        BusOp::Byte(0x49),
        BusOp::WaitUs(50),
        BusOp::Byte(0x1D),
        BusOp::WaitUs(1),
        BusOp::Byte(0x19),
        BusOp::WaitUs(50),
    ];
    assert_eq!(ops, expected);
    assert_eq!(d.line1_chars, line1);
    assert_eq!(d.line2_chars, line2);

    // Rendering the identical frame again transmits nothing.
    let ops_again = d.update(&line1, &line2);
    assert!(ops_again.is_empty());
}

#[test]
fn update_second_line_uses_second_row() {
    let mut d = Display::new();
    let line1 = vec![b' '; 39];
    let mut line2 = vec![b' '; 39];
    line2[3] = b'Z';

    let ops = d.update(&line1, &line2);
    // Cursor to column 3 of row 1: command 0x80 | (3 + 0x40) = 0xC3.
    assert_eq!(ops[0], BusOp::Byte(0xCC));
    assert_eq!(ops[2], BusOp::Byte(0xC8));
    assert_eq!(ops[4], BusOp::Byte(0x3C));
    assert_eq!(ops.len(), 16);
}
