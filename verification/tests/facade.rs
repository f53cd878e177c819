use terminal_facade::command::Command;
use terminal_facade::Position;
use terminal_facade::Size;
use terminal_facade::Terminal;

#[test]
fn new_terminal_buffers_nothing() {
    let t = Terminal::new();
    assert_eq!(t.queued_len(), 0);
    assert!(!t.is_raw_mode());
    assert!(t.queued_command(0).is_none());
}

#[test]
fn move_then_print_queue_in_call_order() {
    let mut t = Terminal::new();
    assert!(t.move_cursor(Position { x: 2, y: 1 }).is_ok());
    assert!(t.print("ok").is_ok());
    assert_eq!(t.queued_len(), 2);
    match t.queued_command(0) {
        Some(Command::MoveTo(x, y)) => {
            assert_eq!(*x, 2);
            assert_eq!(*y, 1);
        }
        other => panic!("expected a cursor move first, got {:?}", other.is_some()),
    }
    match t.queued_command(1) {
        Some(Command::Print(s)) => assert_eq!(s, "ok"),
        other => panic!("expected the printed text second, got {:?}", other.is_some()),
    }
}

#[test]
fn every_queue_operation_buffers_one_command() {
    let mut t = Terminal::new();
    assert!(t.clear_screen().is_ok());
    assert!(t.clear_line().is_ok());
    assert!(t.hide_cursor().is_ok());
    assert!(t.show_cursor().is_ok());
    assert_eq!(t.queued_len(), 4);
    assert!(matches!(t.queued_command(0), Some(Command::ClearAll)));
    assert!(matches!(t.queued_command(1), Some(Command::ClearLine)));
    assert!(matches!(t.queued_command(2), Some(Command::Hide)));
    assert!(matches!(t.queued_command(3), Some(Command::Show)));
    assert!(t.queued_command(4).is_none());
}

#[test]
fn queueing_produces_no_output_before_execute() {
    // The buffering law is proved over the model; here the observable
    // side: an arbitrarily long run of queuing calls leaves everything
    // sitting in the buffer, and only the flush empties it.
    let mut t = Terminal::new();
    for i in 0..50u16 {
        assert!(t.move_cursor(Position { x: i, y: i }).is_ok());
        assert!(t.print("x").is_ok());
    }
    assert_eq!(t.queued_len(), 100);
    let r = t.execute();
    assert!(r.is_ok());
    assert_eq!(t.queued_len(), 0);
}

#[test]
fn execute_on_empty_buffer_is_ok_and_idempotent() {
    let mut t = Terminal::new();
    assert!(t.execute().is_ok());
    assert!(t.execute().is_ok());
    assert_eq!(t.queued_len(), 0);
}

#[test]
fn clear_screen_then_execute_flushes() {
    let mut t = Terminal::new();
    assert!(t.clear_screen().is_ok());
    assert_eq!(t.queued_len(), 1);
    assert!(t.execute().is_ok());
    assert_eq!(t.queued_len(), 0);
}

#[test]
fn hide_show_pair_queues_and_repeats() {
    let mut t = Terminal::new();
    assert!(t.hide_cursor().is_ok());
    assert!(t.show_cursor().is_ok());
    assert!(t.hide_cursor().is_ok());
    assert!(t.show_cursor().is_ok());
    assert_eq!(t.queued_len(), 4);
    assert!(matches!(t.queued_command(0), Some(Command::Hide)));
    assert!(matches!(t.queued_command(1), Some(Command::Show)));
    assert!(matches!(t.queued_command(2), Some(Command::Hide)));
    assert!(matches!(t.queued_command(3), Some(Command::Show)));
    assert!(t.execute().is_ok());
    assert_eq!(t.queued_len(), 0);
}

#[test]
fn move_cursor_accepts_the_whole_coordinate_domain() {
    // The wire format is one-based, so u16::MAX - 1 is the largest
    // zero-based coordinate a move may carry.
    let mut t = Terminal::new();
    assert!(t.move_cursor(Position { x: 0, y: 0 }).is_ok());
    assert!(t.move_cursor(Position { x: u16::MAX - 1, y: u16::MAX - 1 }).is_ok());
    assert_eq!(t.queued_len(), 2);
    assert!(t.execute().is_ok());
}

#[test]
fn print_empty_string_is_buffered_too() {
    let mut t = Terminal::new();
    assert!(t.print("").is_ok());
    assert_eq!(t.queued_len(), 1);
    match t.queued_command(0) {
        Some(Command::Print(s)) => assert_eq!(s, ""),
        _ => panic!("expected the empty text to be buffered"),
    }
}

#[test]
fn size_from_dims_packages_columns_and_rows() {
    let s = Size::from_dims(80, 24);
    assert_eq!(s.width, 80);
    assert_eq!(s.height, 24);
    let z = Size::from_dims(0, 0);
    assert_eq!(z.width, 0);
    assert_eq!(z.height, 0);
}

#[test]
fn size_query_reports_or_fails_without_panicking() {
    // Attached to a real terminal the query reports the device's extent;
    // under a captured test harness it may fail instead. Either way it
    // must return, and a success must round-trip through from_dims.
    match Terminal::size() {
        Ok(s) => {
            let again = Size::from_dims(s.width, s.height);
            assert_eq!(again.width, s.width);
            assert_eq!(again.height, s.height);
        }
        Err(e) => {
            // The error carries the underlying OS report.
            let _ = e.kind();
        }
    }
}

#[test]
fn initialize_then_terminate_restores_cooked_mode() {
    let mut t = Terminal::new();
    match t.initialize() {
        Ok(()) => {
            // Raw mode is on and a clear plus a move to the origin are queued.
            assert!(t.is_raw_mode());
            assert_eq!(t.queued_len(), 2);
            assert!(matches!(t.queued_command(0), Some(Command::ClearAll)));
            match t.queued_command(1) {
                Some(Command::MoveTo(x, y)) => {
                    assert_eq!(*x, 0);
                    assert_eq!(*y, 0);
                }
                _ => panic!("expected a move to the origin second"),
            }
            // Pair it: restore cooked mode before the test ends.
            let r = t.terminate();
            assert!(r.is_ok());
            assert!(!t.is_raw_mode());
        }
        Err(_) => {
            // No TTY to switch: nothing may have changed.
            assert!(!t.is_raw_mode());
            assert_eq!(t.queued_len(), 0);
        }
    }
}

#[test]
fn position_and_size_are_plain_values() {
    let p = Position { x: 7, y: 9 };
    let q = p;
    assert_eq!(q.x, 7);
    assert_eq!(q.y, 9);
    assert_eq!(p, q);
    let s = Size { width: 120, height: 40 };
    assert_eq!(s, s);
}
