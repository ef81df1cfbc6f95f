use lurk_dashboard::layout::{partition, Direction, Rect};
use lurk_dashboard::session::{is_quit_key, RenderError, TerminalSession};
use lurk_dashboard::text::{i32_string, u32_string};

#[test]
fn resize_is_detected_exactly_once() {
    let initial = Rect { x: 0, y: 0, width: 80, height: 24 };
    let grown = Rect { x: 0, y: 0, width: 100, height: 30 };
    let mut session = TerminalSession::new(initial);
    assert_eq!(session.size, initial);

    // Same dimensions: no resize.
    assert!(!session.update(initial));
    assert_eq!(session.size, initial);

    // Grown terminal: exactly one resize, and the stored size follows.
    assert!(session.update(grown));
    assert_eq!(session.size, grown);
    assert!(!session.update(grown));

    // A layout pass after the resize partitions against 100x30, not 80x24.
    let bands = partition(session.size, Direction::Vertical, &vec![10, 55, 30, 5]);
    assert_eq!(bands[0], Rect { x: 0, y: 0, width: 100, height: 3 });
    assert_eq!(bands[1], Rect { x: 0, y: 3, width: 100, height: 16 });
    assert_eq!(bands[2], Rect { x: 0, y: 19, width: 100, height: 9 });
    assert_eq!(bands[3], Rect { x: 0, y: 28, width: 100, height: 2 });
}

#[test]
fn quit_key_is_q_alone() {
    assert!(is_quit_key('q'));
    assert!(!is_quit_key('Q'));
    assert!(!is_quit_key('a'));
    assert!(!is_quit_key('\n'));
}

#[test]
fn error_messages_are_exact() {
    assert_eq!(
        RenderError::BackendInit.describe(),
        "Failed to create terminal interface backend."
    );
    assert_eq!(RenderError::SizeQuery.describe(), "Failed to get terminal size.");
    assert_eq!(RenderError::Clear.describe(), "Failed to clear terminal.");
    assert_eq!(RenderError::Cursor.describe(), "Failed to hide cursor.");
    assert_eq!(RenderError::Draw.describe(), "Failed to render.");
    assert_eq!(RenderError::Resize.describe(), "Failed to resize terminal.");
    assert_eq!(RenderError::LockPoisoned.describe(), "Failed to lock game data.");
}

#[test]
fn decimal_rendering_exact() {
    assert_eq!(u32_string(0), "0");
    assert_eq!(u32_string(7), "7");
    assert_eq!(u32_string(225), "225");
    assert_eq!(u32_string(1000), "1000");
    assert_eq!(u32_string(4294967295), "4294967295");
    assert_eq!(i32_string(0), "0");
    assert_eq!(i32_string(-5), "-5");
    assert_eq!(i32_string(-32768), "-32768");
    assert_eq!(i32_string(32767), "32767");
    assert_eq!(i32_string(i32::MIN), "-2147483648");
}
