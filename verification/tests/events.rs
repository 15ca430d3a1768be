use howl::event::{get_x_lparam, get_y_lparam, hiword, loword, Event, WindowEventHandler};
use howl::platform::Handle;

/// Writes down every callback it gets, with its arguments.
#[derive(Default)]
struct Recorder {
    seen: Vec<String>,
}

impl WindowEventHandler for Recorder {
    fn on_command(&mut self, source_id: u16, command_type: u16) {
        self.seen.push(format!("command {} {}", source_id, command_type));
    }

    fn on_size(&mut self, width: u16, height: u16) {
        self.seen.push(format!("size {} {}", width, height));
    }

    fn on_move(&mut self, x: i32, y: i32) {
        self.seen.push(format!("move {} {}", x, y));
    }

    fn on_mouse_move(&mut self, x: i32, y: i32) {
        self.seen.push(format!("mouse move {} {}", x, y));
    }

    fn on_right_mouse_down(&mut self, x: i32, y: i32) {
        self.seen.push(format!("right down {} {}", x, y));
    }

    fn on_right_mouse_up(&mut self, x: i32, y: i32) {
        self.seen.push(format!("right up {} {}", x, y));
    }

    fn on_left_mouse_down(&mut self, x: i32, y: i32) {
        self.seen.push(format!("left down {} {}", x, y));
    }

    fn on_left_mouse_up(&mut self, x: i32, y: i32) {
        self.seen.push(format!("left up {} {}", x, y));
    }

    fn on_close(&mut self) {
        self.seen.push("close".to_string());
    }

    fn on_destroy(&mut self) {
        self.seen.push("destroy".to_string());
    }

    fn on_timer(&mut self, window: Handle, id: usize) {
        self.seen.push(format!("timer {} {}", window.raw(), id));
    }
}

/// Overrides nothing.
struct Indifferent;

impl WindowEventHandler for Indifferent {}

fn window() -> Handle {
    Handle::new(0x2A).unwrap()
}

#[test]
fn words_of_a_double_word() {
    assert_eq!(loword(0x1234_5678), 0x5678);
    assert_eq!(hiword(0x1234_5678), 0x1234);
    assert_eq!(loword(0), 0);
    assert_eq!(hiword(0xFFFF_0000), 0xFFFF);
    assert_eq!(loword(0xFFFF_0000), 0);
}

#[test]
fn coordinates_are_signed_words() {
    assert_eq!(get_x_lparam(0x0014_000A), 10);
    assert_eq!(get_y_lparam(0x0014_000A), 20);
    assert_eq!(get_x_lparam(0x0000_FFFF), -1);
    assert_eq!(get_y_lparam(0xFFFE_0000), -2);
    assert_eq!(get_x_lparam(0x0000_8000), -32768);
    assert_eq!(get_x_lparam(0x0000_7FFF), 32767);
    assert_eq!(get_x_lparam(-1), -1);
    assert_eq!(get_y_lparam(-1), -1);
    assert_eq!(get_x_lparam(-65536), 0);
    assert_eq!(get_y_lparam(-65536), -1);
}

#[test]
fn coordinates_ignore_the_bits_above_the_low_32() {
    if isize::BITS == 64 {
        let high = 0x7654_3210_isize << 32;
        assert_eq!(get_x_lparam(high | 0x0014_000A), 10);
        assert_eq!(get_y_lparam(high | 0x0014_000A), 20);
        assert_eq!(get_x_lparam(isize::MIN), 0);
        assert_eq!(get_y_lparam(isize::MIN | 0x7FFF_0000), 32767);
    }
}

#[test]
fn size_is_decoded_from_the_second_parameter() {
    assert_eq!(
        Event::decode(0x0005, 99, 0x0190_00C8),
        Some(Event::Size { width: 200, height: 400 })
    );
    assert_eq!(
        Event::decode(0x0005, 0, 0xFFFF_FFFF),
        Some(Event::Size { width: 0xFFFF, height: 0xFFFF })
    );
}

#[test]
fn command_is_decoded_from_the_first_parameter() {
    assert_eq!(
        Event::decode(0x0111, 0x0003_000A, 77),
        Some(Event::Command { source_id: 10, command_type: 3 })
    );
}

#[test]
fn mouse_and_move_messages_carry_signed_coordinates() {
    let l_param = 0xFFF6_0005;
    assert_eq!(Event::decode(0x0200, 1, l_param), Some(Event::MouseMove { x: 5, y: -10 }));
    assert_eq!(Event::decode(0x0201, 1, l_param), Some(Event::LeftMouseDown { x: 5, y: -10 }));
    assert_eq!(Event::decode(0x0202, 1, l_param), Some(Event::LeftMouseUp { x: 5, y: -10 }));
    assert_eq!(Event::decode(0x0204, 1, l_param), Some(Event::RightMouseDown { x: 5, y: -10 }));
    assert_eq!(Event::decode(0x0205, 1, l_param), Some(Event::RightMouseUp { x: 5, y: -10 }));
    assert_eq!(Event::decode(0x0003, 1, l_param), Some(Event::Move { x: 5, y: -10 }));
}

#[test]
fn close_and_destroy_carry_nothing() {
    assert_eq!(Event::decode(0x0010, 5, 6), Some(Event::Close));
    assert_eq!(Event::decode(0x0002, 5, 6), Some(Event::Destroy));
}

#[test]
fn other_messages_stand_for_no_event() {
    for message in [0u32, 1, 4, 6, 0x000F, 0x0011, 0x0110, 0x0112, 0x0113, 0x0203, 0x0206, u32::MAX] {
        assert_eq!(Event::decode(message, 1, 2), None);
    }
}

#[test]
fn every_event_reaches_its_own_callback() {
    let mut recorder = Recorder::default();
    let window = window();
    assert!(recorder.on_event(window, 0x0005, 0, 0x0190_00C8));
    assert!(recorder.on_event(window, 0x0111, 0x0003_000A, 0));
    assert!(recorder.on_event(window, 0x0200, 0, 0x0002_0001));
    assert!(recorder.on_event(window, 0x0204, 0, 0x0004_0003));
    assert!(recorder.on_event(window, 0x0205, 0, 0x0006_0005));
    assert!(recorder.on_event(window, 0x0201, 0, 0x0008_0007));
    assert!(recorder.on_event(window, 0x0202, 0, 0x000A_0009));
    assert!(recorder.on_event(window, 0x0003, 0, 0xFFFF_FFFE));
    assert!(recorder.on_event(window, 0x0010, 0, 0));
    assert!(recorder.on_event(window, 0x0002, 0, 0));
    assert_eq!(
        recorder.seen,
        vec![
            "size 200 400",
            "command 10 3",
            "mouse move 1 2",
            "right down 3 4",
            "right up 5 6",
            "left down 7 8",
            "left up 9 10",
            "move -2 -1",
            "close",
            "destroy",
        ]
    );
}

#[test]
fn a_message_that_is_no_event_is_not_handled() {
    let mut recorder = Recorder::default();
    assert!(!recorder.on_event(window(), 0x0113, 1, 2));
    assert!(!recorder.on_event(window(), 0x000F, 0, 0));
    assert!(recorder.seen.is_empty());
}

#[test]
fn deliver_calls_the_callback_of_the_event() {
    let mut recorder = Recorder::default();
    recorder.deliver(Event::Timer { window: window(), id: 3 });
    recorder.deliver(Event::Size { width: 1, height: 2 });
    assert_eq!(recorder.seen, vec!["timer 42 3", "size 1 2"]);
}

#[test]
fn a_handler_that_overrides_nothing_still_handles_events() {
    let mut handler = Indifferent;
    assert!(handler.on_event(window(), 0x0010, 0, 0));
    assert!(handler.on_event(window(), 0x0005, 0, 0));
    assert!(!handler.on_event(window(), 0x0113, 0, 0));
}
