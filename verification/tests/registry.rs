use howl::event::WindowEventHandler;
use howl::platform::Handle;
use howl::registry::{Disposition, Registry};

/// Counts what it is told of.
#[derive(Debug, Default, PartialEq)]
struct Tally {
    name: &'static str,
    sizes: Vec<(u16, u16)>,
    closes: u32,
    destroys: u32,
    timers: Vec<(usize, usize)>,
}

impl Tally {
    fn named(name: &'static str) -> Tally {
        Tally { name, ..Tally::default() }
    }
}

impl WindowEventHandler for Tally {
    fn on_size(&mut self, width: u16, height: u16) {
        self.sizes.push((width, height));
    }

    fn on_close(&mut self) {
        self.closes += 1;
    }

    fn on_destroy(&mut self) {
        self.destroys += 1;
    }

    fn on_timer(&mut self, window: Handle, id: usize) {
        self.timers.push((window.raw(), id));
    }
}

const WM_DESTROY: u32 = 0x0002;
const WM_SIZE: u32 = 0x0005;
const WM_PAINT: u32 = 0x000F;
const WM_CLOSE: u32 = 0x0010;
const WM_TIMER: u32 = 0x0113;

fn handle(raw: usize) -> Handle {
    Handle::new(raw).unwrap()
}

#[test]
fn a_new_registry_has_no_handlers() {
    let registry: Registry<Tally> = Registry::new();
    assert!(registry.get_event_handler(handle(1)).is_none());
}

#[test]
fn a_window_without_a_handler_falls_through() {
    let mut registry: Registry<Tally> = Registry::new();
    assert_eq!(registry.wnd_proc(handle(1), WM_CLOSE, 0, 0), Disposition::Default);
    assert_eq!(registry.wnd_proc(handle(1), WM_PAINT, 0, 0), Disposition::Default);
}

#[test]
fn an_attached_handler_is_found_by_its_window() {
    let mut registry = Registry::new();
    assert!(registry.attach_event_handler(handle(1), Tally::named("one")).is_none());
    assert!(registry.attach_event_handler(handle(2), Tally::named("two")).is_none());
    assert_eq!(registry.get_event_handler(handle(1)).unwrap().name, "one");
    assert_eq!(registry.get_event_handler(handle(2)).unwrap().name, "two");
    assert!(registry.get_event_handler(handle(3)).is_none());
}

#[test]
fn attaching_again_replaces_the_handler() {
    let mut registry = Registry::new();
    registry.attach_event_handler(handle(1), Tally::named("old"));
    let replaced = registry.attach_event_handler(handle(1), Tally::named("new"));
    assert_eq!(replaced, Some(Tally::named("old")));
    assert_eq!(registry.get_event_handler(handle(1)).unwrap().name, "new");
    assert_eq!(registry.wnd_proc(handle(1), WM_CLOSE, 0, 0), Disposition::Handled);
    assert_eq!(registry.detach_event_handler(handle(1)).unwrap().closes, 1);
    assert!(registry.detach_event_handler(handle(1)).is_none());
}

#[test]
fn an_event_reaches_the_handler_of_its_window_only() {
    let mut registry = Registry::new();
    registry.attach_event_handler(handle(1), Tally::named("one"));
    registry.attach_event_handler(handle(2), Tally::named("two"));
    assert_eq!(registry.wnd_proc(handle(2), WM_SIZE, 0, 0x0190_00C8), Disposition::Handled);
    assert_eq!(registry.wnd_proc(handle(2), WM_CLOSE, 0, 0), Disposition::Handled);
    assert_eq!(registry.get_event_handler(handle(1)), Some(&Tally::named("one")));
    let two = registry.get_event_handler(handle(2)).unwrap();
    assert_eq!(two.sizes, vec![(200, 400)]);
    assert_eq!(two.closes, 1);
}

#[test]
fn a_message_that_is_no_event_falls_through_and_changes_nothing() {
    let mut registry = Registry::new();
    registry.attach_event_handler(handle(1), Tally::named("one"));
    assert_eq!(registry.wnd_proc(handle(1), WM_PAINT, 3, 4), Disposition::Default);
    assert_eq!(registry.wnd_proc(handle(1), WM_TIMER, 3, 4), Disposition::Default);
    assert_eq!(registry.get_event_handler(handle(1)), Some(&Tally::named("one")));
}

#[test]
fn detaching_hands_the_handler_back_with_its_state() {
    let mut registry = Registry::new();
    registry.attach_event_handler(handle(1), Tally::named("one"));
    registry.wnd_proc(handle(1), WM_CLOSE, 0, 0);
    registry.wnd_proc(handle(1), WM_CLOSE, 0, 0);
    let handler = registry.detach_event_handler(handle(1)).unwrap();
    assert_eq!(handler.closes, 2);
    assert!(registry.get_event_handler(handle(1)).is_none());
}

#[test]
fn after_detaching_an_event_falls_through_as_if_nothing_was_attached() {
    let mut registry = Registry::new();
    registry.attach_event_handler(handle(1), Tally::named("one"));
    registry.attach_event_handler(handle(2), Tally::named("two"));
    let detached = registry.detach_event_handler(handle(1)).unwrap();
    assert_eq!(registry.wnd_proc(handle(1), WM_CLOSE, 0, 0), Disposition::Default);
    assert_eq!(registry.wnd_proc(handle(1), WM_SIZE, 0, 0x0001_0001), Disposition::Default);
    registry.timer_proc(handle(1), WM_TIMER, 5, 0);
    assert_eq!(detached, Tally::named("one"));
    assert!(registry.get_event_handler(handle(1)).is_none());
    assert_eq!(registry.get_event_handler(handle(2)), Some(&Tally::named("two")));

    let mut untouched: Registry<Tally> = Registry::new();
    assert_eq!(untouched.wnd_proc(handle(1), WM_CLOSE, 0, 0), Disposition::Default);
}

#[test]
fn detaching_may_be_repeated() {
    let mut registry = Registry::new();
    registry.attach_event_handler(handle(1), Tally::named("one"));
    assert!(registry.detach_event_handler(handle(1)).is_some());
    assert!(registry.detach_event_handler(handle(1)).is_none());
    assert!(registry.detach_event_handler(handle(1)).is_none());
    assert!(registry.detach_event_handler(handle(9)).is_none());
}

#[test]
fn the_binding_ends_with_the_window() {
    let mut registry = Registry::new();
    registry.attach_event_handler(handle(1), Tally::named("one"));
    registry.attach_event_handler(handle(2), Tally::named("two"));
    assert_eq!(registry.wnd_proc(handle(1), WM_DESTROY, 0, 0), Disposition::Handled);
    assert!(registry.get_event_handler(handle(1)).is_none());
    assert_eq!(registry.wnd_proc(handle(1), WM_CLOSE, 0, 0), Disposition::Default);
    assert_eq!(registry.get_event_handler(handle(2)), Some(&Tally::named("two")));
}

#[test]
fn a_handle_value_that_is_used_again_starts_without_a_handler() {
    let mut registry = Registry::new();
    registry.attach_event_handler(handle(1), Tally::named("first window"));
    registry.wnd_proc(handle(1), WM_DESTROY, 0, 0);
    assert_eq!(registry.wnd_proc(handle(1), WM_SIZE, 0, 0), Disposition::Default);
    registry.attach_event_handler(handle(1), Tally::named("second window"));
    assert_eq!(registry.wnd_proc(handle(1), WM_SIZE, 0, 0x0002_0001), Disposition::Handled);
    let handler = registry.get_event_handler(handle(1)).unwrap();
    assert_eq!(handler.name, "second window");
    assert_eq!(handler.sizes, vec![(1, 2)]);
}

#[test]
fn a_timer_reaches_the_handler_of_its_window() {
    let mut registry = Registry::new();
    registry.attach_event_handler(handle(7), Tally::named("seven"));
    registry.attach_event_handler(handle(8), Tally::named("eight"));
    registry.timer_proc(handle(7), WM_TIMER, 3, 1000);
    registry.timer_proc(handle(7), WM_TIMER, 4, 2000);
    registry.timer_proc(handle(9), WM_TIMER, 5, 3000);
    assert_eq!(registry.get_event_handler(handle(7)).unwrap().timers, vec![(7, 3), (7, 4)]);
    assert_eq!(registry.get_event_handler(handle(8)), Some(&Tally::named("eight")));
    assert!(registry.get_event_handler(handle(9)).is_none());
}
