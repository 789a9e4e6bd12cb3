use mountain::error::DeviceError;
use mountain::geometry::{ClientRect, SizeU};
use mountain::scene::Scene;
use mountain::session::{Action, Event, RenderTarget};
use mountain::shell::WindowShell;

type Shell = WindowShell<u8, u32, u32>;

const E_FAIL: i32 = 0x80004005u32 as i32;

fn paint_to_the_end(shell: &mut Shell, hwnd: isize, width: i32, height: i32) {
    assert_eq!(shell.step(hwnd, Event::Paint), Some(Action::QueryClientRect { hwnd }));
    let rect = ClientRect { left: 0, top: 0, right: width, bottom: height };
    assert!(shell.step(hwnd, Event::ClientRect(Ok(rect))).is_some());
    assert!(shell.step(hwnd, Event::RenderTarget(Ok(hwnd as u32))).is_some());
    assert!(shell.step(hwnd, Event::Brush(Ok(1))).is_some());
    assert!(shell.step(hwnd, Event::Brush(Ok(2))).is_some());
    assert_eq!(shell.step(hwnd, Event::EndDraw(Ok(()))), Some(Action::Done(Ok(()))));
}

#[test]
fn new_shell_is_empty() {
    let shell = Shell::new();
    assert_eq!(shell.len(), 0);
    assert!(!shell.contains(1));
    assert!(shell.session(1).is_none());
}

#[test]
fn created_window_has_one_fresh_session() {
    let mut shell = Shell::new();
    assert_eq!(shell.create(41, Ok(5)), Ok(()));
    assert_eq!(shell.len(), 1);
    assert!(shell.contains(41));
    let session = shell.session(41).unwrap();
    assert_eq!(session.hwnd(), 41);
    assert_eq!(*session.factory(), 5);
    assert_eq!(session.render_target(), None);
    assert_eq!(session.brush_set(), None);
    assert!(session.is_idle());
    assert!(!shell.contains(42));
}

#[test]
fn window_without_factory_gets_no_session() {
    let mut shell = Shell::new();
    shell.create(1, Ok(5)).unwrap();
    let failure = DeviceError::Other(E_FAIL);
    assert_eq!(shell.create(2, Err(failure)), Err(failure));
    assert_eq!(shell.len(), 1);
    assert!(shell.contains(1));
    assert!(!shell.contains(2));
}

#[test]
fn creating_a_window_twice_keeps_one_session() {
    let mut shell = Shell::new();
    shell.create(1, Ok(5)).unwrap();
    paint_to_the_end(&mut shell, 1, 640, 480);
    assert!(shell.session(1).unwrap().render_target().is_some());
    shell.create(1, Ok(6)).unwrap();
    assert_eq!(shell.len(), 1);
    let session = shell.session(1).unwrap();
    assert_eq!(*session.factory(), 6);
    assert_eq!(session.render_target(), None);
}

#[test]
fn destroyed_window_releases_its_session_once() {
    let mut shell = Shell::new();
    shell.create(1, Ok(5)).unwrap();
    shell.create(2, Ok(6)).unwrap();
    shell.create(3, Ok(7)).unwrap();
    let released = shell.destroy(2).unwrap();
    assert_eq!(released.hwnd(), 2);
    assert_eq!(*released.factory(), 6);
    assert_eq!(shell.len(), 2);
    assert!(shell.contains(1));
    assert!(!shell.contains(2));
    assert!(shell.contains(3));
    assert!(shell.destroy(2).is_none());
    assert_eq!(shell.len(), 2);
    assert!(shell.destroy(9).is_none());
    assert!(shell.destroy(1).is_some());
    assert!(shell.destroy(3).is_some());
    assert_eq!(shell.len(), 0);
}

#[test]
fn events_reach_the_session_of_their_window_alone() {
    let mut shell = Shell::new();
    shell.create(1, Ok(5)).unwrap();
    shell.create(2, Ok(6)).unwrap();
    paint_to_the_end(&mut shell, 2, 800, 600);
    assert_eq!(shell.len(), 2);
    assert_eq!(shell.session(1).unwrap().render_target(), None);
    assert_eq!(
        shell.session(2).unwrap().render_target(),
        Some(&RenderTarget { handle: 2, pixel_size: SizeU { width: 800, height: 600 } })
    );
    assert_eq!(
        shell.step(2, Event::Paint),
        Some(Action::Draw { scene: Scene { surface: SizeU { width: 800, height: 600 } } })
    );
    assert_eq!(shell.step(1, Event::EndDraw(Ok(()))), None);
    assert_eq!(shell.step(2, Event::EndDraw(Ok(()))), Some(Action::Done(Ok(()))));
    assert_eq!(*shell.session(1).unwrap().factory(), 5);
    assert_eq!(*shell.session(2).unwrap().factory(), 6);
}

#[test]
fn event_of_a_window_without_session_is_dropped() {
    let mut shell = Shell::new();
    assert_eq!(shell.step(1, Event::Paint), None);
    shell.create(1, Ok(5)).unwrap();
    assert_eq!(shell.step(2, Event::Paint), None);
    assert_eq!(shell.step(2, Event::Size { size: SizeU { width: 1, height: 1 } }), None);
    assert_eq!(shell.len(), 1);
    assert!(shell.session(1).unwrap().is_idle());
}

#[test]
fn stale_target_discards_the_resources_of_that_window() {
    let mut shell = Shell::new();
    shell.create(1, Ok(5)).unwrap();
    shell.create(2, Ok(6)).unwrap();
    paint_to_the_end(&mut shell, 1, 640, 480);
    paint_to_the_end(&mut shell, 2, 640, 480);
    assert!(shell.step(1, Event::Paint).is_some());
    assert_eq!(
        shell.step(1, Event::EndDraw(Err(DeviceError::RecreateTarget))),
        Some(Action::Done(Ok(())))
    );
    assert_eq!(shell.session(1).unwrap().render_target(), None);
    assert_eq!(shell.session(1).unwrap().brush_set(), None);
    assert!(shell.session(2).unwrap().render_target().is_some());
    assert!(shell.session(2).unwrap().brush_set().is_some());
}
