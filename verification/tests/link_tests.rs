use display_link::errors::LinkError;
use display_link::link::CallbackHandle;
use display_link::link::DisplayLink;

const HANDLE: usize = 0x7f00_1000;

fn fresh_link(display: u32) -> DisplayLink {
    DisplayLink::on_display(display, HANDLE).expect("creation with a non-null handle succeeds")
}

#[test]
fn on_display_starts_paused_without_callback() {
    let link = fresh_link(1);
    assert!(link.is_paused());
    assert!(!link.has_callback());
    assert_eq!(link.installed_context(), None);
    assert_eq!(link.display(), 1);
}

#[test]
fn on_display_rejected_display_reports_creation_failed() {
    let r = DisplayLink::on_display(7, 0);
    assert!(matches!(r, Err(LinkError::CreationFailed { display_id: 7 })));
}

#[test]
fn creation_failed_names_the_failing_display() {
    let a = match DisplayLink::on_display(3, 0) {
        Err(e) => e,
        Ok(_) => panic!("a null handle must be rejected"),
    };
    let b = match DisplayLink::on_display(4, 0) {
        Err(e) => e,
        Ok(_) => panic!("a null handle must be rejected"),
    };
    assert_eq!(a, LinkError::CreationFailed { display_id: 3 });
    assert_eq!(b, LinkError::CreationFailed { display_id: 4 });
    assert_ne!(a, b);
}

#[test]
fn resume_twice_reports_already_running() {
    let mut link = fresh_link(1);
    assert_eq!(link.resume(), Ok(()));
    assert_eq!(link.resume(), Err(LinkError::AlreadyRunning));
    assert!(!link.is_paused());
}

#[test]
fn pause_twice_reports_already_paused() {
    let mut link = fresh_link(1);
    assert_eq!(link.resume(), Ok(()));
    assert_eq!(link.pause(), Ok(()));
    assert_eq!(link.pause(), Err(LinkError::AlreadyPaused));
    assert!(link.is_paused());
}

#[test]
fn pause_on_fresh_link_reports_already_paused() {
    let mut link = fresh_link(1);
    assert_eq!(link.pause(), Err(LinkError::AlreadyPaused));
    assert!(link.is_paused());
}

#[test]
fn resume_pause_resume_toggles_each_step() {
    let mut link = fresh_link(1);
    assert_eq!(link.resume(), Ok(()));
    assert!(!link.is_paused());
    assert_eq!(link.pause(), Ok(()));
    assert!(link.is_paused());
    assert_eq!(link.resume(), Ok(()));
    assert!(!link.is_paused());
}

#[test]
fn failed_resume_leaves_link_unchanged() {
    let mut link = fresh_link(9);
    link.resume().unwrap();
    let cb = CallbackHandle::new(0x2000);
    link.set_callback(cb);
    assert_eq!(link.resume(), Err(LinkError::AlreadyRunning));
    assert!(!link.is_paused());
    assert_eq!(link.installed_context(), Some(0x2000));
    assert_eq!(link.display(), 9);
}

#[test]
fn set_callback_installs_target_and_returns_none_first() {
    let mut link = fresh_link(1);
    let cb = CallbackHandle::new(0x2000);
    let prev = link.set_callback(cb);
    assert_eq!(prev, None);
    assert!(link.has_callback());
    assert_eq!(link.installed_context(), Some(0x2000));
}

#[test]
fn replacing_callback_supersedes_old_target() {
    let mut link = fresh_link(1);
    let first = CallbackHandle::new(0x2000);
    let second = CallbackHandle::new(0x3000);
    assert_eq!(link.set_callback(first), None);
    let prev = link.set_callback(second);
    assert_eq!(prev, Some(first));
    assert_eq!(link.installed_context(), Some(0x3000));
    assert_ne!(link.installed_context(), Some(0x2000));
}

#[test]
fn replacing_callback_while_running_keeps_running() {
    let mut link = fresh_link(1);
    let first = CallbackHandle::new(0x2000);
    link.set_callback(first);
    link.resume().unwrap();
    let second = CallbackHandle::new(0x3000);
    let prev = link.set_callback(second);
    assert_eq!(prev, Some(first));
    assert!(!link.is_paused());
    assert_eq!(link.installed_context(), Some(0x3000));
}

#[test]
fn set_callback_does_not_change_pause_state() {
    let mut link = fresh_link(1);
    link.set_callback(CallbackHandle::new(0x2000));
    assert!(link.is_paused());
    link.resume().unwrap();
    link.set_callback(CallbackHandle::new(0x3000));
    assert!(!link.is_paused());
}

#[test]
fn callback_handle_keeps_its_context() {
    let cb = CallbackHandle::new(0x5500);
    assert_eq!(cb.context(), 0x5500);
}
