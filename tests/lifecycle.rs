use chardev::device::{dispatch_read, dispatch_write, DeviceKind};
use chardev::error::Error;
use chardev::lifecycle::{step, Action, Event, ModuleState, MAX_MINORS};

fn load(name: &str, kind: DeviceKind, minors: usize) -> Event {
    Event::Load { name: name.to_string(), kind, minors }
}

#[test]
fn two_minors_one_handler() {
    let (s, a) = step(ModuleState::new(), load("rs_hello", DeviceKind::Hello, 2));
    assert_eq!(a, Action::Bind { minor: 0, kind: DeviceKind::Hello });
    let (s, a) = step(s, Event::Granted);
    assert_eq!(a, Action::Bind { minor: 1, kind: DeviceKind::Hello });
    let (s, a) = step(s, Event::Granted);
    assert_eq!(a, Action::Ready);
    assert!(s.is_registered());
    let reg = s.registration().unwrap();
    assert_eq!(reg.name, "rs_hello");
    assert!(reg.is_complete());
    let k0 = reg.handler(0).unwrap();
    let k1 = reg.handler(1).unwrap();
    assert_eq!(k0, DeviceKind::Hello);
    assert_eq!(k0, k1);
    assert_eq!(reg.handler(2), None);
    for o in 0..16u64 {
        assert_eq!(dispatch_read(k0, o, 8), dispatch_read(k1, o, 8));
    }
    assert_eq!(dispatch_write(k0, &[1], 0), dispatch_write(k1, &[1], 0));
}

#[test]
fn single_minor_null_device() {
    let (s, a) = step(ModuleState::new(), load("rs_null", DeviceKind::Null, 1));
    assert_eq!(a, Action::Bind { minor: 0, kind: DeviceKind::Null });
    assert!(!s.is_registered());
    let (s, a) = step(s, Event::Granted);
    assert_eq!(a, Action::Ready);
    assert!(s.is_registered());
    assert_eq!(s.registration().unwrap().handler(0), Some(DeviceKind::Null));
    let (s, a) = step(s, Event::Unload);
    assert_eq!(a, Action::Release { release: 1 });
    assert!(matches!(s, ModuleState::Unregistered));
}

#[test]
fn refusal_of_first_minor_aborts() {
    let (s, _) = step(ModuleState::new(), load("taken", DeviceKind::Null, 1));
    let (s, a) = step(s, Event::Refused);
    assert_eq!(a, Action::Abort { release: 0, error: Error::RegistrationFailure });
    assert!(matches!(s, ModuleState::Unregistered));
    assert!(s.registration().is_none());
}

#[test]
fn refusal_of_second_minor_releases_first() {
    let (s, _) = step(ModuleState::new(), load("rs_hello", DeviceKind::Hello, 2));
    let (s, _) = step(s, Event::Granted);
    assert_eq!(s.registration().unwrap().handler(0), Some(DeviceKind::Hello));
    let (s, a) = step(s, Event::Refused);
    assert_eq!(a, Action::Abort { release: 1, error: Error::RegistrationFailure });
    assert!(matches!(s, ModuleState::Unregistered));
}

#[test]
fn bad_minor_count_is_refused() {
    let (s, a) = step(ModuleState::new(), load("none", DeviceKind::Null, 0));
    assert_eq!(a, Action::Abort { release: 0, error: Error::RegistrationFailure });
    assert!(matches!(s, ModuleState::Unregistered));
    let (s, a) = step(ModuleState::new(), load("many", DeviceKind::Null, MAX_MINORS + 1));
    assert_eq!(a, Action::Abort { release: 0, error: Error::RegistrationFailure });
    assert!(matches!(s, ModuleState::Unregistered));
}

#[test]
fn unload_releases_every_minor() {
    let (s, _) = step(ModuleState::new(), load("rs_hello", DeviceKind::Hello, 2));
    let (s, _) = step(s, Event::Granted);
    let (s, _) = step(s, Event::Granted);
    let (s, a) = step(s, Event::Unload);
    assert_eq!(a, Action::Release { release: 2 });
    assert!(matches!(s, ModuleState::Unregistered));
}

#[test]
fn events_out_of_place_are_ignored() {
    let (s, a) = step(ModuleState::new(), Event::Granted);
    assert_eq!(a, Action::Ignore);
    assert!(matches!(s, ModuleState::Unregistered));
    let (s, a) = step(s, Event::Unload);
    assert_eq!(a, Action::Ignore);
    let (s, _) = step(s, load("rs_null", DeviceKind::Null, 1));
    let (s, a) = step(s, Event::Unload);
    assert_eq!(a, Action::Ignore);
    assert!(matches!(s, ModuleState::Binding(_)));
    let (s, a) = step(s, load("again", DeviceKind::Hello, 1));
    assert_eq!(a, Action::Ignore);
    let (s, _) = step(s, Event::Granted);
    let (s, a) = step(s, load("again", DeviceKind::Hello, 1));
    assert_eq!(a, Action::Ignore);
    let (s, a) = step(s, Event::Refused);
    assert_eq!(a, Action::Ignore);
    assert!(s.is_registered());
}
