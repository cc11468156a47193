use quiz_terminal::controls::{Controls, ENTER_NOTIFICATION, SELECT_NOTIFICATION};
use quiz_terminal::event::DeviceEvent;

#[test]
fn four_selects_wrap_back_around() {
    let mut controls = Controls::new();
    let start = controls.selection;
    let mut seen = Vec::new();
    for _ in 0..4 {
        let previous = controls.selection;
        let event = controls.handle_notification(SELECT_NOTIFICATION);
        assert_eq!(controls.selection, (previous + 1) % 4);
        seen.push(event);
    }
    assert_eq!(controls.selection, start);
    assert_eq!(
        seen,
        vec![
            Some(DeviceEvent::Select { data: 1 }),
            Some(DeviceEvent::Select { data: 2 }),
            Some(DeviceEvent::Select { data: 3 }),
            Some(DeviceEvent::Select { data: 0 }),
        ]
    );
}

#[test]
fn enter_reports_the_current_selection() {
    let mut controls = Controls::new();
    controls.handle_notification(SELECT_NOTIFICATION);
    controls.handle_notification(SELECT_NOTIFICATION);
    let event = controls.handle_notification(ENTER_NOTIFICATION);
    assert_eq!(event, Some(DeviceEvent::Enter { data: 2 }));
    assert_eq!(controls.selection, 2);
}

#[test]
fn unknown_notifications_are_ignored() {
    let mut controls = Controls::new();
    assert_eq!(controls.handle_notification(0), None);
    assert_eq!(controls.handle_notification(7), None);
    assert_eq!(controls.selection, 0);
}
