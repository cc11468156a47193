use quiz_terminal::controller::{DisplayCommand, QuizController, QuizError};
use quiz_terminal::event::DeviceEvent;

fn controller() -> QuizController {
    QuizController::new(String::from("AA:BB:CC:DD:EE:FF"))
}

fn question(payload: &str) -> DeviceEvent {
    DeviceEvent::Question {
        data: String::from(payload),
    }
}

#[test]
fn question_parse_round_trip() {
    let mut c = controller();
    let effects = c
        .handle_event(question("Q1|What is 2+2?|3|4|5|6"))
        .expect("well-formed question");
    assert_eq!(c.question_id, "Q1");
    assert_eq!(c.question_text, "What is 2+2?");
    assert_eq!(c.options, vec!["3", "4", "5", "6"]);
    assert_eq!(effects.publish, None);
    assert_eq!(
        effects.display,
        vec![
            DisplayCommand::Clear,
            DisplayCommand::DrawBattery { level: Some(0) },
            DisplayCommand::PowerOn,
            DisplayCommand::DrawQuestion {
                text: String::from("What is 2+2?")
            },
            DisplayCommand::DrawOptions {
                options: vec![
                    String::from("3"),
                    String::from("4"),
                    String::from("5"),
                    String::from("6"),
                ],
                selected: 0,
            },
        ]
    );
}

#[test]
fn extra_fields_are_ignored() {
    let mut c = controller();
    c.handle_event(question("Q2|t|a|b|c|d|extra"))
        .expect("six or more fields parse");
    assert_eq!(c.question_id, "Q2");
    assert_eq!(c.options, vec!["a", "b", "c", "d"]);
}

#[test]
fn short_question_is_a_protocol_violation() {
    let mut c = controller();
    let result = c.handle_event(question("Q1|only|three"));
    assert_eq!(result, Err(QuizError::MalformedQuestion));
    assert_eq!(c.question_id, "");
    assert_eq!(c.options, Vec::<String>::new());
}

#[test]
fn answer_payload_construction() {
    let mut c = controller();
    c.handle_event(question("Q1|What is 2+2?|3|4|5|6"))
        .expect("well-formed question");
    c.handle_event(DeviceEvent::Select { data: 2 })
        .expect("select never fails");
    let effects = c
        .handle_event(DeviceEvent::Enter { data: 2 })
        .expect("enter never fails");
    assert_eq!(
        effects.publish,
        Some(String::from("AA:BB:CC:DD:EE:FF|Q1|2"))
    );
    // Confirming the answer ends the active question.
    assert_eq!(c.question_id, "");
    assert_eq!(
        effects.display,
        vec![
            DisplayCommand::Clear,
            DisplayCommand::DrawBattery { level: Some(0) },
            DisplayCommand::DrawText {
                text: String::from("Answer sent!")
            },
        ]
    );
}

#[test]
fn idle_select_and_enter_do_not_publish() {
    let mut c = controller();
    let select = c
        .handle_event(DeviceEvent::Select { data: 3 })
        .expect("select never fails");
    assert_eq!(select.publish, None);
    // An idle interaction only flashes the backlight.
    assert_eq!(
        select.display,
        vec![DisplayCommand::PowerOn, DisplayCommand::PowerOff]
    );
    // The cursor still moves; the options stay untouched.
    assert_eq!(c.selection, 3);
    assert_eq!(c.options, Vec::<String>::new());

    let enter = c
        .handle_event(DeviceEvent::Enter { data: 3 })
        .expect("enter never fails");
    assert_eq!(enter.publish, None);
    assert_eq!(
        enter.display,
        vec![DisplayCommand::PowerOn, DisplayCommand::PowerOff]
    );
    assert_eq!(c.options, Vec::<String>::new());
}

#[test]
fn winner_filter_ignores_other_devices() {
    let mut c = controller();
    let effects = c
        .handle_event(DeviceEvent::Winner {
            data: String::from("11:22:33:44:55:66"),
        })
        .expect("winner never fails");
    assert_eq!(effects.display, Vec::<DisplayCommand>::new());
    assert_eq!(effects.publish, None);
    assert_eq!(c.question_id, "");
    assert_eq!(c.selection, 0);
}

#[test]
fn winner_match_shows_the_win_screen() {
    let mut c = controller();
    let effects = c
        .handle_event(DeviceEvent::Winner {
            data: String::from("AA:BB:CC:DD:EE:FF"),
        })
        .expect("winner never fails");
    assert_eq!(
        effects.display,
        vec![
            DisplayCommand::Clear,
            DisplayCommand::DrawBattery { level: Some(0) },
            DisplayCommand::PowerOn,
            DisplayCommand::DrawText {
                text: String::from("You won!\nAA:BB:CC:DD:EE:FF")
            },
        ]
    );
}

#[test]
fn sleep_while_idle_changes_nothing() {
    let mut c = controller();
    c.handle_event(DeviceEvent::BatteryLevel { data: Some(70) })
        .expect("battery never fails");
    let effects = c.handle_event(DeviceEvent::Sleep).expect("sleep never fails");
    assert_eq!(c.question_id, "");
    assert_eq!(c.question_text, "");
    assert_eq!(c.options, Vec::<String>::new());
    assert_eq!(c.selection, 0);
    assert_eq!(c.battery_level, Some(70));
    assert_eq!(
        effects.display,
        vec![
            DisplayCommand::Clear,
            DisplayCommand::DrawBattery { level: Some(70) },
            DisplayCommand::PowerOff,
        ]
    );
}

#[test]
fn sleep_ends_an_active_question() {
    let mut c = controller();
    c.handle_event(question("Q1|What is 2+2?|3|4|5|6"))
        .expect("well-formed question");
    c.handle_event(DeviceEvent::Sleep).expect("sleep never fails");
    assert_eq!(c.question_id, "");
    // The rest of the session survives; only the active question ends.
    assert_eq!(c.question_text, "What is 2+2?");
    assert_eq!(c.options, vec!["3", "4", "5", "6"]);
}

#[test]
fn selection_redraws_options_while_active() {
    let mut c = controller();
    c.handle_event(question("Q1|What is 2+2?|3|4|5|6"))
        .expect("well-formed question");
    let effects = c
        .handle_event(DeviceEvent::Select { data: 1 })
        .expect("select never fails");
    assert_eq!(
        effects.display,
        vec![DisplayCommand::DrawOptions {
            options: vec![
                String::from("3"),
                String::from("4"),
                String::from("5"),
                String::from("6"),
            ],
            selected: 1,
        }]
    );
}

#[test]
fn battery_event_updates_the_indicator() {
    let mut c = controller();
    let known = c
        .handle_event(DeviceEvent::BatteryLevel { data: Some(42) })
        .expect("battery never fails");
    assert_eq!(c.battery_level, Some(42));
    assert_eq!(
        known.display,
        vec![DisplayCommand::DrawBattery { level: Some(42) }]
    );
    let charging = c
        .handle_event(DeviceEvent::BatteryLevel { data: None })
        .expect("battery never fails");
    assert_eq!(c.battery_level, None);
    assert_eq!(
        charging.display,
        vec![DisplayCommand::DrawBattery { level: None }]
    );
}
