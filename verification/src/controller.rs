//! The quiz controller: the state machine that owns the session state,
//! consumes events in arrival order, and decides what to render and what
//! to transmit. Its transition relation is a spec function, `step`, and
//! the executable controller is proved to follow it.

use vstd::prelude::*;
use vstd::string::*;
use crate::event::{DeviceEvent, EventView, event_wf};
use crate::text::{split_on, split_str, str_eq, views_of};

verus! {

/// One synchronous, best-effort call to the display collaborator.
#[derive(Debug, Clone, PartialEq, Eq)]
pub enum DisplayCommand {
    /// Reset every pixel.
    Clear,
    /// Turn the backlight on.
    PowerOn,
    /// Turn the backlight off.
    PowerOff,
    /// Refresh the battery indicator; `None` shows "charging".
    DrawBattery { level: Option<u8> },
    /// Draw the question text.
    DrawQuestion { text: String },
    /// Draw the four answer options with the cursor on `selected`.
    DrawOptions { options: Vec<String>, selected: u8 },
    /// Draw free-form status text.
    DrawText { text: String },
}

/// The mathematical value of a display command.
#[verifier::ext_equal]
pub enum CommandView {
    Clear,
    PowerOn,
    PowerOff,
    DrawBattery { level: Option<u8> },
    DrawQuestion { text: Seq<char> },
    DrawOptions { options: Seq<Seq<char>>, selected: u8 },
    DrawText { text: Seq<char> },
}

impl View for DisplayCommand {
    type V = CommandView;

    open spec fn view(&self) -> CommandView {
        match self {
            DisplayCommand::Clear => CommandView::Clear,
            DisplayCommand::PowerOn => CommandView::PowerOn,
            DisplayCommand::PowerOff => CommandView::PowerOff,
            DisplayCommand::DrawBattery { level } => CommandView::DrawBattery { level: *level },
            DisplayCommand::DrawQuestion { text } => CommandView::DrawQuestion { text: text@ },
            DisplayCommand::DrawOptions { options, selected } => CommandView::DrawOptions {
                options: views_of(options@),
                selected: *selected,
            },
            DisplayCommand::DrawText { text } => CommandView::DrawText { text: text@ },
        }
    }
}

/// The views of a sequence of display commands.
pub open spec fn command_views(s: Seq<DisplayCommand>) -> Seq<CommandView> {
    s.map_values(|c: DisplayCommand| c@)
}

/// What one controller step asks of the outside world: display calls, in
/// order, and at most one payload to publish on the answer topic.
#[derive(Debug, Clone, PartialEq, Eq)]
pub struct Effects {
    pub display: Vec<DisplayCommand>,
    pub publish: Option<String>,
}

/// The mathematical value of a step's effects.
#[verifier::ext_equal]
pub struct EffectsView {
    pub display: Seq<CommandView>,
    pub publish: Option<Seq<char>>,
}

impl View for Effects {
    type V = EffectsView;

    open spec fn view(&self) -> EffectsView {
        EffectsView {
            display: command_views(self.display@),
            publish: match self.publish {
                Some(p) => Some(p@),
                None => None,
            },
        }
    }
}

/// The error a controller step can report: a question payload with fewer
/// than six pipe-delimited fields is a protocol violation.
#[derive(Debug, Clone, PartialEq, Eq)]
pub enum QuizError {
    MalformedQuestion,
}

/// The session state the controller owns. `question_id` empty means no
/// quiz is active; that emptiness is the authoritative idle flag.
pub struct QuizController {
    /// This device's stable hardware identifier.
    pub device_id: String,
    /// The active question's id; empty when idle.
    pub question_id: String,
    /// The active question's text.
    pub question_text: String,
    /// The four answer options; empty until the first question arrives.
    pub options: Vec<String>,
    /// The cursor, in `[0, 4)`; persists across questions.
    pub selection: u8,
    /// Last known battery level; a placeholder until the first sample.
    pub battery_level: Option<u8>,
}

/// The mathematical value of the session state.
#[verifier::ext_equal]
pub struct SessionView {
    pub device_id: Seq<char>,
    pub question_id: Seq<char>,
    pub question_text: Seq<char>,
    pub options: Seq<Seq<char>>,
    pub selection: u8,
    pub battery_level: Option<u8>,
}

impl View for QuizController {
    type V = SessionView;

    open spec fn view(&self) -> SessionView {
        SessionView {
            device_id: self.device_id@,
            question_id: self.question_id@,
            question_text: self.question_text@,
            options: views_of(self.options@),
            selection: self.selection,
            battery_level: self.battery_level,
        }
    }
}

impl SessionView {
    /// No quiz is active.
    pub open spec fn idle(self) -> bool {
        self.question_id.len() == 0
    }

    /// Session-state invariant: the cursor is on one of the four options,
    /// and an active question always has its four options stored.
    pub open spec fn wf(self) -> bool {
        &&& self.selection < 4
        &&& !self.idle() ==> self.options.len() == 4
    }

    /// The session right after startup: idle, cursor on the first option,
    /// battery at its placeholder level.
    pub open spec fn init(device_id: Seq<char>) -> SessionView {
        SessionView {
            device_id: device_id,
            question_id: Seq::empty(),
            question_text: Seq::empty(),
            options: Seq::empty(),
            selection: 0,
            battery_level: Some(0u8),
        }
    }
}

/// The character a selection index is written as in the answer payload.
pub open spec fn digit_char(d: u8) -> char {
    if d == 0 {
        '0'
    } else if d == 1 {
        '1'
    } else if d == 2 {
        '2'
    } else {
        '3'
    }
}

/// The payload published when an answer is confirmed:
/// `{device_id}|{question_id}|{selection}`.
pub open spec fn answer_payload(device_id: Seq<char>, question_id: Seq<char>, selection: u8) -> Seq<
    char,
> {
    device_id + seq!['|'] + question_id + seq!['|'] + seq![digit_char(selection)]
}

/// What one controller step yields: the next session state, the effects,
/// and whether the event was a malformed question (in which case the state
/// is unchanged and there are no effects).
#[verifier::ext_equal]
pub struct StepResult {
    pub state: SessionView,
    pub effects: EffectsView,
    pub malformed: bool,
}

/// Effects that draw the given commands and publish nothing.
pub open spec fn draw_only(display: Seq<CommandView>) -> EffectsView {
    EffectsView { display: display, publish: None }
}

/// The controller's transition relation: how one event moves the session
/// state, and what it renders and transmits. The executable controller is
/// proved to follow this function exactly.
pub open spec fn step(s: SessionView, ev: EventView) -> StepResult {
    match ev {
        EventView::Sleep => StepResult {
            state: SessionView { question_id: Seq::empty(), ..s },
            effects: draw_only(
                seq![
                    CommandView::Clear,
                    CommandView::DrawBattery { level: s.battery_level },
                    CommandView::PowerOff,
                ],
            ),
            malformed: false,
        },
        EventView::Question { data } => {
            let parts = split_on(data, '|');
            if parts.len() < 6 {
                StepResult { state: s, effects: draw_only(Seq::empty()), malformed: true }
            } else {
                StepResult {
                    state: SessionView {
                        question_id: parts[0],
                        question_text: parts[1],
                        options: seq![parts[2], parts[3], parts[4], parts[5]],
                        ..s
                    },
                    effects: draw_only(
                        seq![
                            CommandView::Clear,
                            CommandView::DrawBattery { level: s.battery_level },
                            CommandView::PowerOn,
                            CommandView::DrawQuestion { text: parts[1] },
                            CommandView::DrawOptions {
                                options: seq![parts[2], parts[3], parts[4], parts[5]],
                                selected: s.selection,
                            },
                        ],
                    ),
                    malformed: false,
                }
            }
        },
        EventView::Winner { data } => StepResult {
            state: s,
            effects: draw_only(
                if data == s.device_id {
                    seq![
                        CommandView::Clear,
                        CommandView::DrawBattery { level: s.battery_level },
                        CommandView::PowerOn,
                        CommandView::DrawText { text: "You won!\n"@ + s.device_id },
                    ]
                } else {
                    Seq::empty()
                },
            ),
            malformed: false,
        },
        EventView::Select { data } => StepResult {
            state: SessionView { selection: data, ..s },
            effects: draw_only(
                if s.idle() {
                    seq![CommandView::PowerOn, CommandView::PowerOff]
                } else {
                    seq![
                        CommandView::DrawOptions { options: s.options, selected: data },
                    ]
                },
            ),
            malformed: false,
        },
        EventView::Enter { data } => {
            if s.idle() {
                StepResult {
                    state: s,
                    effects: draw_only(seq![CommandView::PowerOn, CommandView::PowerOff]),
                    malformed: false,
                }
            } else {
                StepResult {
                    state: SessionView { question_id: Seq::empty(), ..s },
                    effects: EffectsView {
                        display: seq![
                            CommandView::Clear,
                            CommandView::DrawBattery { level: s.battery_level },
                            CommandView::DrawText { text: "Answer sent!"@ },
                        ],
                        publish: Some(answer_payload(s.device_id, s.question_id, data)),
                    },
                    malformed: false,
                }
            }
        },
        EventView::BatteryLevel { data } => StepResult {
            state: SessionView { battery_level: data, ..s },
            effects: draw_only(seq![CommandView::DrawBattery { level: data }]),
            malformed: false,
        },
    }
}

/// Law: select and confirm events delivered while no question is active
/// never publish and never change the stored options.
pub proof fn lemma_idle_guard(s: SessionView, ev: EventView)
    requires
        s.idle(),
        (ev matches EventView::Select { .. }) || (ev matches EventView::Enter { .. }),
    ensures
        step(s, ev).effects.publish is None,
        step(s, ev).state.options == s.options,
        !step(s, ev).malformed,
{
}

/// Law: a winner announcement naming another device changes no session
/// state, draws nothing and publishes nothing.
pub proof fn lemma_winner_filter(s: SessionView, data: Seq<char>)
    requires
        data != s.device_id,
    ensures
        step(s, EventView::Winner { data }).state == s,
        step(s, EventView::Winner { data }).effects.display.len() == 0,
        step(s, EventView::Winner { data }).effects.publish is None,
{
}

/// Law: a sleep received while already idle leaves the session state
/// unchanged.
pub proof fn lemma_sleep_idempotent(s: SessionView)
    requires
        s.idle(),
    ensures
        step(s, EventView::Sleep).state =~~= s,
{
}

/// The one-character string a selection index is written as.
fn selection_digit(d: u8) -> (r: &'static str)
    requires
        d < 4,
    ensures
        r@ =~= seq![digit_char(d)],
{
    proof {
        reveal_strlit("0");
        reveal_strlit("1");
        reveal_strlit("2");
        reveal_strlit("3");
    }
    if d == 0 {
        "0"
    } else if d == 1 {
        "1"
    } else if d == 2 {
        "2"
    } else {
        "3"
    }
}

impl QuizController {
    /// A fresh controller for the device with the given identifier: idle,
    /// cursor on the first option, battery at its placeholder level.
    pub fn new(device_id: String) -> (c: QuizController)
        ensures
            c@ =~~= SessionView::init(device_id@),
            c@.wf(),
    {
        QuizController {
            device_id,
            question_id: String::new(),
            question_text: String::new(),
            options: Vec::new(),
            selection: 0,
            battery_level: Some(0u8),
        }
    }

    /// Consumes one event: updates the session state and returns the
    /// display calls and the publish, exactly as `step` prescribes. A
    /// question payload with fewer than six fields is rejected with the
    /// state unchanged.
    pub fn handle_event(&mut self, event: DeviceEvent) -> (r: Result<Effects, QuizError>)
        requires
            old(self)@.wf(),
            event_wf(event@),
        ensures
            final(self)@.wf(),
            step(old(self)@, event@).malformed ==> r == Err::<Effects, QuizError>(
                QuizError::MalformedQuestion,
            ) && final(self)@ =~~= old(self)@,
            !step(old(self)@, event@).malformed ==> (match r {
                Ok(effects) => effects@ =~~= step(old(self)@, event@).effects && final(self)@
                    =~~= step(old(self)@, event@).state,
                Err(_) => false,
            }),
    {
        match event {
            DeviceEvent::Sleep => {
                let mut display: Vec<DisplayCommand> = Vec::new();
                display.push(DisplayCommand::Clear);
                display.push(DisplayCommand::DrawBattery { level: self.battery_level });
                display.push(DisplayCommand::PowerOff);
                self.question_id = String::new();
                Ok(Effects { display, publish: None })
            },
            DeviceEvent::Question { data } => {
                let parts = split_str(data.as_str(), '|');
                if parts.len() < 6 {
                    return Err(QuizError::MalformedQuestion);
                }
                let mut display: Vec<DisplayCommand> = Vec::new();
                display.push(DisplayCommand::Clear);
                display.push(DisplayCommand::DrawBattery { level: self.battery_level });
                display.push(DisplayCommand::PowerOn);
                self.question_id = parts[0].clone();
                self.question_text = parts[1].clone();
                let mut options: Vec<String> = Vec::new();
                options.push(parts[2].clone());
                options.push(parts[3].clone());
                options.push(parts[4].clone());
                options.push(parts[5].clone());
                self.options = options;
                display.push(DisplayCommand::DrawQuestion { text: self.question_text.clone() });
                let shown = self.options.clone();
                proof {
                    assert(shown@ =~= self.options@);
                }
                display.push(
                    DisplayCommand::DrawOptions { options: shown, selected: self.selection },
                );
                Ok(Effects { display, publish: None })
            },
            DeviceEvent::Winner { data } => {
                if str_eq(data.as_str(), self.device_id.as_str()) {
                    let mut display: Vec<DisplayCommand> = Vec::new();
                    display.push(DisplayCommand::Clear);
                    display.push(DisplayCommand::DrawBattery { level: self.battery_level });
                    display.push(DisplayCommand::PowerOn);
                    let mut text = String::from_str("You won!\n");
                    text.append(self.device_id.as_str());
                    display.push(DisplayCommand::DrawText { text });
                    Ok(Effects { display, publish: None })
                } else {
                    Ok(Effects { display: Vec::new(), publish: None })
                }
            },
            DeviceEvent::Select { data } => {
                self.selection = data;
                let mut display: Vec<DisplayCommand> = Vec::new();
                if self.question_id.as_str().is_empty() {
                    display.push(DisplayCommand::PowerOn);
                    display.push(DisplayCommand::PowerOff);
                } else {
                    let shown = self.options.clone();
                    proof {
                        assert(shown@ =~= self.options@);
                    }
                    display.push(
                        DisplayCommand::DrawOptions { options: shown, selected: self.selection },
                    );
                }
                Ok(Effects { display, publish: None })
            },
            DeviceEvent::Enter { data } => {
                let mut display: Vec<DisplayCommand> = Vec::new();
                if self.question_id.as_str().is_empty() {
                    display.push(DisplayCommand::PowerOn);
                    display.push(DisplayCommand::PowerOff);
                    return Ok(Effects { display, publish: None });
                }
                let mut payload = self.device_id.clone();
                payload.append("|");
                payload.append(self.question_id.as_str());
                payload.append("|");
                payload.append(selection_digit(data));
                proof {
                    reveal_strlit("|");
                    assert(payload@ =~= answer_payload(
                        self.device_id@,
                        self.question_id@,
                        data,
                    ));
                }
                display.push(DisplayCommand::Clear);
                display.push(DisplayCommand::DrawBattery { level: self.battery_level });
                display.push(DisplayCommand::DrawText { text: String::from_str("Answer sent!") });
                self.question_id = String::new();
                Ok(Effects { display, publish: Some(payload) })
            },
            DeviceEvent::BatteryLevel { data } => {
                self.battery_level = data;
                let mut display: Vec<DisplayCommand> = Vec::new();
                display.push(DisplayCommand::DrawBattery { level: data });
                Ok(Effects { display, publish: None })
            },
        }
    }
}

} // verus!
