use macrodeck::button_machine::{
    ButtonEvent, ButtonMachine, ButtonState, DownButWaitingEvents, DownEvents, MachineError,
    Sample, StartEvents, State, UpEvents,
};
use macrodeck::config::button::Button;

const MS: u64 = 1000;

fn button_with_secondary(mode: u8) -> Button {
    let mut raw_data = [0u8; 128];
    raw_data[64] = mode;
    Button { raw_image: [0u8; 1025], raw_data }
}

fn long_press_button() -> Button {
    button_with_secondary(1)
}

fn plain_button() -> Button {
    button_with_secondary(2)
}

fn down(at_ms: u64) -> Sample {
    Sample { level: ButtonState::Down, now: at_ms * MS }
}

fn up(at_ms: u64) -> Sample {
    Sample { level: ButtonState::Up, now: at_ms * MS }
}

fn count(events: &[Option<ButtonEvent>], wanted: ButtonEvent) -> usize {
    events.iter().filter(|e| **e == Some(wanted)).count()
}

#[test]
fn released_pin_idles() {
    for button in [long_press_button(), plain_button()] {
        let mut machine = ButtonMachine::new(200);
        let events = machine.check_button(&button, &[up(0), up(1), up(500)]).unwrap();
        assert_eq!(events, vec![None]);
        assert_eq!(machine.state, State::End);
        assert_eq!(machine.data.down_at, None);
    }
}

#[test]
fn released_pin_idles_on_every_invocation() {
    let button = long_press_button();
    let mut machine = ButtonMachine::new(200);
    for round in 0..5u64 {
        let events = machine.check_button(&button, &[up(round)]).unwrap();
        assert_eq!(events, vec![None]);
        assert_eq!(count(&events, ButtonEvent::ShortDown), 0);
        assert_eq!(count(&events, ButtonEvent::LongTriggered), 0);
        assert_eq!(machine.state, State::End);
        assert_eq!(machine.data.down_at, None);
    }
}

#[test]
fn step_on_a_released_pin_keeps_the_press_timestamp() {
    let button = long_press_button();
    let mut machine = ButtonMachine::new(200);
    machine.data.down_at = Some(77);
    let events = machine.step(&button, &up(3));
    assert_eq!(events, vec![None]);
    assert_eq!(machine.state, State::End);
    assert_eq!(machine.data.down_at, Some(77));
}

#[test]
fn release_exactly_at_the_threshold_is_a_short_press() {
    let button = long_press_button();
    let mut machine = ButtonMachine::new(200);
    let samples = [down(10), down(210), up(210), up(210)];
    let events = machine.check_button(&button, &samples).unwrap();
    assert_eq!(
        events,
        vec![Some(ButtonEvent::ShortDown), Some(ButtonEvent::ShortTriggered)]
    );
    assert_eq!(machine.state, State::End);
    assert_eq!(machine.data.down_at, None);
}

#[test]
fn hold_one_unit_above_the_threshold_is_a_long_press() {
    let button = long_press_button();
    let mut machine = ButtonMachine::new(200);
    let samples = [down(10), down(211), up(211), up(211)];
    let events = machine.check_button(&button, &samples).unwrap();
    assert_eq!(events, vec![Some(ButtonEvent::LongTriggered)]);
    assert_eq!(machine.state, State::End);
}

#[test]
fn deciders_compare_strictly() {
    let button = long_press_button();
    let mut machine = ButtonMachine::new(200);
    machine.data.down_at = Some(0);
    assert_eq!(machine.down(&button, &down(200)), DownEvents::StillDown);
    assert_eq!(machine.down(&button, &up(200)), DownEvents::AnyUp);
    assert_eq!(machine.down(&button, &down(201)), DownEvents::HeldLong);
    assert_eq!(machine.down(&button, &up(201)), DownEvents::HeldLong);
    assert_eq!(machine.up(&button, &up(200)), UpEvents::ShortHeld);
    assert_eq!(machine.up(&button, &up(201)), UpEvents::UpAfterLong);
    let within = Sample { level: ButtonState::Down, now: 200_999 };
    assert_eq!(machine.down(&button, &within), DownEvents::StillDown);
}

#[test]
fn deciders_without_a_secondary_function_ignore_the_clock() {
    let button = plain_button();
    let mut machine = ButtonMachine::new(200);
    machine.data.down_at = Some(0);
    assert_eq!(machine.down(&button, &down(5000)), DownEvents::StillDown);
    assert_eq!(machine.down(&button, &up(5000)), DownEvents::AnyUp);
    assert_eq!(machine.up(&button, &up(5000)), UpEvents::ShortUp);
    assert_eq!(machine.start(&down(0)), StartEvents::IsDown);
    assert_eq!(machine.start(&up(0)), StartEvents::IsUp);
    assert_eq!(machine.down_but_waiting(&down(0)), DownButWaitingEvents::StillDown);
    assert_eq!(machine.down_but_waiting(&up(0)), DownButWaitingEvents::Released);
}

#[test]
fn long_hold_triggers_once() {
    let button = long_press_button();
    let mut machine = ButtonMachine::new(200);
    let samples = [
        down(0),
        down(50),
        down(150),
        down(250),
        down(300),
        down(900),
        up(1000),
        up(1001),
        up(1002),
    ];
    let events = machine.check_button(&button, &samples).unwrap();
    assert_eq!(events, vec![Some(ButtonEvent::LongTriggered)]);
    assert_eq!(count(&events, ButtonEvent::LongTriggered), 1);
    assert_eq!(count(&events, ButtonEvent::ShortDown), 0);
    assert_eq!(count(&events, ButtonEvent::ShortTriggered), 0);
    assert_eq!(machine.state, State::End);
    assert_eq!(machine.data.down_at, None);
}

#[test]
fn short_press_without_secondary_function() {
    let button = plain_button();
    let mut machine = ButtonMachine::new(200);
    let samples = [down(0), down(400), up(900), up(901)];
    let events = machine.check_button(&button, &samples).unwrap();
    assert_eq!(events, vec![Some(ButtonEvent::ShortDown), Some(ButtonEvent::ShortUp)]);
    assert_eq!(machine.state, State::End);
    assert_eq!(machine.data.down_at, None);
}

#[test]
fn short_down_is_told_at_the_press() {
    let button = plain_button();
    let mut machine = ButtonMachine::new(200);
    assert_eq!(machine.step(&button, &down(4)), vec![Some(ButtonEvent::ShortDown)]);
    assert_eq!(machine.state, State::Down);
    assert_eq!(machine.data.down_at, Some(4000));
    assert!(!machine.is_done());
    assert_eq!(machine.step(&button, &down(5)), vec![]);
    assert_eq!(machine.state, State::Down);
    assert_eq!(machine.step(&button, &up(6)), vec![]);
    assert_eq!(machine.state, State::Up);
    assert_eq!(machine.step(&button, &up(7)), vec![Some(ButtonEvent::ShortUp)]);
    assert_eq!(machine.state, State::End);
    assert!(machine.is_done());
    assert_eq!(machine.step(&button, &down(8)), vec![]);
    assert_eq!(machine.state, State::End);
}

#[test]
fn press_with_secondary_function_waits_for_the_release() {
    let button = long_press_button();
    let mut machine = ButtonMachine::new(200);
    assert_eq!(machine.step(&button, &down(4)), vec![]);
    assert_eq!(machine.state, State::Down);
    assert_eq!(machine.step(&button, &down(205)), vec![Some(ButtonEvent::LongTriggered)]);
    assert_eq!(machine.state, State::DownButWaiting);
    assert_eq!(machine.step(&button, &down(300)), vec![]);
    assert_eq!(machine.state, State::DownButWaiting);
    assert_eq!(machine.step(&button, &up(301)), vec![]);
    assert_eq!(machine.state, State::Up);
    assert_eq!(machine.step(&button, &up(302)), vec![]);
    assert_eq!(machine.state, State::End);
    assert_eq!(machine.data.down_at, None);
}

#[test]
fn samples_that_run_out_leave_the_invocation_open() {
    let button = long_press_button();
    let mut machine = ButtonMachine::new(200);
    let events = machine.check_button(&button, &[down(0), down(10)]).unwrap();
    assert_eq!(events, vec![]);
    assert_eq!(machine.state, State::Down);
    assert_eq!(machine.data.down_at, Some(0));
    let events = machine.check_button(&button, &[]).unwrap();
    assert_eq!(events, vec![]);
    assert_eq!(machine.state, State::Start);
    assert_eq!(machine.data.down_at, None);
}

#[test]
fn check_button_starts_over() {
    let button = plain_button();
    let mut machine = ButtonMachine::new(200);
    machine.check_button(&button, &[down(0), down(10)]).unwrap();
    assert_eq!(machine.state, State::Down);
    let events = machine.check_button(&button, &[up(20), down(30)]).unwrap();
    assert_eq!(events, vec![None]);
    assert_eq!(machine.state, State::End);
    assert_eq!(machine.data.down_at, None);
}

#[test]
fn clock_that_went_back_invalidates_the_invocation() {
    let button = long_press_button();
    let mut machine = ButtonMachine::new(200);
    let samples = [down(100), down(50), up(60)];
    assert_eq!(machine.check_button(&button, &samples), Err(MachineError::ElapsedTimeUnknown));
    assert_eq!(machine.state, State::Invalid);
    assert!(machine.is_done());
    let plain = plain_button();
    let events = machine.check_button(&plain, &[down(100), up(50), up(40)]).unwrap();
    assert_eq!(events, vec![Some(ButtonEvent::ShortDown), Some(ButtonEvent::ShortUp)]);
}

#[test]
fn failed_pin_reading_counts_as_released() {
    assert_eq!(ButtonMachine::get_button_state::<()>(Ok(true)), ButtonState::Down);
    assert_eq!(ButtonMachine::get_button_state::<()>(Ok(false)), ButtonState::Up);
    assert_eq!(ButtonMachine::get_button_state(Err("stuck")), ButtonState::Up);
    let button = long_press_button();
    let mut machine = ButtonMachine::new(200);
    let level = ButtonMachine::get_button_state(Err(()));
    let events = machine.check_button(&button, &[Sample { level, now: 0 }]).unwrap();
    assert_eq!(events, vec![None]);
}

#[test]
fn diff_since_down_is_in_milliseconds() {
    let mut machine = ButtonMachine::new(200);
    assert_eq!(machine.get_diff_since_down(5_000), None);
    machine.data.down_at = Some(2_000);
    assert_eq!(machine.get_diff_since_down(5_000), Some(3));
    assert_eq!(machine.get_diff_since_down(1_000), None);
    assert_eq!(machine.config.long_press_duration, 200);
}

#[test]
fn release_whose_time_cannot_be_told_invalidates_the_invocation() {
    let button = long_press_button();
    let mut machine = ButtonMachine::new(200);
    let samples = [down(100), up(150), up(50), up(300)];
    assert_eq!(machine.check_button(&button, &samples), Err(MachineError::ElapsedTimeUnknown));
    assert_eq!(machine.state, State::Invalid);
    assert_eq!(machine.data.down_at, Some(100_000));
    assert_eq!(machine.up(&button, &up(50)), UpEvents::Illegal);
    assert_eq!(machine.down(&button, &down(50)), DownEvents::Illegal);
    assert_eq!(machine.step(&button, &up(400)), vec![]);
    assert_eq!(machine.state, State::Invalid);
}

#[test]
fn deciders_need_a_remembered_press_for_the_long_press() {
    let button = long_press_button();
    let machine = ButtonMachine::new(200);
    assert_eq!(machine.down(&button, &down(50)), DownEvents::Illegal);
    assert_eq!(machine.up(&button, &up(50)), UpEvents::Illegal);
    let plain = plain_button();
    assert_eq!(machine.down(&plain, &down(50)), DownEvents::StillDown);
    assert_eq!(machine.up(&plain, &up(50)), UpEvents::ShortUp);
}

#[test]
fn transitions_tell_what_the_table_says() {
    let plain = plain_button();
    let long = long_press_button();
    let mut machine = ButtonMachine::new(200);
    assert_eq!(machine.leave_start(StartEvents::IsUp, &long, &up(1)), vec![None]);
    assert_eq!(machine.state, State::End);
    assert_eq!(machine.leave_start(StartEvents::IsDown, &long, &down(2)), vec![]);
    assert_eq!(machine.state, State::Down);
    assert_eq!(machine.data.down_at, Some(2000));
    assert_eq!(
        machine.leave_start(StartEvents::IsDown, &plain, &down(3)),
        vec![Some(ButtonEvent::ShortDown)]
    );
    assert_eq!(machine.data.down_at, Some(3000));
    assert_eq!(machine.leave_down(DownEvents::StillDown), vec![]);
    assert_eq!(machine.state, State::Down);
    assert_eq!(machine.leave_down(DownEvents::HeldLong), vec![Some(ButtonEvent::LongTriggered)]);
    assert_eq!(machine.state, State::DownButWaiting);
    assert_eq!(machine.leave_down_but_waiting(DownButWaitingEvents::StillDown), vec![]);
    assert_eq!(machine.state, State::DownButWaiting);
    assert_eq!(machine.leave_down_but_waiting(DownButWaitingEvents::Released), vec![]);
    assert_eq!(machine.state, State::Up);
    assert_eq!(machine.leave_down(DownEvents::AnyUp), vec![]);
    assert_eq!(machine.state, State::Up);
    assert_eq!(machine.data.down_at, Some(3000));
    assert_eq!(machine.leave_up(UpEvents::UpAfterLong), vec![]);
    assert_eq!(machine.state, State::End);
    assert_eq!(machine.data.down_at, None);
    machine.data.down_at = Some(5);
    assert_eq!(
        machine.leave_up(UpEvents::ShortHeld),
        vec![Some(ButtonEvent::ShortDown), Some(ButtonEvent::ShortTriggered)]
    );
    assert_eq!(machine.data.down_at, None);
    machine.data.down_at = Some(5);
    assert_eq!(machine.leave_up(UpEvents::ShortUp), vec![Some(ButtonEvent::ShortUp)]);
    assert_eq!(machine.data.down_at, None);
    machine.data.down_at = Some(5);
    assert_eq!(machine.leave_up(UpEvents::Illegal), vec![]);
    assert_eq!(machine.state, State::Invalid);
    assert_eq!(machine.data.down_at, Some(5));
    assert_eq!(machine.leave_down(DownEvents::Illegal), vec![]);
    assert_eq!(machine.state, State::Invalid);
    machine.start_over();
    assert_eq!(machine.state, State::Start);
    assert_eq!(machine.data.down_at, None);
}
