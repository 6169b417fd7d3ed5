//! The interaction state machine of one button.
//!
//! One invocation follows one button from `Start` to `End`: either the button
//! is found released, or it is followed through press, hold and release. The
//! machine never reads the pin or the clock itself. It is fed samples of
//! both, decides one transition per sample, and hands back what the
//! dispatcher is to be told.
use vstd::prelude::*;

use crate::clock::{elapsed_millis, spec_elapsed_millis};
use crate::config::button::Button;

verus! {

/// What the machine tells the dispatcher about a button. Idling is told as
/// the absence of an event.
#[derive(Debug, Clone, Copy, PartialEq, Eq, Structural)]
pub enum ButtonEvent {
    ShortDown,
    ShortUp,
    ShortTriggered,
    LongTriggered,
}

/// The level of the sense line: a pressed button pulls it low.
#[derive(Debug, Clone, Copy, PartialEq, Eq, Structural)]
pub enum ButtonState {
    Up,
    Down,
}

/// One look at the world: the level of the addressed sense line and the
/// reading of the microsecond counter.
#[derive(Debug, Clone, Copy)]
pub struct Sample {
    pub level: ButtonState,
    pub now: u64,
}

/// The states of the machine. `End` closes an invocation; `Invalid` closes
/// one whose elapsed time could not be told.
#[derive(Debug, Clone, Copy, PartialEq, Eq, Structural)]
pub enum State {
    Start,
    Down,
    DownButWaiting,
    Up,
    Invalid,
    End,
}

/// What can happen in `Start`.
#[derive(Debug, Clone, Copy, PartialEq, Eq, Structural)]
pub enum StartEvents {
    IsUp,
    IsDown,
}

/// What can happen in `Down`.
#[derive(Debug, Clone, Copy, PartialEq, Eq, Structural)]
pub enum DownEvents {
    StillDown,
    AnyUp,
    HeldLong,
    Illegal,
}

/// What can happen in `DownButWaiting`.
#[derive(Debug, Clone, Copy, PartialEq, Eq, Structural)]
pub enum DownButWaitingEvents {
    StillDown,
    Released,
}

/// What can happen in `Up`.
#[derive(Debug, Clone, Copy, PartialEq, Eq, Structural)]
pub enum UpEvents {
    UpAfterLong,
    ShortUp,
    ShortHeld,
    Illegal,
}

/// Why an invocation ended without reaching `End`.
#[derive(Debug, Clone, Copy, PartialEq, Eq, Structural)]
pub enum MachineError {
    /// The time since the press could not be told: a clock reading counts as
    /// earlier than the press it follows, or no press is remembered.
    ElapsedTimeUnknown,
}

/// The settings of a machine.
#[derive(Debug, Clone, Copy)]
pub struct Config {
    /// A press held for more than this many milliseconds is a long press.
    pub long_press_duration: u64,
}

/// What a machine remembers during an invocation.
#[derive(Debug, Clone, Copy)]
pub struct Data {
    /// The clock reading at which the button went down.
    pub down_at: Option<u64>,
}

/// The machine: its settings, its state and its memory.
#[derive(Debug, Clone, Copy)]
pub struct ButtonMachine {
    pub config: Config,
    pub state: State,
    pub data: Data,
}

/// The outcome of one or more transitions: where the machine stands, what it
/// remembers, and what it told the dispatcher, in order.
pub struct Progress {
    pub state: State,
    pub down_at: Option<u64>,
    pub emitted: Seq<Option<ButtonEvent>>,
}

/// The level that a reading of the pin stands for. A failed reading counts as released.
pub open spec fn level_of<E>(reading: Result<bool, E>) -> ButtonState {
    match reading {
        Ok(is_low) => if is_low {
            ButtonState::Down
        } else {
            ButtonState::Up
        },
        Err(_) => ButtonState::Up,
    }
}

/// The milliseconds since the press, as far as they can be told.
pub open spec fn diff_since_down(down_at: Option<u64>, now: u64) -> Option<u64> {
    match down_at {
        Some(earlier) => spec_elapsed_millis(now, earlier),
        None => None,
    }
}

/// The event of `Start`: decided by the level alone.
pub open spec fn decide_start(level: ButtonState) -> StartEvents {
    match level {
        ButtonState::Down => StartEvents::IsDown,
        ButtonState::Up => StartEvents::IsUp,
    }
}

/// The event of `Down`. With a secondary function the elapsed time is looked
/// at first, and only a time strictly above the threshold is a long hold.
pub open spec fn decide_down(
    threshold: u64,
    has_secondary: bool,
    diff: Option<u64>,
    level: ButtonState,
) -> DownEvents {
    if has_secondary && diff is None {
        DownEvents::Illegal
    } else if has_secondary && diff->0 > threshold {
        DownEvents::HeldLong
    } else {
        match level {
            ButtonState::Down => DownEvents::StillDown,
            ButtonState::Up => DownEvents::AnyUp,
        }
    }
}

/// The event of `DownButWaiting`: decided by the level alone.
pub open spec fn decide_down_but_waiting(level: ButtonState) -> DownButWaitingEvents {
    match level {
        ButtonState::Down => DownButWaitingEvents::StillDown,
        ButtonState::Up => DownButWaitingEvents::Released,
    }
}

/// The event of `Up`. With a secondary function, a release strictly above the
/// threshold ends a long press, and any other release is a short press.
pub open spec fn decide_up(threshold: u64, has_secondary: bool, diff: Option<u64>) -> UpEvents {
    if !has_secondary {
        UpEvents::ShortUp
    } else if diff is None {
        UpEvents::Illegal
    } else if diff->0 > threshold {
        UpEvents::UpAfterLong
    } else {
        UpEvents::ShortHeld
    }
}

/// The transition out of `Start`.
pub open spec fn after_start(
    event: StartEvents,
    has_secondary: bool,
    down_at: Option<u64>,
    now: u64,
) -> Progress {
    match event {
        StartEvents::IsUp => Progress { state: State::End, down_at, emitted: seq![None] },
        StartEvents::IsDown => Progress {
            state: State::Down,
            down_at: Some(now),
            emitted: if has_secondary {
                seq![]
            } else {
                seq![Some(ButtonEvent::ShortDown)]
            },
        },
    }
}

/// The transition out of `Down`.
pub open spec fn after_down(event: DownEvents, down_at: Option<u64>) -> Progress {
    match event {
        DownEvents::StillDown => Progress { state: State::Down, down_at, emitted: seq![] },
        DownEvents::AnyUp => Progress { state: State::Up, down_at, emitted: seq![] },
        DownEvents::HeldLong => Progress {
            state: State::DownButWaiting,
            down_at,
            emitted: seq![Some(ButtonEvent::LongTriggered)],
        },
        DownEvents::Illegal => Progress { state: State::Invalid, down_at, emitted: seq![] },
    }
}

/// The transition out of `DownButWaiting`.
pub open spec fn after_down_but_waiting(
    event: DownButWaitingEvents,
    down_at: Option<u64>,
) -> Progress {
    match event {
        DownButWaitingEvents::StillDown => Progress {
            state: State::DownButWaiting,
            down_at,
            emitted: seq![],
        },
        DownButWaitingEvents::Released => Progress { state: State::Up, down_at, emitted: seq![] },
    }
}

/// The transition out of `Up`. Every release that can be classified clears
/// the press timestamp.
pub open spec fn after_up(event: UpEvents, down_at: Option<u64>) -> Progress {
    match event {
        UpEvents::UpAfterLong => Progress { state: State::End, down_at: None, emitted: seq![] },
        UpEvents::ShortHeld => Progress {
            state: State::End,
            down_at: None,
            emitted: seq![Some(ButtonEvent::ShortDown), Some(ButtonEvent::ShortTriggered)],
        },
        UpEvents::ShortUp => Progress {
            state: State::End,
            down_at: None,
            emitted: seq![Some(ButtonEvent::ShortUp)],
        },
        UpEvents::Illegal => Progress { state: State::Invalid, down_at, emitted: seq![] },
    }
}

/// Whether an invocation is over in `state`.
pub open spec fn is_terminal(state: State) -> bool {
    state == State::End || state == State::Invalid
}

/// One transition: the event of the current state is decided from the sample,
/// then applied. A machine whose invocation is over stays where it is.
pub open spec fn spec_step(
    threshold: u64,
    has_secondary: bool,
    state: State,
    down_at: Option<u64>,
    sample: Sample,
) -> Progress {
    let diff = diff_since_down(down_at, sample.now);
    match state {
        State::Start => after_start(decide_start(sample.level), has_secondary, down_at, sample.now),
        State::Down => after_down(
            decide_down(threshold, has_secondary, diff, sample.level),
            down_at,
        ),
        State::DownButWaiting => after_down_but_waiting(
            decide_down_but_waiting(sample.level),
            down_at,
        ),
        State::Up => after_up(decide_up(threshold, has_secondary, diff), down_at),
        State::Invalid => Progress { state, down_at, emitted: seq![] },
        State::End => Progress { state, down_at, emitted: seq![] },
    }
}

/// The transitions of a machine that is fed `samples` one by one, until its
/// invocation is over or the samples run out.
pub open spec fn spec_run(
    threshold: u64,
    has_secondary: bool,
    state: State,
    down_at: Option<u64>,
    samples: Seq<Sample>,
) -> Progress
    decreases samples.len(),
{
    if samples.len() == 0 || is_terminal(state) {
        Progress { state, down_at, emitted: seq![] }
    } else {
        let first = spec_step(threshold, has_secondary, state, down_at, samples[0]);
        let rest = spec_run(
            threshold,
            has_secondary,
            first.state,
            first.down_at,
            samples.subrange(1, samples.len() as int),
        );
        Progress {
            state: rest.state,
            down_at: rest.down_at,
            emitted: first.emitted + rest.emitted,
        }
    }
}

impl ButtonMachine {
    /// A machine at `Start` that takes a press held for more than
    /// `long_press_duration` milliseconds as a long press.
    pub fn new(long_press_duration: u64) -> (machine: ButtonMachine)
        ensures
            machine.config.long_press_duration == long_press_duration,
            machine.state == State::Start,
            machine.data.down_at is None,
    {
        ButtonMachine {
            config: Config { long_press_duration },
            state: State::Start,
            data: Data { down_at: None },
        }
    }

    /// The level that a reading of the pin stands for: down for a low line,
    /// up for a high one, and up as well where the reading failed.
    pub fn get_button_state<E>(reading: Result<bool, E>) -> (level: ButtonState)
        ensures
            level == level_of(reading),
    {
        let is_down = match reading {
            Ok(state) => state,
            Err(_) => {
                return ButtonState::Up;
            },
        };
        if is_down {
            ButtonState::Down
        } else {
            ButtonState::Up
        }
    }

    /// The milliseconds from the remembered press to `now`; none where no
    /// press is remembered or `now` counts as before it.
    pub fn get_diff_since_down(&self, now: u64) -> (diff: Option<u64>)
        ensures
            diff == diff_since_down(self.data.down_at, now),
    {
        match self.data.down_at {
            Some(down_at) => elapsed_millis(now, down_at),
            None => None,
        }
    }

    /// Begins an invocation: back to `Start`, with no press remembered.
    pub fn start_over(&mut self)
        ensures
            final(self).config == old(self).config,
            final(self).state == State::Start,
            final(self).data.down_at is None,
    {
        self.state = State::Start;
        self.data.down_at = None;
    }

    /// Whether the invocation is over.
    pub fn is_done(&self) -> (done: bool)
        ensures
            done == is_terminal(self.state),
    {
        match self.state {
            State::End => true,
            State::Invalid => true,
            _ => false,
        }
    }

    /// Decides the event of `Start`.
    pub fn start(&self, sample: &Sample) -> (event: StartEvents)
        ensures
            event == decide_start(sample.level),
    {
        match sample.level {
            ButtonState::Down => StartEvents::IsDown,
            ButtonState::Up => StartEvents::IsUp,
        }
    }

    /// Decides the event of `Down`.
    pub fn down(&self, button: &Button, sample: &Sample) -> (event: DownEvents)
        ensures
            event == decide_down(
                self.config.long_press_duration,
                button.spec_has_secondary_function(),
                diff_since_down(self.data.down_at, sample.now),
                sample.level,
            ),
    {
        if button.has_secondary_function() {
            match self.get_diff_since_down(sample.now) {
                Some(diff) => {
                    if diff > self.config.long_press_duration {
                        return DownEvents::HeldLong;
                    }
                },
                None => {
                    return DownEvents::Illegal;
                },
            }
        }
        match sample.level {
            ButtonState::Down => DownEvents::StillDown,
            ButtonState::Up => DownEvents::AnyUp,
        }
    }

    /// Decides the event of `DownButWaiting`.
    pub fn down_but_waiting(&self, sample: &Sample) -> (event: DownButWaitingEvents)
        ensures
            event == decide_down_but_waiting(sample.level),
    {
        match sample.level {
            ButtonState::Down => DownButWaitingEvents::StillDown,
            ButtonState::Up => DownButWaitingEvents::Released,
        }
    }

    /// Decides the event of `Up`.
    pub fn up(&self, button: &Button, sample: &Sample) -> (event: UpEvents)
        ensures
            event == decide_up(
                self.config.long_press_duration,
                button.spec_has_secondary_function(),
                diff_since_down(self.data.down_at, sample.now),
            ),
    {
        if button.has_secondary_function() {
            match self.get_diff_since_down(sample.now) {
                Some(diff) => {
                    if diff > self.config.long_press_duration {
                        return UpEvents::UpAfterLong;
                    }
                    UpEvents::ShortHeld
                },
                None => UpEvents::Illegal,
            }
        } else {
            UpEvents::ShortUp
        }
    }

    /// Applies an event of `Start`: a released button ends the invocation
    /// with the idle notice; a pressed one has its press time remembered, and
    /// is reported at once where no long press is to be waited for.
    pub fn leave_start(&mut self, event: StartEvents, button: &Button, sample: &Sample) -> (emitted:
        Vec<Option<ButtonEvent>>)
        ensures
            final(self).config == old(self).config,
            ({
                let after = after_start(
                    event,
                    button.spec_has_secondary_function(),
                    old(self).data.down_at,
                    sample.now,
                );
                &&& final(self).state == after.state
                &&& final(self).data.down_at == after.down_at
                &&& emitted@ == after.emitted
            }),
    {
        let mut emitted: Vec<Option<ButtonEvent>> = Vec::new();
        match event {
            StartEvents::IsUp => {
                emitted.push(None);
                self.state = State::End;
            },
            StartEvents::IsDown => {
                self.data.down_at = Some(sample.now);
                if !button.has_secondary_function() {
                    emitted.push(Some(ButtonEvent::ShortDown));
                }
                self.state = State::Down;
            },
        }
        emitted
    }

    /// Applies an event of `Down`: only a long hold is reported.
    pub fn leave_down(&mut self, event: DownEvents) -> (emitted: Vec<Option<ButtonEvent>>)
        ensures
            final(self).config == old(self).config,
            ({
                let after = after_down(event, old(self).data.down_at);
                &&& final(self).state == after.state
                &&& final(self).data.down_at == after.down_at
                &&& emitted@ == after.emitted
            }),
    {
        let mut emitted: Vec<Option<ButtonEvent>> = Vec::new();
        match event {
            DownEvents::StillDown => {
                self.state = State::Down;
            },
            DownEvents::AnyUp => {
                self.state = State::Up;
            },
            DownEvents::HeldLong => {
                emitted.push(Some(ButtonEvent::LongTriggered));
                self.state = State::DownButWaiting;
            },
            DownEvents::Illegal => {
                self.state = State::Invalid;
            },
        }
        emitted
    }

    /// Applies an event of `DownButWaiting`: nothing is reported.
    pub fn leave_down_but_waiting(&mut self, event: DownButWaitingEvents) -> (emitted: Vec<
        Option<ButtonEvent>,
    >)
        ensures
            final(self).config == old(self).config,
            ({
                let after = after_down_but_waiting(event, old(self).data.down_at);
                &&& final(self).state == after.state
                &&& final(self).data.down_at == after.down_at
                &&& emitted@ == after.emitted
            }),
    {
        match event {
            DownButWaitingEvents::StillDown => {
                self.state = State::DownButWaiting;
            },
            DownButWaitingEvents::Released => {
                self.state = State::Up;
            },
        }
        Vec::new()
    }

    /// Applies an event of `Up`: a short press is reported, a release after a
    /// long press is not, and the press time is forgotten.
    pub fn leave_up(&mut self, event: UpEvents) -> (emitted: Vec<Option<ButtonEvent>>)
        ensures
            final(self).config == old(self).config,
            ({
                let after = after_up(event, old(self).data.down_at);
                &&& final(self).state == after.state
                &&& final(self).data.down_at == after.down_at
                &&& emitted@ == after.emitted
            }),
    {
        let mut emitted: Vec<Option<ButtonEvent>> = Vec::new();
        match event {
            UpEvents::UpAfterLong => {
                self.data.down_at = None;
                self.state = State::End;
            },
            UpEvents::ShortHeld => {
                emitted.push(Some(ButtonEvent::ShortDown));
                emitted.push(Some(ButtonEvent::ShortTriggered));
                self.data.down_at = None;
                self.state = State::End;
            },
            UpEvents::ShortUp => {
                emitted.push(Some(ButtonEvent::ShortUp));
                self.data.down_at = None;
                self.state = State::End;
            },
            UpEvents::Illegal => {
                self.state = State::Invalid;
            },
        }
        emitted
    }

    /// Makes one transition on one sample and hands back what is to be told
    /// to the dispatcher, in order. A machine whose invocation is over stays
    /// where it is and tells nothing.
    pub fn step(&mut self, button: &Button, sample: &Sample) -> (emitted: Vec<Option<ButtonEvent>>)
        ensures
            final(self).config == old(self).config,
            ({
                let after = spec_step(
                    old(self).config.long_press_duration,
                    button.spec_has_secondary_function(),
                    old(self).state,
                    old(self).data.down_at,
                    *sample,
                );
                &&& final(self).state == after.state
                &&& final(self).data.down_at == after.down_at
                &&& emitted@ == after.emitted
            }),
    {
        match self.state {
            State::Start => {
                let event = self.start(sample);
                self.leave_start(event, button, sample)
            },
            State::Down => {
                let event = self.down(button, sample);
                self.leave_down(event)
            },
            State::DownButWaiting => {
                let event = self.down_but_waiting(sample);
                self.leave_down_but_waiting(event)
            },
            State::Up => {
                let event = self.up(button, sample);
                self.leave_up(event)
            },
            State::Invalid => Vec::new(),
            State::End => Vec::new(),
        }
    }

    /// Follows one button through one invocation, on recorded samples: starts
    /// over at `Start`, with nothing remembered, and makes one transition per
    /// sample until the invocation is over or the samples run out. Hands back
    /// everything that is to be told to the dispatcher, in order. The state
    /// tells whether the invocation is over; it fails only where the elapsed
    /// time could not be told.
    pub fn check_button(&mut self, button: &Button, samples: &[Sample]) -> (r: Result<
        Vec<Option<ButtonEvent>>,
        MachineError,
    >)
        ensures
            final(self).config == old(self).config,
            ({
                let run = spec_run(
                    old(self).config.long_press_duration,
                    button.spec_has_secondary_function(),
                    State::Start,
                    None,
                    samples@,
                );
                &&& final(self).state == run.state
                &&& final(self).data.down_at == run.down_at
                &&& match r {
                    Ok(events) => run.state != State::Invalid && events@ == run.emitted,
                    Err(e) => run.state == State::Invalid && e == MachineError::ElapsedTimeUnknown,
                }
            }),
    {
        let ghost threshold = self.config.long_press_duration;
        let ghost has_secondary = button.spec_has_secondary_function();
        let ghost run = spec_run(threshold, has_secondary, State::Start, None, samples@);
        self.start_over();
        let mut events: Vec<Option<ButtonEvent>> = Vec::new();
        let mut i: usize = 0;
        proof {
            assert(samples@.subrange(0, samples@.len() as int) == samples@);
        }
        while i < samples.len() && !self.is_done()
            invariant
                i <= samples@.len(),
                self.config.long_press_duration == threshold,
                self.config == old(self).config,
                has_secondary == button.spec_has_secondary_function(),
                run == spec_run(threshold, has_secondary, State::Start, None, samples@),
                ({
                    let rest = spec_run(
                        threshold,
                        has_secondary,
                        self.state,
                        self.data.down_at,
                        samples@.subrange(i as int, samples@.len() as int),
                    );
                    &&& run.state == rest.state
                    &&& run.down_at == rest.down_at
                    &&& run.emitted == events@ + rest.emitted
                }),
            decreases samples@.len() - i,
        {
            let ghost left = samples@.subrange(i as int, samples@.len() as int);
            let ghost before = events@;
            let mut emitted = self.step(button, &samples[i]);
            events.append(&mut emitted);
            i = i + 1;
            proof {
                assert(left[0] == samples@[i - 1]);
                assert(left.subrange(1, left.len() as int) == samples@.subrange(
                    i as int,
                    samples@.len() as int,
                ));
                let rest = spec_run(
                    threshold,
                    has_secondary,
                    self.state,
                    self.data.down_at,
                    samples@.subrange(i as int, samples@.len() as int),
                );
                assert(events@ + rest.emitted == before + (events@.subrange(
                    before.len() as int,
                    events@.len() as int,
                ) + rest.emitted));
            }
        }
        proof {
            let rest = spec_run(
                threshold,
                has_secondary,
                self.state,
                self.data.down_at,
                samples@.subrange(i as int, samples@.len() as int),
            );
            assert(rest.emitted == Seq::<Option<ButtonEvent>>::empty());
            assert(events@ + rest.emitted == events@);
        }
        match self.state {
            State::Invalid => Err(MachineError::ElapsedTimeUnknown),
            _ => Ok(events),
        }
    }
}

/// A machine that is fed nothing but released samples, and at least one,
/// ends in `End`, tells the dispatcher that it idles and nothing else (no
/// press, short or long), and leaves the press timestamp as it was.
pub proof fn lemma_released_pin_idles(
    threshold: u64,
    has_secondary: bool,
    down_at: Option<u64>,
    samples: Seq<Sample>,
)
    requires
        samples.len() > 0,
        forall|i: int| 0 <= i < samples.len() ==> (#[trigger] samples[i]).level == ButtonState::Up,
    ensures
        spec_run(threshold, has_secondary, State::Start, down_at, samples).state == State::End,
        spec_run(threshold, has_secondary, State::Start, down_at, samples).down_at == down_at,
        spec_run(threshold, has_secondary, State::Start, down_at, samples).emitted == seq![
            None::<ButtonEvent>,
        ],
{
    let first = spec_step(threshold, has_secondary, State::Start, down_at, samples[0]);
    let tail = samples.subrange(1, samples.len() as int);
    assert(first.state == State::End);
    assert(spec_run(threshold, has_secondary, first.state, first.down_at, tail).emitted
        == Seq::<Option<ButtonEvent>>::empty());
    assert(first.emitted + Seq::<Option<ButtonEvent>>::empty() == first.emitted);
}

/// The long-press threshold is strict. A button with a secondary function
/// that is looked at exactly `threshold` milliseconds after its press is on
/// the short path: held, it triggers nothing; released, it is a short press.
/// One millisecond later it is on the long path: held, it triggers the long
/// press; released, it ends without a short press.
pub proof fn lemma_long_press_boundary(threshold: u64, down_at: u64, at: Sample, above: Sample)
    requires
        threshold < u64::MAX,
        spec_elapsed_millis(at.now, down_at) == Some(threshold),
        spec_elapsed_millis(above.now, down_at) == Some((threshold + 1) as u64),
    ensures
        decide_down(threshold, true, Some(threshold), at.level) != DownEvents::HeldLong,
        spec_step(threshold, true, State::Down, Some(down_at), at).emitted == Seq::<
            Option<ButtonEvent>,
        >::empty(),
        spec_step(threshold, true, State::Down, Some(down_at), at).state == (if at.level
            == ButtonState::Down {
            State::Down
        } else {
            State::Up
        }),
        decide_up(threshold, true, Some(threshold)) == UpEvents::ShortHeld,
        spec_step(threshold, true, State::Up, Some(down_at), at).emitted == seq![
            Some(ButtonEvent::ShortDown),
            Some(ButtonEvent::ShortTriggered),
        ],
        spec_step(threshold, true, State::Up, Some(down_at), at).state == State::End,
        decide_down(threshold, true, Some((threshold + 1) as u64), above.level)
            == DownEvents::HeldLong,
        spec_step(threshold, true, State::Down, Some(down_at), above).emitted == seq![
            Some(ButtonEvent::LongTriggered),
        ],
        spec_step(threshold, true, State::Down, Some(down_at), above).state
            == State::DownButWaiting,
        decide_up(threshold, true, Some((threshold + 1) as u64)) == UpEvents::UpAfterLong,
        spec_step(threshold, true, State::Up, Some(down_at), above).emitted == Seq::<
            Option<ButtonEvent>,
        >::empty(),
        spec_step(threshold, true, State::Up, Some(down_at), above).state == State::End,
{
}

/// Whether `sample` was taken more than `threshold` milliseconds after the
/// press at `down_at`.
pub open spec fn past_threshold(threshold: u64, down_at: u64, sample: Sample) -> bool {
    spec_elapsed_millis(sample.now, down_at) matches Some(diff) && diff > threshold
}

/// Whether `sample` shows the button still down, at most `threshold`
/// milliseconds after the press at `down_at`.
pub open spec fn held_within(threshold: u64, down_at: u64, sample: Sample) -> bool {
    &&& sample.level == ButtonState::Down
    &&& spec_elapsed_millis(sample.now, down_at) matches Some(diff) && diff <= threshold
}

/// Whether an invocation is past its long press in `state`.
pub open spec fn after_long(state: State) -> bool {
    state == State::DownButWaiting || state == State::Up || state == State::End
}

/// Once the long press is triggered, nothing more is told: whatever the
/// button does, as long as the clock stays past the threshold.
proof fn lemma_quiet_after_long(threshold: u64, state: State, down_at: u64, samples: Seq<Sample>)
    requires
        after_long(state),
        forall|i: int| 0 <= i < samples.len() ==> past_threshold(threshold, down_at, samples[i]),
    ensures
        spec_run(threshold, true, state, Some(down_at), samples).emitted == Seq::<
            Option<ButtonEvent>,
        >::empty(),
        after_long(spec_run(threshold, true, state, Some(down_at), samples).state),
    decreases samples.len(),
{
    if samples.len() > 0 && !is_terminal(state) {
        let first = spec_step(threshold, true, state, Some(down_at), samples[0]);
        let rest = samples.subrange(1, samples.len() as int);
        assert(past_threshold(threshold, down_at, samples[0]));
        assert(first.emitted == Seq::<Option<ButtonEvent>>::empty());
        assert(after_long(first.state));
        assert forall|i: int| 0 <= i < rest.len() implies past_threshold(
            threshold,
            down_at,
            rest[i],
        ) by {
            assert(rest[i] == samples[i + 1]);
        }
        if first.state == State::End {
            assert(spec_run(threshold, true, first.state, first.down_at, rest).emitted == Seq::<
                Option<ButtonEvent>,
            >::empty());
        } else {
            assert(first.down_at == Some(down_at));
            lemma_quiet_after_long(threshold, first.state, down_at, rest);
        }
        assert(first.emitted + Seq::<Option<ButtonEvent>>::empty() == first.emitted);
    }
}

/// A button that stays down until the clock passes the threshold triggers
/// the long press, once.
proof fn lemma_down_until_long(threshold: u64, down_at: u64, samples: Seq<Sample>, held: int)
    requires
        0 <= held < samples.len(),
        forall|i: int| 0 <= i < held ==> held_within(threshold, down_at, samples[i]),
        forall|i: int| held <= i < samples.len() ==> past_threshold(threshold, down_at, samples[i]),
    ensures
        spec_run(threshold, true, State::Down, Some(down_at), samples).emitted == seq![
            Some(ButtonEvent::LongTriggered),
        ],
        after_long(spec_run(threshold, true, State::Down, Some(down_at), samples).state),
    decreases held,
{
    let first = spec_step(threshold, true, State::Down, Some(down_at), samples[0]);
    let rest = samples.subrange(1, samples.len() as int);
    if held == 0 {
        assert(past_threshold(threshold, down_at, samples[0]));
        assert(first.state == State::DownButWaiting);
        assert forall|i: int| 0 <= i < rest.len() implies past_threshold(
            threshold,
            down_at,
            rest[i],
        ) by {
            assert(rest[i] == samples[i + 1]);
        }
        lemma_quiet_after_long(threshold, first.state, down_at, rest);
        assert(first.emitted + Seq::<Option<ButtonEvent>>::empty() == first.emitted);
    } else {
        assert(held_within(threshold, down_at, samples[0]));
        assert(first.state == State::Down);
        assert(first.emitted == Seq::<Option<ButtonEvent>>::empty());
        assert forall|i: int| 0 <= i < held - 1 implies held_within(
            threshold,
            down_at,
            rest[i],
        ) by {
            assert(rest[i] == samples[i + 1]);
        }
        assert forall|i: int| held - 1 <= i < rest.len() implies past_threshold(
            threshold,
            down_at,
            rest[i],
        ) by {
            assert(rest[i] == samples[i + 1]);
        }
        lemma_down_until_long(threshold, down_at, rest, held - 1);
        let tail = spec_run(threshold, true, State::Down, Some(down_at), rest);
        assert(first.emitted + tail.emitted == tail.emitted);
    }
}

/// A button with a secondary function that is held for longer than the
/// threshold tells the dispatcher of one long press and of nothing else. The
/// first sample finds it pressed; `held` samples later the clock is past the
/// threshold for the first time, and the button was down until then; from
/// there on the clock stays past the threshold, whatever the button does.
pub proof fn lemma_long_hold_triggers_once(
    threshold: u64,
    down_at: Option<u64>,
    samples: Seq<Sample>,
    held: int,
)
    requires
        1 <= held < samples.len(),
        samples[0].level == ButtonState::Down,
        forall|i: int| 1 <= i < held ==> held_within(threshold, samples[0].now, samples[i]),
        forall|i: int|
            held <= i < samples.len() ==> past_threshold(threshold, samples[0].now, samples[i]),
    ensures
        spec_run(threshold, true, State::Start, down_at, samples).emitted == seq![
            Some(ButtonEvent::LongTriggered),
        ],
        after_long(spec_run(threshold, true, State::Start, down_at, samples).state),
{
    let first = spec_step(threshold, true, State::Start, down_at, samples[0]);
    let rest = samples.subrange(1, samples.len() as int);
    assert(first.state == State::Down);
    assert(first.down_at == Some(samples[0].now));
    assert forall|i: int| 0 <= i < held - 1 implies held_within(
        threshold,
        samples[0].now,
        rest[i],
    ) by {
        assert(rest[i] == samples[i + 1]);
    }
    assert forall|i: int| held - 1 <= i < rest.len() implies past_threshold(
        threshold,
        samples[0].now,
        rest[i],
    ) by {
        assert(rest[i] == samples[i + 1]);
    }
    lemma_down_until_long(threshold, samples[0].now, rest, held - 1);
    let tail = spec_run(threshold, true, State::Down, Some(samples[0].now), rest);
    assert(first.emitted + tail.emitted == tail.emitted);
}

} // verus!
