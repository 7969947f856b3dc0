//! Frequency tuning from the control panel: stepping one decimal digit of
//! the displayed frequency up or down, jumping to a band's calling
//! frequency, and muting. Each input yields the action that the panel hands
//! on to the receiver.
use vstd::prelude::*;
use crate::cat::pow10;

verus! {

/// Number of digits the panel displays and can step.
pub const DISPLAY_DIGITS: u32 = 8;

/// A tuned frequency stays strictly below this value, the first that the
/// display cannot show.
pub const TUNING_LIMIT: u64 = 99_999_999;

/// The calling frequency used for a band the table does not list (20 m).
pub const DEFAULT_BAND_FREQUENCY: u32 = 14_074_000;

/// An input from the control panel.
#[derive(Debug, Clone, Copy, PartialEq, Eq, Structural)]
pub enum TuningInput {
    /// Step the given digit (0 is the units) up; it also becomes the wheel's digit.
    IncrementDigit(u32),
    /// Step the given digit down; it also becomes the wheel's digit.
    DecrementDigit(u32),
    /// Step the wheel's digit up, if a digit was chosen.
    WheelUp,
    /// Step the wheel's digit down, if a digit was chosen.
    WheelDown,
    /// Jump to the calling frequency of the band of this many metres.
    SetBandMetres(u8),
    ToggleMute,
}

/// What the panel asks of the receiver after an input.
#[derive(Debug, Clone, Copy, PartialEq, Eq, Structural)]
pub enum TuningAction {
    Nothing,
    /// Tune the radio to this frequency.
    Retune(u32),
    /// The step would leave the displayable range; the frequency is kept.
    OutOfRange,
    /// Silence the output.
    Mute,
    /// Restore the operator's volume.
    Unmute,
}

/// The tuner's state: frequency in hertz, whether muted, and the digit the
/// wheel steps.
pub type TunerModel = (u32, bool, Option<u32>);

pub open spec fn input_wf(input: TuningInput) -> bool {
    match input {
        TuningInput::IncrementDigit(d) => d < DISPLAY_DIGITS,
        TuningInput::DecrementDigit(d) => d < DISPLAY_DIGITS,
        _ => true,
    }
}

pub open spec fn tuner_wf(s: TunerModel) -> bool {
    match s.2 {
        Some(d) => d < DISPLAY_DIGITS,
        None => true,
    }
}

/// The calling frequency of each band, by wavelength in metres.
pub open spec fn band_frequency_of(metres: u8) -> u32 {
    if metres == 80 {
        3_573_000
    } else if metres == 60 {
        5_357_000
    } else if metres == 40 {
        7_074_000
    } else if metres == 30 {
        10_136_000
    } else if metres == 20 {
        14_074_000
    } else if metres == 17 {
        18_100_000
    } else if metres == 15 {
        21_074_000
    } else if metres == 12 {
        24_915_000
    } else if metres == 11 {
        27_255_000
    } else if metres == 10 {
        28_180_000
    } else {
        DEFAULT_BAND_FREQUENCY
    }
}

/// Stepping digit `d` of `f` up: allowed while the result stays below the limit.
pub open spec fn stepped_up(f: u32, d: u32) -> (u32, TuningAction) {
    let g = f + pow10(d as nat);
    if g < TUNING_LIMIT {
        (g as u32, TuningAction::Retune(g as u32))
    } else {
        (f, TuningAction::OutOfRange)
    }
}

/// Stepping digit `d` of `f` down: allowed while the result is not negative.
pub open spec fn stepped_down(f: u32, d: u32) -> (u32, TuningAction) {
    let g = f - pow10(d as nat);
    if g >= 0 {
        (g as u32, TuningAction::Retune(g as u32))
    } else {
        (f, TuningAction::OutOfRange)
    }
}

/// The state after an input, and the action it yields.
pub open spec fn tuned(s: TunerModel, input: TuningInput) -> (TunerModel, TuningAction) {
    match input {
        TuningInput::IncrementDigit(d) => {
            let (f, a) = stepped_up(s.0, d);
            ((f, s.1, Some(d)), a)
        },
        TuningInput::DecrementDigit(d) => {
            let (f, a) = stepped_down(s.0, d);
            ((f, s.1, Some(d)), a)
        },
        TuningInput::WheelUp => match s.2 {
            Some(d) => {
                let (f, a) = stepped_up(s.0, d);
                ((f, s.1, s.2), a)
            },
            None => (s, TuningAction::Nothing),
        },
        TuningInput::WheelDown => match s.2 {
            Some(d) => {
                let (f, a) = stepped_down(s.0, d);
                ((f, s.1, s.2), a)
            },
            None => (s, TuningAction::Nothing),
        },
        TuningInput::SetBandMetres(m) => {
            let f = band_frequency_of(m);
            ((f, s.1, s.2), TuningAction::Retune(f))
        },
        TuningInput::ToggleMute => (
            (s.0, !s.1, s.2),
            if s.1 {
                TuningAction::Unmute
            } else {
                TuningAction::Mute
            },
        ),
    }
}

/// The calling frequency of the band of `metres`; 20 m for a band the
/// table does not list.
pub fn band_frequency(metres: u8) -> (r: u32)
    ensures
        r == band_frequency_of(metres),
{
    match metres {
        80 => 3_573_000,
        60 => 5_357_000,
        40 => 7_074_000,
        30 => 10_136_000,
        20 => 14_074_000,
        17 => 18_100_000,
        15 => 21_074_000,
        12 => 24_915_000,
        11 => 27_255_000,
        10 => 28_180_000,
        _ => DEFAULT_BAND_FREQUENCY,
    }
}

/// Ten to the power `d`: the amount by which stepping digit `d` changes
/// the frequency.
pub fn digit_step(d: u32) -> (r: u32)
    requires
        d < DISPLAY_DIGITS,
    ensures
        r == pow10(d as nat),
{
    let mut r: u32 = 1;
    let mut i: u32 = 0;
    proof {
        reveal_with_fuel(pow10, 9);
    }
    while i < d
        invariant
            i <= d < DISPLAY_DIGITS,
            r == pow10(i as nat),
            pow10(7) == 10_000_000,
        decreases d - i,
    {
        proof {
            crate::cat::lemma_pow10_monotone((i + 1) as nat, 7);
        }
        r = r * 10;
        i = i + 1;
    }
    r
}

pub struct Tuner {
    frequency: u32,
    muted: bool,
    wheel_digit: Option<u32>,
}

impl View for Tuner {
    type V = TunerModel;

    closed spec fn view(&self) -> TunerModel {
        (self.frequency, self.muted, self.wheel_digit)
    }
}

impl Tuner {
    /// A tuner at `frequency`, not muted, with no wheel digit chosen.
    pub fn new(frequency: u32) -> (r: Tuner)
        ensures
            r@ == (frequency, false, None::<u32>),
            tuner_wf(r@),
    {
        Tuner { frequency, muted: false, wheel_digit: None }
    }

    pub fn frequency(&self) -> (r: u32)
        ensures
            r == self@.0,
    {
        self.frequency
    }

    pub fn is_muted(&self) -> (r: bool)
        ensures
            r == self@.1,
    {
        self.muted
    }

    pub fn wheel_digit(&self) -> (r: Option<u32>)
        ensures
            r == self@.2,
    {
        self.wheel_digit
    }

    fn step_up(&mut self, d: u32) -> (r: TuningAction)
        requires
            d < DISPLAY_DIGITS,
        ensures
            (final(self)@.0, r) == stepped_up(old(self)@.0, d),
            final(self)@.1 == old(self)@.1,
            final(self)@.2 == old(self)@.2,
    {
        let step = digit_step(d);
        if (self.frequency as u64) + (step as u64) < TUNING_LIMIT {
            self.frequency = self.frequency + step;
            TuningAction::Retune(self.frequency)
        } else {
            TuningAction::OutOfRange
        }
    }

    fn step_down(&mut self, d: u32) -> (r: TuningAction)
        requires
            d < DISPLAY_DIGITS,
        ensures
            (final(self)@.0, r) == stepped_down(old(self)@.0, d),
            final(self)@.1 == old(self)@.1,
            final(self)@.2 == old(self)@.2,
    {
        let step = digit_step(d);
        if self.frequency >= step {
            self.frequency = self.frequency - step;
            TuningAction::Retune(self.frequency)
        } else {
            TuningAction::OutOfRange
        }
    }

    /// Applies one panel input and returns what the receiver must do.
    pub fn handle(&mut self, input: TuningInput) -> (r: TuningAction)
        requires
            tuner_wf(old(self)@),
            input_wf(input),
        ensures
            (final(self)@, r) == tuned(old(self)@, input),
            tuner_wf(final(self)@),
            old(self)@.0 < TUNING_LIMIT ==> final(self)@.0 < TUNING_LIMIT,
    {
        match input {
            TuningInput::IncrementDigit(d) => {
                self.wheel_digit = Some(d);
                self.step_up(d)
            },
            TuningInput::DecrementDigit(d) => {
                self.wheel_digit = Some(d);
                self.step_down(d)
            },
            TuningInput::WheelUp => match self.wheel_digit {
                Some(d) => self.step_up(d),
                None => TuningAction::Nothing,
            },
            TuningInput::WheelDown => match self.wheel_digit {
                Some(d) => self.step_down(d),
                None => TuningAction::Nothing,
            },
            TuningInput::SetBandMetres(m) => {
                self.frequency = band_frequency(m);
                TuningAction::Retune(self.frequency)
            },
            TuningInput::ToggleMute => {
                let was_muted = self.muted;
                self.muted = !was_muted;
                if was_muted {
                    TuningAction::Unmute
                } else {
                    TuningAction::Mute
                }
            },
        }
    }
}

} // verus!
