//! Input arbitration: one event per tick out of the encoder's movement and
//! the levels of the four buttons.

use vstd::prelude::*;
use crate::hid::{Key, MediaCode};
use crate::led::Rgb;

verus! {

/// The one action that a tick's inputs amount to.
#[derive(Copy, Clone, Debug, PartialEq, Eq, Structural)]
pub enum InputEvent {
    Idle,
    VolumeUp,
    VolumeDown,
    PlayPause,
    ScanNext,
    ScanPrev,
    Mute,
}

/// Pin levels of the four buttons as read in one tick; `true` is high. The
/// play/pause, next and prev buttons pull their pin high when pressed. The
/// encoder's push button pulls its pin low when pressed.
#[derive(Copy, Clone, Debug, PartialEq, Eq, Structural)]
pub struct ButtonLevels {
    pub play_pause: bool,
    pub next: bool,
    pub prev: bool,
    pub encoder_button: bool,
}

/// The event of a tick. A turn of the encoder comes first, then play/pause,
/// next, prev and the encoder's push button, in this order; the first of
/// them that is active decides, whatever the others show.
pub open spec fn spec_arbitrate(rotation_delta: i32, buttons: ButtonLevels) -> InputEvent {
    if rotation_delta > 0 {
        InputEvent::VolumeUp
    } else if rotation_delta < 0 {
        InputEvent::VolumeDown
    } else if buttons.play_pause {
        InputEvent::PlayPause
    } else if buttons.next {
        InputEvent::ScanNext
    } else if buttons.prev {
        InputEvent::ScanPrev
    } else if !buttons.encoder_button {
        InputEvent::Mute
    } else {
        InputEvent::Idle
    }
}

/// Resolves the inputs of one tick to its event.
pub fn arbitrate(rotation_delta: i32, buttons: &ButtonLevels) -> (event: InputEvent)
    ensures
        event == spec_arbitrate(rotation_delta, *buttons),
{
    if rotation_delta > 0 {
        InputEvent::VolumeUp
    } else if rotation_delta < 0 {
        InputEvent::VolumeDown
    } else if buttons.play_pause {
        InputEvent::PlayPause
    } else if buttons.next {
        InputEvent::ScanNext
    } else if buttons.prev {
        InputEvent::ScanPrev
    } else if !buttons.encoder_button {
        InputEvent::Mute
    } else {
        InputEvent::Idle
    }
}

impl InputEvent {
    /// The key that this event holds down; none for `Idle`.
    pub open spec fn spec_key(self) -> Option<Key> {
        match self {
            InputEvent::Idle => None,
            InputEvent::VolumeUp => Some(Key::Media(MediaCode::VolumeUp)),
            InputEvent::VolumeDown => Some(Key::Media(MediaCode::VolumeDown)),
            InputEvent::PlayPause => Some(Key::Media(MediaCode::PlayPause)),
            InputEvent::ScanNext => Some(Key::Media(MediaCode::ScanNext)),
            InputEvent::ScanPrev => Some(Key::Media(MediaCode::ScanPrev)),
            InputEvent::Mute => Some(Key::Media(MediaCode::Mute)),
        }
    }

    /// The colour in which the indicator pulses for this event; none for
    /// `Idle`.
    pub open spec fn spec_color(self) -> Option<Rgb> {
        match self {
            InputEvent::Idle => None,
            InputEvent::VolumeUp => Some(Rgb { r: 0, g: 255, b: 255 }),
            InputEvent::VolumeDown => Some(Rgb { r: 255, g: 0, b: 255 }),
            InputEvent::PlayPause => Some(Rgb { r: 0, g: 0, b: 255 }),
            InputEvent::ScanNext => Some(Rgb { r: 0, g: 255, b: 0 }),
            InputEvent::ScanPrev => Some(Rgb { r: 255, g: 0, b: 0 }),
            InputEvent::Mute => Some(Rgb { r: 255, g: 255, b: 0 }),
        }
    }

    /// The key that this event holds down; none for `Idle`.
    pub fn key(&self) -> (key: Option<Key>)
        ensures
            key == self.spec_key(),
            key.is_none() <==> *self == InputEvent::Idle,
    {
        match self {
            InputEvent::Idle => None,
            InputEvent::VolumeUp => Some(Key::Media(MediaCode::VolumeUp)),
            InputEvent::VolumeDown => Some(Key::Media(MediaCode::VolumeDown)),
            InputEvent::PlayPause => Some(Key::Media(MediaCode::PlayPause)),
            InputEvent::ScanNext => Some(Key::Media(MediaCode::ScanNext)),
            InputEvent::ScanPrev => Some(Key::Media(MediaCode::ScanPrev)),
            InputEvent::Mute => Some(Key::Media(MediaCode::Mute)),
        }
    }

    /// The colour in which the indicator pulses for this event; none for
    /// `Idle`.
    pub fn color(&self) -> (color: Option<Rgb>)
        ensures
            color == self.spec_color(),
            color.is_none() <==> *self == InputEvent::Idle,
    {
        match self {
            InputEvent::Idle => None,
            InputEvent::VolumeUp => Some(Rgb { r: 0, g: 255, b: 255 }),
            InputEvent::VolumeDown => Some(Rgb { r: 255, g: 0, b: 255 }),
            InputEvent::PlayPause => Some(Rgb { r: 0, g: 0, b: 255 }),
            InputEvent::ScanNext => Some(Rgb { r: 0, g: 255, b: 0 }),
            InputEvent::ScanPrev => Some(Rgb { r: 255, g: 0, b: 0 }),
            InputEvent::Mute => Some(Rgb { r: 255, g: 255, b: 0 }),
        }
    }
}

/// A turn of the encoder outranks every button: whenever the rotation
/// delta is not zero, the event is the volume step of its sign, whatever
/// the buttons show.
pub proof fn lemma_rotation_outranks_buttons(rotation_delta: i32, buttons: ButtonLevels)
    requires
        rotation_delta != 0,
    ensures
        rotation_delta > 0 ==> spec_arbitrate(rotation_delta, buttons) == InputEvent::VolumeUp,
        rotation_delta < 0 ==> spec_arbitrate(rotation_delta, buttons) == InputEvent::VolumeDown,
        spec_arbitrate(rotation_delta, buttons) != InputEvent::PlayPause,
{
}

/// Every tick has exactly one event, and the event does not depend on an
/// input that ranks below the one that decides: with the encoder at rest,
/// a button that is pressed decides unless one that ranks above it is
/// pressed too, and the event is `Idle` only when nothing is active.
pub proof fn lemma_buttons_rank_in_order(buttons: ButtonLevels)
    ensures
        buttons.play_pause ==> spec_arbitrate(0, buttons) == InputEvent::PlayPause,
        !buttons.play_pause && buttons.next ==> spec_arbitrate(0, buttons)
            == InputEvent::ScanNext,
        !buttons.play_pause && !buttons.next && buttons.prev ==> spec_arbitrate(0, buttons)
            == InputEvent::ScanPrev,
        !buttons.play_pause && !buttons.next && !buttons.prev && !buttons.encoder_button
            ==> spec_arbitrate(0, buttons) == InputEvent::Mute,
        spec_arbitrate(0, buttons) == InputEvent::Idle <==> !buttons.play_pause && !buttons.next
            && !buttons.prev && buttons.encoder_button,
{
}

} // verus!
