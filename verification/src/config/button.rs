//! One button record: its function row and its image block.
use vstd::prelude::*;

use super::action::{decode_function, ButtonFunction, ChangePage, FunctionModel, PressKeys};
use super::action::{MODE_CHANGE_PAGE, MODE_COMMUNICATE_TO_HOST, MODE_NO_FUNCTION, MODE_PRESS_KEYS};
use super::action::{MODE_PRESS_SPECIAL_KEY, MODE_SEND_TEXT, MODE_SET_SETTING};
use super::{DATA_SIZE, IMAGE_SIZE, ROW_SIZE};

verus! {

/// Index of the mode byte of the primary slot.
pub const PRIMARY_BYTE: usize = 0;

/// Index of the first payload byte of the primary slot.
pub const PRIMARY_DATA_START: usize = 1;

/// Index past the last payload byte of the primary slot.
pub const PRIMARY_DATA_END: usize = DATA_SIZE + 1;

/// Index of the mode byte of the secondary slot.
pub const SECONDARY_BYTE: usize = ROW_SIZE / 2;

/// Index of the first payload byte of the secondary slot.
pub const SECONDARY_DATA_START: usize = DATA_SIZE + 2;

/// Index past the last payload byte of the secondary slot.
pub const SECONDARY_DATA_END: usize = ROW_SIZE;

/// Value of the liveness flag of an image with live content.
pub const LIVE_FLAG: u8 = 1;

/// The raw bytes of one button: a function row and an image block.
#[derive(Debug, Clone, Copy)]
pub struct Button {
    pub raw_image: [u8; IMAGE_SIZE],
    pub raw_data: [u8; ROW_SIZE],
}

/// Decodes a slot from its mode byte and its payload.
pub fn decode_slot<'a>(mode: u8, payload: &'a [u8]) -> (f: ButtonFunction<'a>)
    requires
        payload@.len() >= 3,
    ensures
        f@ == decode_function(mode, payload@),
{
    let code = mode % 16;
    if code == MODE_PRESS_KEYS {
        ButtonFunction::PressKeys(PressKeys::decode(payload))
    } else if code == MODE_CHANGE_PAGE {
        ButtonFunction::ChangePage(ChangePage::decode(payload))
    } else if code == MODE_PRESS_SPECIAL_KEY {
        ButtonFunction::PressSpecialKey
    } else if code == MODE_SEND_TEXT {
        ButtonFunction::SendText
    } else if code == MODE_SET_SETTING {
        ButtonFunction::SetSetting
    } else if code == MODE_COMMUNICATE_TO_HOST {
        ButtonFunction::CommunicateToHost
    } else {
        ButtonFunction::NoFunction
    }
}

impl Button {
    /// The mode byte of the primary slot.
    pub open spec fn primary_mode(&self) -> u8 {
        self.raw_data@[PRIMARY_BYTE as int]
    }

    /// The mode byte of the secondary slot.
    pub open spec fn secondary_mode(&self) -> u8 {
        self.raw_data@[SECONDARY_BYTE as int]
    }

    /// The payload of the primary slot.
    pub open spec fn primary_payload(&self) -> Seq<u8> {
        self.raw_data@.subrange(PRIMARY_DATA_START as int, PRIMARY_DATA_END as int)
    }

    /// The payload of the secondary slot.
    pub open spec fn secondary_payload(&self) -> Seq<u8> {
        self.raw_data@.subrange(SECONDARY_DATA_START as int, SECONDARY_DATA_END as int)
    }

    /// The function of the primary slot, as the row encodes it.
    pub open spec fn spec_primary_function(&self) -> FunctionModel {
        decode_function(self.primary_mode(), self.primary_payload())
    }

    /// The function of the secondary slot, as the row encodes it.
    pub open spec fn spec_secondary_function(&self) -> FunctionModel {
        decode_function(self.secondary_mode(), self.secondary_payload())
    }

    /// Whether the secondary slot holds anything but the reserved code for no function.
    pub open spec fn spec_has_secondary_function(&self) -> bool {
        self.secondary_mode() != MODE_NO_FUNCTION
    }

    /// The frame buffer: the image block without its liveness flag.
    pub open spec fn frame(&self) -> Seq<u8> {
        self.raw_image@.subrange(1, IMAGE_SIZE as int)
    }

    /// Decodes the function of the primary slot.
    pub fn primary_function(&self) -> (f: ButtonFunction<'_>)
        ensures
            f@ == self.spec_primary_function(),
    {
        let mode = self.raw_data[PRIMARY_BYTE];
        decode_slot(mode, self.primary_data())
    }

    /// Decodes the function of the secondary slot.
    pub fn secondary_function(&self) -> (f: ButtonFunction<'_>)
        ensures
            f@ == self.spec_secondary_function(),
    {
        let mode = self.raw_data[SECONDARY_BYTE];
        decode_slot(mode, self.secondary_data())
    }

    /// Whether a long press has a function of its own: false exactly when the
    /// secondary mode byte is the reserved code for no function.
    pub fn has_secondary_function(&self) -> (b: bool)
        ensures
            b == self.spec_has_secondary_function(),
            !b <==> self.secondary_mode() == MODE_NO_FUNCTION,
    {
        self.raw_data[SECONDARY_BYTE] != MODE_NO_FUNCTION
    }

    /// Whether the image has live content: its liveness flag is set.
    pub fn has_live_data(&self) -> (b: bool)
        ensures
            b <==> self.raw_image@[0] == LIVE_FLAG,
    {
        self.raw_image[0] == LIVE_FLAG
    }

    /// The frame buffer to hand to the display: the image bytes after the liveness flag.
    pub fn image_buff(&self) -> (s: &[u8])
        ensures
            s@ == self.frame(),
            s@.len() == IMAGE_SIZE - 1,
    {
        &self.raw_image[1..IMAGE_SIZE]
    }

    /// The payload bytes of the primary slot.
    pub fn primary_data(&self) -> (s: &[u8])
        ensures
            s@ == self.primary_payload(),
            s@.len() == DATA_SIZE,
    {
        &self.raw_data[PRIMARY_DATA_START..PRIMARY_DATA_END]
    }

    /// The payload bytes of the secondary slot.
    pub fn secondary_data(&self) -> (s: &[u8])
        ensures
            s@ == self.secondary_payload(),
            s@.len() == DATA_SIZE,
    {
        &self.raw_data[SECONDARY_DATA_START..SECONDARY_DATA_END]
    }
}

} // verus!
