//! Decoded button functions and the payload formats behind them.
use vstd::prelude::*;

use crate::util::{bytes_before_zero, ends_before_zero, len_before_zero};

verus! {

/// Mode code of a slot that sends a list of keys.
pub const MODE_PRESS_KEYS: u8 = 0;

/// Mode code of a slot that switches to another page.
pub const MODE_CHANGE_PAGE: u8 = 1;

/// Mode code reserved for a slot without a function.
pub const MODE_NO_FUNCTION: u8 = 2;

/// Mode code of a slot that sends a special key.
pub const MODE_PRESS_SPECIAL_KEY: u8 = 3;

/// Mode code of a slot that types a text.
pub const MODE_SEND_TEXT: u8 = 4;

/// Mode code of a slot that changes a device setting.
pub const MODE_SET_SETTING: u8 = 5;

/// Mode code of a slot that talks to the host.
pub const MODE_COMMUNICATE_TO_HOST: u8 = 6;

/// What a slot does when its button is triggered.
#[derive(Debug, Clone, Copy, PartialEq, Eq)]
pub enum ButtonFunction<'a> {
    PressKeys(PressKeys<'a>),
    ChangePage(ChangePage),
    NoFunction,
    PressSpecialKey,
    SendText,
    SetSetting,
    CommunicateToHost,
}

/// Payload of a page change: the page to show next.
#[derive(Debug, Clone, Copy, PartialEq, Eq)]
pub struct ChangePage {
    pub target_page: u16,
}

/// Payload of a key list: the keys to send, and the page to jump to afterwards, if any.
#[derive(Debug, Clone, Copy, PartialEq, Eq)]
pub struct PressKeys<'a> {
    pub keys: &'a [u8],
    pub goto: Option<u16>,
}

/// The mathematical value of a decoded function: the key list as a sequence.
pub enum FunctionModel {
    PressKeys { keys: Seq<u8>, goto: Option<u16> },
    ChangePage { target_page: u16 },
    NoFunction,
    PressSpecialKey,
    SendText,
    SetSetting,
    CommunicateToHost,
}

impl<'a> View for ButtonFunction<'a> {
    type V = FunctionModel;

    open spec fn view(&self) -> FunctionModel {
        match *self {
            ButtonFunction::PressKeys(p) => FunctionModel::PressKeys { keys: p.keys@, goto: p.goto },
            ButtonFunction::ChangePage(c) => FunctionModel::ChangePage { target_page: c.target_page },
            ButtonFunction::NoFunction => FunctionModel::NoFunction,
            ButtonFunction::PressSpecialKey => FunctionModel::PressSpecialKey,
            ButtonFunction::SendText => FunctionModel::SendText,
            ButtonFunction::SetSetting => FunctionModel::SetSetting,
            ButtonFunction::CommunicateToHost => FunctionModel::CommunicateToHost,
        }
    }
}

/// The 16-bit value whose little-endian bytes are `lo`, `hi`.
pub open spec fn le_u16(lo: u8, hi: u8) -> int {
    lo as int + 256 * (hi as int)
}

/// The keys of a key-list payload: its bytes strictly before the first zero byte.
pub open spec fn keys_of(payload: Seq<u8>) -> Seq<u8> {
    payload.subrange(0, len_before_zero(payload))
}

/// The encoded goto field of a key-list payload: the little-endian value of the
/// first two of its last three bytes.
pub open spec fn goto_field(payload: Seq<u8>) -> int {
    le_u16(payload[payload.len() - 3], payload[payload.len() - 2])
}

/// The page a key list jumps to: none for a field of 0, else the field less one.
pub open spec fn goto_of(payload: Seq<u8>) -> Option<u16> {
    if goto_field(payload) == 0 {
        None
    } else {
        Some((goto_field(payload) - 1) as u16)
    }
}

/// The target of a page-change payload: the little-endian value of its first two bytes.
pub open spec fn target_of(payload: Seq<u8>) -> int {
    le_u16(payload[0], payload[1])
}

/// The function that a slot with mode byte `mode` and payload `payload` stands for.
/// Only the low four bits of the mode byte count; codes without a function,
/// the reserved one among them, stand for none.
pub open spec fn decode_function(mode: u8, payload: Seq<u8>) -> FunctionModel {
    let code = mode % 16;
    if code == MODE_PRESS_KEYS {
        FunctionModel::PressKeys { keys: keys_of(payload), goto: goto_of(payload) }
    } else if code == MODE_CHANGE_PAGE {
        FunctionModel::ChangePage { target_page: target_of(payload) as u16 }
    } else if code == MODE_PRESS_SPECIAL_KEY {
        FunctionModel::PressSpecialKey
    } else if code == MODE_SEND_TEXT {
        FunctionModel::SendText
    } else if code == MODE_SET_SETTING {
        FunctionModel::SetSetting
    } else if code == MODE_COMMUNICATE_TO_HOST {
        FunctionModel::CommunicateToHost
    } else {
        FunctionModel::NoFunction
    }
}

/// Mode decoding looks at the low four bits only: two mode bytes that are 16
/// apart stand for the same function of the same payload.
pub proof fn lemma_mode_decode_mod_16(mode: u8, payload: Seq<u8>)
    requires
        mode + 16 <= u8::MAX,
    ensures
        decode_function((mode + 16) as u8, payload) == decode_function(mode, payload),
{
}

/// Joins two bytes, low byte first, into a 16-bit value.
pub fn u16_from_le(lo: u8, hi: u8) -> (r: u16)
    ensures
        r == le_u16(lo, hi),
{
    let low: u16 = lo as u16;
    let high: u16 = hi as u16;
    high * 256 + low
}

impl ChangePage {
    /// Decodes the payload of a page-change slot, of which only the first
    /// two bytes count.
    pub fn decode(payload: &[u8]) -> (r: ChangePage)
        requires
            payload@.len() >= 2,
        ensures
            r.target_page == target_of(payload@),
    {
        ChangePage { target_page: u16_from_le(payload[0], payload[1]) }
    }
}

impl<'a> PressKeys<'a> {
    /// Decodes the payload of a key-list slot. The payload ends with the goto
    /// field and one more byte, so it has three bytes at least.
    pub fn decode(payload: &'a [u8]) -> (r: PressKeys<'a>)
        requires
            payload@.len() >= 3,
        ensures
            r.keys@ == keys_of(payload@),
            r.keys@ == payload@.subrange(0, r.keys@.len() as int),
            ends_before_zero(payload@, r.keys@.len() as int),
            r.goto == goto_of(payload@),
            goto_field(payload@) == 0 ==> r.goto is None,
            goto_field(payload@) > 0 ==> r.goto == Some((goto_field(payload@) - 1) as u16),
    {
        let len = payload.len();
        let last_key_index = bytes_before_zero(payload);
        let keys = &payload[0..last_key_index];
        let field = u16_from_le(payload[len - 3], payload[len - 2]);
        let goto = if field == 0 { None } else { Some(field - 1) };
        PressKeys { keys, goto }
    }
}

} // verus!
