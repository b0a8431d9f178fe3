//! Severity of a status message and the colour it is shown in.

use vstd::prelude::*;

verus! {

/// Severity of a message shown to the user.
#[allow(non_camel_case_types)]
#[derive(Clone, Copy, Debug, PartialEq, Eq, Structural)]
pub enum MessageState {
    SUCCESS,
    WARN,
    ERROR,
    INFO,
}

/// The RGB colour, as `0xRRGGBB`, that stands for each severity.
pub open spec fn embed_color_of(state: MessageState) -> u32 {
    match state {
        MessageState::SUCCESS => 0x873D48u32,
        MessageState::WARN => 0xFFA53Fu32,
        MessageState::ERROR => 0xCC3300u32,
        MessageState::INFO => 0x1434A4u32,
    }
}

/// Looks up the colour of a severity.
pub fn get_embed_color(message_state: &MessageState) -> (color: u32)
    ensures
        color == embed_color_of(*message_state),
{
    match message_state {
        MessageState::SUCCESS => 0x873D48u32,
        MessageState::WARN => 0xFFA53Fu32,
        MessageState::ERROR => 0xCC3300u32,
        MessageState::INFO => 0x1434A4u32,
    }
}

} // verus!
