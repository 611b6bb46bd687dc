use vstd::prelude::*;

verus! {

/// Reader state bit meaning "no card in the reader" (pcsc-lite `SCARD_STATE_EMPTY`).
pub const PCSC_SCARD_STATE_EMPTY: u64 = 0x0010;

/// Reader state bit meaning "a card is in the reader" (pcsc-lite `SCARD_STATE_PRESENT`).
pub const PCSC_SCARD_STATE_PRESENT: u64 = 0x0020;

/// What the reader monitor reports about the card slot.
#[derive(Debug, Copy, Clone, PartialEq, Eq, Structural)]
pub enum PcscState {
    EMPTY,
    PRESENT,
    UNKNOWN,
}

/// The state that a reader state bit mask stands for: a present card wins
/// over an empty slot, and a mask with neither bit is unknown.
pub open spec fn state_of_mask(state: u64) -> PcscState {
    if state & PCSC_SCARD_STATE_PRESENT != 0 {
        PcscState::PRESENT
    } else if state & PCSC_SCARD_STATE_EMPTY != 0 {
        PcscState::EMPTY
    } else {
        PcscState::UNKNOWN
    }
}

/// A mask with the present bit (0x20) is a present card, whatever its other
/// bits; one with the empty bit (0x10) but not the present bit is an empty
/// slot; only a mask with neither bit is unknown.
pub proof fn lemma_mask_bits_decide_state(state: u64)
    ensures
        state & 0x0020u64 != 0 ==> state_of_mask(state) == PcscState::PRESENT,
        state & 0x0020u64 == 0 && state & 0x0010u64 != 0 ==> state_of_mask(state) == PcscState::EMPTY,
        state & 0x0020u64 == 0 && state & 0x0010u64 == 0 ==> state_of_mask(state) == PcscState::UNKNOWN,
{
}

impl PcscState {
    /// Classifies the state bit mask that the reader monitor hands over.
    pub fn from_mask(state: u64) -> (res: PcscState)
        ensures
            res == state_of_mask(state),
            state & 0x0020u64 != 0 ==> res == PcscState::PRESENT,
            state & 0x0020u64 == 0 && state & 0x0010u64 != 0 ==> res == PcscState::EMPTY,
            state & 0x0020u64 == 0 && state & 0x0010u64 == 0 ==> res == PcscState::UNKNOWN,
    {
        let mut scard_state = PcscState::UNKNOWN;
        if (state & PCSC_SCARD_STATE_EMPTY) != 0 {
            scard_state = PcscState::EMPTY;
        }
        if (state & PCSC_SCARD_STATE_PRESENT) != 0 {
            scard_state = PcscState::PRESENT;
        }
        scard_state
    }
}

} // verus!
