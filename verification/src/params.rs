//! The ten host-automatable controls of the oscillator.
//!
//! Each control is one scalar that the host hands over as a 32-bit float in
//! `[0, 1]`. The store never computes with these values: it only moves them
//! between the host and the audio path, which applies its own physical-unit
//! mapping downstream. A cell therefore holds the raw bits of the host's
//! value as one 32-bit word, and the adapter that faces the host converts to
//! and from its float type at the boundary. The adapter also keeps each cell
//! in an atomic word, since the host writes controls concurrently with the
//! audio path reading them; no cross-control consistency is required, so the
//! index dispatch verified here is the whole of the logic.

use vstd::prelude::*;

verus! {

/// Bit pattern of the 32-bit float one half, the default of most knobs.
pub const HALF_BITS: u32 = 0x3F00_0000;

/// The control store: one cell per knob, in host index order.
pub struct EffectParameters {
    /// Knob 0: how the fixed total arm length is split between the two arms.
    pub len_ratio: u32,
    /// Knob 1: global physics scale, the mean rate of the pendulum's motion.
    pub scale: u32,
    /// Knob 2: how far oscillator 1 overrides the inner pendulum's motion.
    pub o1_amt: u32,
    /// Knob 3: how far oscillator 2 overrides the outer pendulum's motion.
    pub o2_amt: u32,
    /// Knob 4: base frequency of oscillator 1, in octaves.
    pub o1_f: u32,
    /// Knob 5: base frequency of oscillator 2, in octaves.
    pub o2_f: u32,
    /// Knob 6: fine tune of oscillator 1.
    pub o1_fine: u32,
    /// Knob 7: fine tune of oscillator 2.
    pub o2_fine: u32,
    /// Knob 8: depth of frequency modulation from oscillator 2 into 1.
    pub o2_to_o1_mod: u32,
    /// Knob 9: depth of frequency modulation from oscillator 1 into 2.
    pub o1_to_o2_mod: u32,
}

impl View for EffectParameters {
    type V = Seq<u32>;

    open spec fn view(&self) -> Seq<u32> {
        seq![
            self.len_ratio,
            self.scale,
            self.o1_amt,
            self.o2_amt,
            self.o1_f,
            self.o2_f,
            self.o1_fine,
            self.o2_fine,
            self.o2_to_o1_mod,
            self.o1_to_o2_mod,
        ]
    }
}

/// Display name of the knob at `index`, the empty string outside the ten
/// knobs.
pub open spec fn spec_parameter_name(index: int) -> Seq<char> {
    if index == 0 {
        "L1 <=> L2"@
    } else if index == 1 {
        "- <=> +"@
    } else if index == 2 {
        "O1"@
    } else if index == 3 {
        "O2"@
    } else if index == 4 {
        "F1"@
    } else if index == 5 {
        "F2"@
    } else if index == 6 {
        "F1.f"@
    } else if index == 7 {
        "F2.f"@
    } else if index == 8 {
        "M1"@
    } else if index == 9 {
        "M2"@
    } else {
        ""@
    }
}

impl Default for EffectParameters {
    /// The settings a fresh instance starts from: both arms equally long, a
    /// middling physics scale, both drive oscillators at their centre
    /// frequency and fine tune, and no drive or cross modulation at all.
    fn default() -> (d: Self)
        ensures
            d@ =~= seq![
                HALF_BITS,
                HALF_BITS,
                0u32,
                0u32,
                HALF_BITS,
                HALF_BITS,
                HALF_BITS,
                HALF_BITS,
                0u32,
                0u32,
            ],
    {
        EffectParameters {
            len_ratio: HALF_BITS,
            scale: HALF_BITS,
            o1_amt: 0,
            o2_amt: 0,
            o1_f: HALF_BITS,
            o2_f: HALF_BITS,
            o1_fine: HALF_BITS,
            o2_fine: HALF_BITS,
            o2_to_o1_mod: 0,
            o1_to_o2_mod: 0,
        }
    }
}

impl EffectParameters {
    /// Reads the control at `index`. Any index outside the ten knobs reads
    /// as zero bits (the float zero), never as an error: hosts probe unknown
    /// indices and expect a harmless default.
    pub fn get_parameter(&self, index: i32) -> (r: u32)
        ensures
            0 <= index < 10 ==> r == self@[index as int],
            !(0 <= index < 10) ==> r == 0,
    {
        match index {
            0 => self.len_ratio,
            1 => self.scale,
            2 => self.o1_amt,
            3 => self.o2_amt,
            4 => self.o1_f,
            5 => self.o2_f,
            6 => self.o1_fine,
            7 => self.o2_fine,
            8 => self.o2_to_o1_mod,
            9 => self.o1_to_o2_mod,
            _ => 0,
        }
    }

    /// Writes `val` into the control at `index`, leaving every other cell as
    /// it was. A write to an index outside the ten knobs changes nothing.
    /// The value is stored as handed over: out-of-range host values are a
    /// host contract matter and are not re-clamped here.
    pub fn set_parameter(&mut self, index: i32, val: u32)
        ensures
            0 <= index < 10 ==> final(self)@ =~= old(self)@.update(index as int, val),
            !(0 <= index < 10) ==> *final(self) == *old(self),
    {
        match index {
            0 => self.len_ratio = val,
            1 => self.scale = val,
            2 => self.o1_amt = val,
            3 => self.o2_amt = val,
            4 => self.o1_f = val,
            5 => self.o2_f = val,
            6 => self.o1_fine = val,
            7 => self.o2_fine = val,
            8 => self.o2_to_o1_mod = val,
            9 => self.o1_to_o2_mod = val,
            _ => (),
        }
    }

    /// Display name of the knob at `index`, shown by the host next to the
    /// control; the empty string for an index outside the ten knobs.
    pub fn get_parameter_name(&self, index: i32) -> (r: &'static str)
        ensures
            r@ == spec_parameter_name(index as int),
    {
        match index {
            0 => "L1 <=> L2",
            1 => "- <=> +",
            2 => "O1",
            3 => "O2",
            4 => "F1",
            5 => "F2",
            6 => "F1.f",
            7 => "F2.f",
            8 => "M1",
            9 => "M2",
            _ => "",
        }
    }
}

} // verus!
