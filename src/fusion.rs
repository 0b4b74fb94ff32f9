//! The pitch fusion engine: ribbon and note stream to four control voltages
//! and a gate, one output cycle at a time.
//!
//! The quantizer is a collaborator: a cycle first hands it
//! [`quantizer_input`], then passes what it returned to [`fuse`].

use crate::hw::{HALF_SEMITONE, LEVEL_ONE, SEMITONE};
use vstd::arithmetic::div_mod::lemma_div_is_ordered;
use vstd::arithmetic::mul::lemma_mul_inequality;
use vstd::prelude::*;

verus! {

/// The number of semitones the ribbon spans, four octaves.
pub const MAIN_RIBBON_NUM_SEMITONES: i64 = 49;

/// Voltage of the ribbon's top end: its span plus one semitone, so that the
/// extreme position reliably reaches the top note.
pub const MAIN_RIBBON_MAX_VOUT: i64 = MAIN_RIBBON_NUM_SEMITONES * SEMITONE + SEMITONE;

/// How far a full pitch bend moves the note: two semitones.
pub const PITCH_BEND_RANGE: i64 = 2 * SEMITONE;

/// Bound on the magnitude of the voltages handed in by collaborators.
pub const LEVEL_LIMIT: i64 = 1024 * LEVEL_ONE;

/// The quantization policy of the VCO channel.
#[derive(Clone, Copy, Debug, PartialEq, Eq, Structural)]
pub enum PitchMode {
    HardQuantize,
    Smooth,
    Assist,
}

/// What the semitone quantizer returned: the nearest semitone's voltage and
/// the signed remainder of the input beyond it.
#[derive(Clone, Copy, Debug, PartialEq, Eq, Structural)]
pub struct QuantizedSample {
    pub stairstep: i64,
    pub fraction: i64,
}

impl QuantizedSample {
    pub open spec fn wf(self) -> bool {
        -LEVEL_LIMIT <= self.stairstep <= LEVEL_LIMIT && -LEVEL_LIMIT <= self.fraction <= LEVEL_LIMIT
    }
}

/// The front panel's attenuation of each output channel, in `[0, LEVEL_ONE]`.
#[derive(Clone, Copy, Debug, PartialEq, Eq, Structural)]
pub struct ControlLevels {
    pub vco: i64,
    pub modosc: i64,
    pub vcf: i64,
    pub delay: i64,
}

impl ControlLevels {
    pub open spec fn wf(self) -> bool {
        0 <= self.vco <= LEVEL_ONE && 0 <= self.modosc <= LEVEL_ONE && 0 <= self.vcf <= LEVEL_ONE
            && 0 <= self.delay <= LEVEL_ONE
    }
}

/// The state of the note stream: note number, pitch bend in
/// `[-LEVEL_ONE, LEVEL_ONE]`, and gate.
#[derive(Clone, Copy, Debug, PartialEq, Eq, Structural)]
pub struct NoteState {
    pub note_num: u8,
    pub pitch_bend: i64,
    pub gate: bool,
}

/// Everything one output cycle reads besides the quantizer and the press offset.
#[derive(Clone, Copy, Debug, PartialEq, Eq, Structural)]
pub struct CycleInputs {
    /// Filtered ribbon position in `[0, LEVEL_ONE]`.
    pub ribbon: i64,
    pub finger_pressing: bool,
    pub finger_just_pressed: bool,
    pub note: NoteState,
    pub levels: ControlLevels,
    pub mode: PitchMode,
}

impl CycleInputs {
    pub open spec fn wf(self) -> bool {
        &&& 0 <= self.ribbon <= LEVEL_ONE
        &&& -LEVEL_ONE <= self.note.pitch_bend <= LEVEL_ONE
        &&& self.levels.wf()
    }
}

/// The ribbon's share of each output channel, before the VCO mode is applied.
#[derive(Clone, Copy, Debug, PartialEq, Eq, Structural)]
pub struct RibbonShares {
    pub vco: i64,
    pub modosc: i64,
    pub vcf: i64,
    pub delay: i64,
}

/// What one output cycle writes.
#[derive(Clone, Copy, Debug, PartialEq, Eq, Structural)]
pub struct CvOutputs {
    pub vco: i64,
    pub modosc: i64,
    pub vcf: i64,
    pub delay: i64,
    pub gate: bool,
}

/// `v * num / den`, rounded toward zero.
pub open spec fn scaled(v: int, num: int, den: int) -> int {
    if v >= 0 {
        v * num / den
    } else {
        -((-v) * num / den)
    }
}

pub open spec fn attenuated(v: int, level: int) -> int {
    scaled(v, level, LEVEL_ONE as int)
}

pub open spec fn ribbon_pitch(ribbon: int) -> int {
    ribbon * MAIN_RIBBON_MAX_VOUT / (LEVEL_ONE as int)
}

pub open spec fn midi_pitch(note: NoteState) -> int {
    note.note_num * SEMITONE + scaled(note.pitch_bend as int, PITCH_BEND_RANGE as int, LEVEL_ONE as int)
}

pub open spec fn shares_of(inp: CycleInputs) -> RibbonShares {
    let p = ribbon_pitch(inp.ribbon as int);
    RibbonShares {
        vco: attenuated(p, inp.levels.vco as int) as i64,
        modosc: attenuated(p, inp.levels.modosc as int) as i64,
        vcf: attenuated(p, inp.levels.vcf as int) as i64,
        delay: attenuated(p, inp.levels.delay as int) as i64,
    }
}

/// The VCO's ribbon voltage under `mode`.
pub open spec fn vco_ribbon_of(
    mode: PitchMode,
    just_pressed: bool,
    share: int,
    q: QuantizedSample,
    offset: int,
) -> int {
    match mode {
        PitchMode::HardQuantize => q.stairstep as int,
        PitchMode::Smooth => share - HALF_SEMITONE,
        PitchMode::Assist => if just_pressed {
            q.stairstep as int
        } else {
            share - offset
        },
    }
}

/// The press offset after a cycle: captured on the press edge in Assist mode.
pub open spec fn offset_after(mode: PitchMode, just_pressed: bool, q: QuantizedSample, offset: int) -> int {
    if mode == PitchMode::Assist && just_pressed {
        q.fraction as int
    } else {
        offset
    }
}

pub open spec fn outputs_of(inp: CycleInputs, q: QuantizedSample, offset: int) -> CvOutputs {
    let c = shares_of(inp);
    let m = midi_pitch(inp.note);
    CvOutputs {
        vco: (vco_ribbon_of(inp.mode, inp.finger_just_pressed, c.vco as int, q, offset) + m) as i64,
        modosc: (c.modosc + attenuated(m, inp.levels.modosc as int)) as i64,
        vcf: (c.vcf + attenuated(m, inp.levels.vcf as int)) as i64,
        delay: (c.delay + attenuated(m, inp.levels.delay as int)) as i64,
        gate: inp.finger_pressing || inp.note.gate,
    }
}

/// `scale_toward_zero(v, num, den)` is `v * num / den` rounded toward zero.
pub fn scale_toward_zero(v: i64, num: i64, den: i64) -> (r: i64)
    requires
        -LEVEL_LIMIT <= v <= LEVEL_LIMIT,
        0 <= num <= den <= LEVEL_ONE,
        den > 0,
    ensures
        r == scaled(v as int, num as int, den as int),
        v >= 0 ==> 0 <= r <= v,
        v < 0 ==> v <= r <= 0,
{
    let mag: i64 = if v >= 0 {
        v
    } else {
        -v
    };
    proof {
        lemma_mul_inequality(num as int, den as int, mag as int);
        lemma_mul_inequality(0, num as int, mag as int);
        assert(num * mag == mag * num) by (nonlinear_arith);
        assert(den * mag == mag * den) by (nonlinear_arith);
        lemma_div_is_ordered(mag * num, mag * den, den as int);
        lemma_div_is_ordered(0, mag * num, den as int);
        assert(mag * den / (den as int) == mag) by (nonlinear_arith)
            requires
                den > 0,
        ;
        assert(mag * num <= LEVEL_LIMIT * LEVEL_ONE) by (nonlinear_arith)
            requires
                0 <= mag <= LEVEL_LIMIT,
                0 <= num <= LEVEL_ONE,
        ;
    }
    let q: i64 = mag * num / den;
    if v >= 0 {
        q
    } else {
        -q
    }
}

/// `attenuate(v, level)` is `v` scaled by the front-panel level `level`.
pub fn attenuate(v: i64, level: i64) -> (r: i64)
    requires
        -LEVEL_LIMIT <= v <= LEVEL_LIMIT,
        0 <= level <= LEVEL_ONE,
    ensures
        r == attenuated(v as int, level as int),
        v >= 0 ==> 0 <= r <= v,
        v < 0 ==> v <= r <= 0,
{
    scale_toward_zero(v, level, LEVEL_ONE)
}

/// `ribbon_to_dac8164_1v_per_oct(r)` is the ribbon position `r` scaled to
/// 1 volt per octave over the ribbon's span.
pub fn ribbon_to_dac8164_1v_per_oct(ribbon: i64) -> (r: i64)
    requires
        0 <= ribbon <= LEVEL_ONE,
    ensures
        r == ribbon_pitch(ribbon as int),
        0 <= r <= MAIN_RIBBON_MAX_VOUT,
{
    proof {
        lemma_mul_inequality(ribbon as int, LEVEL_ONE as int, MAIN_RIBBON_MAX_VOUT as int);
        lemma_div_is_ordered(
            ribbon * MAIN_RIBBON_MAX_VOUT,
            LEVEL_ONE * MAIN_RIBBON_MAX_VOUT,
            LEVEL_ONE as int,
        );
        lemma_div_is_ordered(0, ribbon * MAIN_RIBBON_MAX_VOUT, LEVEL_ONE as int);
        assert(LEVEL_ONE * MAIN_RIBBON_MAX_VOUT / (LEVEL_ONE as int) == MAIN_RIBBON_MAX_VOUT)
            by (nonlinear_arith);
    }
    ribbon * MAIN_RIBBON_MAX_VOUT / LEVEL_ONE
}

/// `note_num_to_dac8164_1v_per_oct(n)` is the note number `n` at 1 volt per octave.
pub fn note_num_to_dac8164_1v_per_oct(note_num: u8) -> (r: i64)
    ensures
        r == note_num * SEMITONE,
{
    (note_num as i64) * SEMITONE
}

/// The note stream's pitch: the note plus the pitch bend, at 1 volt per octave.
pub fn note_pitch(note: &NoteState) -> (r: i64)
    requires
        -LEVEL_ONE <= note.pitch_bend <= LEVEL_ONE,
    ensures
        r == midi_pitch(*note),
        -PITCH_BEND_RANGE <= r <= 255 * SEMITONE + PITCH_BEND_RANGE,
{
    let bend: i64 = scale_toward_zero(note.pitch_bend, PITCH_BEND_RANGE, LEVEL_ONE);
    proof {
        assert(-PITCH_BEND_RANGE <= bend <= PITCH_BEND_RANGE) by (nonlinear_arith)
            requires
                bend == scaled(note.pitch_bend as int, PITCH_BEND_RANGE as int, LEVEL_ONE as int),
                -LEVEL_ONE <= note.pitch_bend <= LEVEL_ONE,
        {
            let mag: int = if note.pitch_bend >= 0 { note.pitch_bend as int } else { -note.pitch_bend };
            lemma_mul_inequality(mag, LEVEL_ONE as int, PITCH_BEND_RANGE as int);
            lemma_div_is_ordered(mag * PITCH_BEND_RANGE, LEVEL_ONE * PITCH_BEND_RANGE, LEVEL_ONE as int);
            lemma_div_is_ordered(0, mag * PITCH_BEND_RANGE, LEVEL_ONE as int);
        }
    }
    note_num_to_dac8164_1v_per_oct(note.note_num) + bend
}

/// The ribbon's share of each channel: the ribbon at 1 volt per octave,
/// attenuated by each channel's front-panel level.
pub fn ribbon_shares(inp: &CycleInputs) -> (r: RibbonShares)
    requires
        inp.wf(),
    ensures
        r == shares_of(*inp),
        0 <= r.vco <= MAIN_RIBBON_MAX_VOUT,
        0 <= r.modosc <= MAIN_RIBBON_MAX_VOUT,
        0 <= r.vcf <= MAIN_RIBBON_MAX_VOUT,
        0 <= r.delay <= MAIN_RIBBON_MAX_VOUT,
{
    let p: i64 = ribbon_to_dac8164_1v_per_oct(inp.ribbon);
    RibbonShares {
        vco: attenuate(p, inp.levels.vco),
        modosc: attenuate(p, inp.levels.modosc),
        vcf: attenuate(p, inp.levels.vcf),
        delay: attenuate(p, inp.levels.delay),
    }
}

/// The value this cycle hands to the quantizer: the VCO's ribbon share plus
/// half a semitone, which centres the notes under the finger.
pub fn quantizer_input(inp: &CycleInputs) -> (r: i64)
    requires
        inp.wf(),
    ensures
        r == shares_of(*inp).vco + HALF_SEMITONE,
{
    let shares = ribbon_shares(inp);
    shares.vco + HALF_SEMITONE
}

/// `select_vco_ribbon(m, p, s, q, o)` is the VCO's ribbon voltage under pitch
/// mode `m`, given whether the finger was just pressed `p`, the VCO's ribbon
/// share `s`, the quantizer's result `q` for it and the press offset `o`.
///
/// In Assist mode a press captures the quantizer's remainder into the offset
/// and yields the stairstep; every later cycle yields the share minus the
/// captured offset. The offset changes nowhere else.
pub fn select_vco_ribbon(
    mode: PitchMode,
    just_pressed: bool,
    share: i64,
    q: QuantizedSample,
    offset: &mut i64,
) -> (r: i64)
    requires
        q.wf(),
        -LEVEL_LIMIT <= *old(offset) <= LEVEL_LIMIT,
        0 <= share <= MAIN_RIBBON_MAX_VOUT,
    ensures
        r == vco_ribbon_of(mode, just_pressed, share as int, q, *old(offset) as int),
        *final(offset) == offset_after(mode, just_pressed, q, *old(offset) as int),
        -LEVEL_LIMIT <= *final(offset) <= LEVEL_LIMIT,
{
    match mode {
        PitchMode::HardQuantize => q.stairstep,
        PitchMode::Smooth => share - HALF_SEMITONE,
        PitchMode::Assist => {
            if just_pressed {
                *offset = q.fraction;
                q.stairstep
            } else {
                share - *offset
            }
        },
    }
}

/// `fuse(inp, q, offset)` computes one output cycle, where `q` is the
/// quantization of [`quantizer_input`].
///
/// VCO: its ribbon voltage under the pitch mode, plus the note stream's pitch
/// at full level. Other channels: their ribbon share, plus the note stream's
/// pitch attenuated by that channel's level. Gate: on while the finger presses
/// or the note stream holds a note.
pub fn fuse(inp: &CycleInputs, q: QuantizedSample, offset: &mut i64) -> (r: CvOutputs)
    requires
        inp.wf(),
        q.wf(),
        -LEVEL_LIMIT <= *old(offset) <= LEVEL_LIMIT,
    ensures
        r == outputs_of(*inp, q, *old(offset) as int),
        *final(offset) == offset_after(inp.mode, inp.finger_just_pressed, q, *old(offset) as int),
        -LEVEL_LIMIT <= *final(offset) <= LEVEL_LIMIT,
{
    let shares = ribbon_shares(inp);
    let vco_ribbon: i64 = select_vco_ribbon(inp.mode, inp.finger_just_pressed, shares.vco, q, offset);
    let m: i64 = note_pitch(&inp.note);
    CvOutputs {
        vco: vco_ribbon + m,
        modosc: shares.modosc + attenuate(m, inp.levels.modosc),
        vcf: shares.vcf + attenuate(m, inp.levels.vcf),
        delay: shares.delay + attenuate(m, inp.levels.delay),
        gate: inp.finger_pressing || inp.note.gate,
    }
}

/// In Assist mode, over a press, a hold, a release and a second press, the
/// offset is captured from the quantizer on each press and kept in between;
/// a press yields the stairstep, and the cycles after it yield the ribbon
/// share minus the captured offset, which is the Smooth-mode value shifted by
/// half a semitone less that offset.
pub proof fn lemma_assist_press_hold_release_press(
    offset0: int,
    s1: int,
    q1: QuantizedSample,
    s2: int,
    q2: QuantizedSample,
    s3: int,
    q3: QuantizedSample,
    s4: int,
    q4: QuantizedSample,
)
    ensures
        ({
            let a = PitchMode::Assist;
            let o1 = offset_after(a, true, q1, offset0);
            let o2 = offset_after(a, false, q2, o1);
            let o3 = offset_after(a, false, q3, o2);
            let o4 = offset_after(a, true, q4, o3);
            &&& o1 == q1.fraction && o2 == q1.fraction && o3 == q1.fraction && o4 == q4.fraction
            &&& vco_ribbon_of(a, true, s1, q1, offset0) == q1.stairstep
            &&& vco_ribbon_of(a, false, s2, q2, o1) == s2 - q1.fraction
            &&& vco_ribbon_of(a, false, s3, q3, o2) == s3 - q1.fraction
            &&& vco_ribbon_of(a, true, s4, q4, o3) == q4.stairstep
            &&& vco_ribbon_of(a, false, s2, q2, o1) - vco_ribbon_of(PitchMode::Smooth, false, s2, q2, o1)
                == HALF_SEMITONE - q1.fraction
        }),
{
}

/// Outside Assist mode the press offset never changes, and in Assist mode it
/// changes only on a press.
pub proof fn lemma_offset_changes_only_on_press(
    mode: PitchMode,
    just_pressed: bool,
    q: QuantizedSample,
    offset: int,
)
    ensures
        offset_after(mode, just_pressed, q, offset) != offset ==> mode == PitchMode::Assist
            && just_pressed,
{
}

} // verus!
