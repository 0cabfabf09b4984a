//! Parameter state and the command path that mutates it.
//!
//! The control surface never touches filter internals directly: it sends
//! `AudioCommand` values over a non-blocking channel, and the render path
//! drains them at a buffer boundary and folds them into its `Parameters`.
//! Volume, cutoff and resonance travel as opaque 32-bit words (IEEE-754
//! single-precision bit patterns to the embedding application); the library
//! only stores and routes them, so applying a command is pure data movement
//! and is specified exactly, field by field.

use vstd::prelude::*;

verus! {

/// Which of the four filter topologies is active.
#[derive(Clone, Copy, Debug, PartialEq, Eq, Structural)]
pub enum SelectedFilter {
    BiQuad,
    FirLowPass,
    StateVariable,
    StateVariableTPT,
}

/// A parameter-change request from the control surface.  Immutable once
/// built, consumed at most once by the render path.  Numeric payloads are
/// single-precision bit patterns.
#[derive(Clone, Copy, Debug, PartialEq, Eq, Structural)]
pub enum AudioCommand {
    SetVolume(u32),
    SetFilterFreq(u32),
    SetResonance(u32),
    SetSelectedFilter(SelectedFilter),
}

/// Bit pattern of the default volume, three tenths.
pub const DEFAULT_VOLUME: u32 = 0x3E99999A;

/// Bit pattern of the default cutoff frequency, one thousand hertz.
pub const DEFAULT_CUTOFF_HZ: u32 = 0x447A0000;

/// Bit pattern of the default resonance, the Butterworth quality factor
/// (one over the square root of two).
pub const DEFAULT_RESONANCE_Q: u32 = 0x3F34FDF4;

/// The parameter state the engine starts from: default volume, cutoff
/// and resonance, with the state-variable filter selected.
pub open spec fn spec_default_parameters() -> Parameters {
    Parameters {
        volume: DEFAULT_VOLUME,
        cutoff_hz: DEFAULT_CUTOFF_HZ,
        resonance_q: DEFAULT_RESONANCE_Q,
        selected_filter: SelectedFilter::StateVariable,
    }
}

/// The shared parameter state read by the render path and the analyzer.
/// Mutated only by applying queued commands; the numeric fields are
/// single-precision bit patterns that the library never interprets.
#[derive(Clone, Copy, Debug, PartialEq, Eq, Structural)]
pub struct Parameters {
    pub volume: u32,
    pub cutoff_hz: u32,
    pub resonance_q: u32,
    pub selected_filter: SelectedFilter,
}

/// The parameter state a command leaves behind: each command variant
/// replaces exactly one field and leaves the other three alone.
pub open spec fn spec_apply(p: Parameters, cmd: AudioCommand) -> Parameters {
    match cmd {
        AudioCommand::SetVolume(v) => Parameters { volume: v, ..p },
        AudioCommand::SetFilterFreq(c) => Parameters { cutoff_hz: c, ..p },
        AudioCommand::SetResonance(q) => Parameters { resonance_q: q, ..p },
        AudioCommand::SetSelectedFilter(k) => Parameters { selected_filter: k, ..p },
    }
}

/// The parameter state after a whole batch of commands, applied first to
/// last.
pub open spec fn spec_apply_all(p: Parameters, cmds: Seq<AudioCommand>) -> Parameters
    decreases cmds.len(),
{
    if cmds.len() == 0 {
        p
    } else {
        spec_apply_all(spec_apply(p, cmds[0]), cmds.drop_first())
    }
}

/// Whether a command obliges the render path to recompute the active
/// filter's coefficients: exactly the cutoff and resonance changes do.
pub open spec fn needs_recompute(cmd: AudioCommand) -> bool {
    match cmd {
        AudioCommand::SetFilterFreq(_) => true,
        AudioCommand::SetResonance(_) => true,
        _ => false,
    }
}

/// Appending one command to a batch applies it after the rest.
pub proof fn lemma_apply_all_snoc(p: Parameters, cmds: Seq<AudioCommand>, cmd: AudioCommand)
    ensures
        spec_apply_all(p, cmds.push(cmd)) == spec_apply(spec_apply_all(p, cmds), cmd),
    decreases cmds.len(),
{
    if cmds.len() == 0 {
        assert(cmds.push(cmd)[0] == cmd);
        assert(cmds.push(cmd).drop_first() =~= Seq::<AudioCommand>::empty());
        assert(spec_apply_all(spec_apply(p, cmd), Seq::<AudioCommand>::empty()) == spec_apply(
            p,
            cmd,
        ));
    } else {
        assert(cmds.push(cmd)[0] == cmds[0]);
        assert(cmds.push(cmd).drop_first() =~= cmds.drop_first().push(cmd));
        lemma_apply_all_snoc(spec_apply(p, cmds[0]), cmds.drop_first(), cmd);
    }
}

impl Parameters {
    /// The state the engine starts from: default volume, cutoff and
    /// resonance, with the state-variable filter selected.
    pub fn new_default() -> (r: Self)
        ensures
            r == spec_default_parameters(),
            r.volume == DEFAULT_VOLUME,
            r.cutoff_hz == DEFAULT_CUTOFF_HZ,
            r.resonance_q == DEFAULT_RESONANCE_Q,
            r.selected_filter == SelectedFilter::StateVariable,
    {
        Parameters {
            volume: DEFAULT_VOLUME,
            cutoff_hz: DEFAULT_CUTOFF_HZ,
            resonance_q: DEFAULT_RESONANCE_Q,
            selected_filter: SelectedFilter::StateVariable,
        }
    }

    /// Apply one command; the result says whether the caller must
    /// recompute the active filter's coefficients before rendering.
    pub fn apply(&mut self, cmd: AudioCommand) -> (recompute: bool)
        ensures
            *final(self) == spec_apply(*old(self), cmd),
            recompute == needs_recompute(cmd),
    {
        match cmd {
            AudioCommand::SetVolume(v) => {
                self.volume = v;
                false
            }
            AudioCommand::SetFilterFreq(c) => {
                self.cutoff_hz = c;
                true
            }
            AudioCommand::SetResonance(q) => {
                self.resonance_q = q;
                true
            }
            AudioCommand::SetSelectedFilter(k) => {
                self.selected_filter = k;
                false
            }
        }
    }

    /// Fold a drained batch of commands into the parameters, first to
    /// last; the result says whether any of them obliges a coefficient
    /// recomputation.
    pub fn apply_all(&mut self, cmds: &Vec<AudioCommand>) -> (recompute: bool)
        ensures
            *final(self) == spec_apply_all(*old(self), cmds@),
            recompute == exists|i: int| 0 <= i < cmds@.len() && needs_recompute(cmds@[i]),
    {
        let ghost p0: Parameters = *self;
        let mut recompute: bool = false;
        let mut i: usize = 0;
        while i < cmds.len()
            invariant
                i <= cmds@.len(),
                *self == spec_apply_all(p0, cmds@.take(i as int)),
                recompute == exists|j: int| 0 <= j < i && needs_recompute(cmds@[j]),
            decreases cmds@.len() - i,
        {
            let r = self.apply(cmds[i]);
            proof {
                lemma_apply_all_snoc(p0, cmds@.take(i as int), cmds@[i as int]);
                assert(cmds@.take(i as int).push(cmds@[i as int]) =~= cmds@.take(i + 1));
            }
            recompute = recompute || r;
            i = i + 1;
        }
        proof {
            assert(cmds@.take(cmds@.len() as int) =~= cmds@);
        }
        recompute
    }
}

} // verus!
