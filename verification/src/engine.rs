//! The render engine's shared state and its command path.
//!
//! One engine owns the four filter instances and the parameter block.
//! Each filter keeps its own internal state for the engine's whole life:
//! selecting another topology only changes which instance the render path
//! consults, so coming back to a filter finds its delay registers exactly
//! as the last render through it left them.  Applying commands — however
//! many, of whatever kind — never touches any filter: coefficient
//! recomputation is a separate, explicit step that the command fold only
//! requests.

use crate::biquad::BiQuadFilter;
use crate::control::AudioCommand;
use crate::control::Parameters;
use crate::control::SelectedFilter;
use crate::control::needs_recompute;
use crate::control::spec_apply;
use crate::control::spec_apply_all;
use crate::fir::FirLowPassFilter;
use crate::svf::StateVariableFilter;
use crate::tpt::StateVariableTPTFilter;
use vstd::prelude::*;

verus! {

/// The four filter instances, one per topology, each with its own
/// persistent state.
#[derive(Clone, Copy, Debug, PartialEq, Eq, Structural)]
pub struct FilterBank {
    pub biquad: BiQuadFilter,
    pub fir: FirLowPassFilter,
    pub svf: StateVariableFilter,
    pub tpt: StateVariableTPTFilter,
}

/// The state shared between the control path and the render path: the
/// parameter block the commands mutate, and the filter bank the render
/// path reads and advances.
#[derive(Clone, Copy, Debug, PartialEq, Eq, Structural)]
pub struct EngineState {
    pub sample_rate: u32,
    pub params: Parameters,
    pub bank: FilterBank,
}

/// The engine after one command: the parameter block moves, the bank —
/// every filter's coefficients, registers and tap — stays.
pub open spec fn spec_engine_apply(e: EngineState, cmd: AudioCommand) -> EngineState {
    EngineState { params: spec_apply(e.params, cmd), ..e }
}

/// The engine after a drained batch of commands, applied first to last.
pub open spec fn spec_engine_apply_all(e: EngineState, cmds: Seq<AudioCommand>) -> EngineState {
    EngineState { params: spec_apply_all(e.params, cmds), ..e }
}

impl EngineState {
    /// Every filter of the bank was built for this engine's sample rate.
    pub open spec fn wf(&self) -> bool {
        &&& self.bank.biquad.sample_rate == self.sample_rate
        &&& self.bank.fir.sample_rate == self.sample_rate
        &&& self.bank.svf.sample_rate == self.sample_rate
        &&& self.bank.tpt.sample_rate == self.sample_rate
    }

    /// A fresh engine: default parameters and four fresh filters, all
    /// built for the given sample rate.
    pub fn new(sample_rate: u32) -> (r: Self)
        ensures
            r.wf(),
            r.sample_rate == sample_rate,
            r.params == crate::control::spec_default_parameters(),
            r.bank.biquad == crate::biquad::spec_new(sample_rate),
            r.bank.fir == crate::fir::spec_new(sample_rate),
            r.bank.svf == crate::svf::spec_new(sample_rate),
            r.bank.tpt == crate::tpt::spec_new(sample_rate),
    {
        EngineState {
            sample_rate,
            params: Parameters::new_default(),
            bank: FilterBank {
                biquad: BiQuadFilter::new(sample_rate),
                fir: FirLowPassFilter::new(sample_rate),
                svf: StateVariableFilter::new(sample_rate),
                tpt: StateVariableTPTFilter::new(sample_rate),
            },
        }
    }

    /// Apply one command to the parameter block.  No filter is touched:
    /// in particular, selecting a topology neither resets nor copies any
    /// filter's internal state.  The result says whether the active
    /// filter's coefficients must be recomputed before rendering.
    pub fn apply_command(&mut self, cmd: AudioCommand) -> (recompute: bool)
        ensures
            *final(self) == spec_engine_apply(*old(self), cmd),
            final(self).bank == old(self).bank,
            final(self).sample_rate == old(self).sample_rate,
            recompute == needs_recompute(cmd),
            old(self).wf() ==> final(self).wf(),
    {
        self.params.apply(cmd)
    }

    /// Drain a batch of commands into the parameter block, first to
    /// last, at a buffer boundary.  The bank is untouched; the result
    /// says whether any command obliges a coefficient recomputation.
    pub fn apply_pending(&mut self, cmds: &Vec<AudioCommand>) -> (recompute: bool)
        ensures
            *final(self) == spec_engine_apply_all(*old(self), cmds@),
            final(self).bank == old(self).bank,
            final(self).sample_rate == old(self).sample_rate,
            recompute == exists|i: int| 0 <= i < cmds@.len() && needs_recompute(cmds@[i]),
            old(self).wf() ==> final(self).wf(),
    {
        self.params.apply_all(cmds)
    }
}

/// Lay one rendered sample word per frame out across an interleaved
/// output buffer: slot `j` of the result belongs to frame `j / channels`
/// and receives that frame's word — mono noise broadcast identically to
/// every channel slot of its frame.
pub fn broadcast_frames(samples: &Vec<u32>, channels: usize) -> (out: Vec<u32>)
    requires
        channels >= 1,
        samples@.len() * channels <= usize::MAX,
    ensures
        out@.len() == samples@.len() * channels,
        forall|j: int|
            0 <= j < out@.len() ==> out@[j] == samples@[j / (channels as int)],
{
    let mut out: Vec<u32> = Vec::new();
    let mut i: usize = 0;
    while i < samples.len()
        invariant
            channels >= 1,
            i <= samples@.len(),
            samples@.len() * channels <= usize::MAX,
            out@.len() == i * channels,
            forall|j: int| 0 <= j < out@.len() ==> out@[j] == samples@[j / (channels as int)],
        decreases samples@.len() - i,
    {
        proof {
            assert((i + 1) * channels <= samples@.len() * channels) by (nonlinear_arith)
                requires
                    i < samples@.len(),
                    0 <= channels,
            ;
            assert(i * channels + channels == (i + 1) * channels) by (nonlinear_arith);
        }
        let s = samples[i];
        let mut c: usize = 0;
        while c < channels
            invariant
                c <= channels,
                channels >= 1,
                i < samples@.len(),
                i * channels + channels <= samples@.len() * channels <= usize::MAX,
                s == samples@[i as int],
                out@.len() == i * channels + c,
                forall|j: int| 0 <= j < out@.len() ==> out@[j] == samples@[j / (channels as int)],
            decreases channels - c,
        {
            proof {
                vstd::arithmetic::div_mod::lemma_fundamental_div_mod_converse(
                    i * channels + c,
                    channels as int,
                    i as int,
                    c as int,
                );
            }
            out.push(s);
            c = c + 1;
        }
        proof {
            assert(i * channels + channels == (i + 1) * channels) by (nonlinear_arith);
        }
        i = i + 1;
    }
    out
}

/// Switching the selected filter mid-stream preserves every filter's
/// internal state: the newly selected instance resumes from its own last
/// state, and the parameters other than the selection keep their values.
pub proof fn lemma_selection_preserves_filter_state(e: EngineState, k: SelectedFilter)
    ensures
        spec_engine_apply(e, AudioCommand::SetSelectedFilter(k)).bank == e.bank,
        spec_engine_apply(e, AudioCommand::SetSelectedFilter(k)).params.selected_filter == k,
        spec_engine_apply(e, AudioCommand::SetSelectedFilter(k)).params.volume == e.params.volume,
        spec_engine_apply(e, AudioCommand::SetSelectedFilter(k)).params.cutoff_hz
            == e.params.cutoff_hz,
        spec_engine_apply(e, AudioCommand::SetSelectedFilter(k)).params.resonance_q
            == e.params.resonance_q,
{
}

/// No batch of commands, whatever it holds, reaches any filter's
/// registers: command application and filter state are fully separated.
pub proof fn lemma_commands_preserve_filter_state(e: EngineState, cmds: Seq<AudioCommand>)
    ensures
        spec_engine_apply_all(e, cmds).bank == e.bank,
{
}

} // verus!
