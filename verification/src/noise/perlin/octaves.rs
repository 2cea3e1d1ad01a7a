use vstd::prelude::*;
use crate::noise::perlin::error::NoiseError;

verus! {

/// What a pass over the tile does with the samples that are already there.
#[derive(Clone, Copy, Debug, PartialEq, Eq, Structural)]
pub enum PassMode {
    /// The pass overwrites the tile: it is the first one.
    Initialize,
    /// The pass adds to what earlier passes left.
    Accumulate,
}

/// The passes of one evaluation, one per octave, in order.
///
/// An evaluation has at least one octave. Its first pass initialises the
/// tile and every later pass accumulates into it.
pub struct OctavePasses {
    count: usize,
    done: usize,
}

impl OctavePasses {
    /// Number of octaves of the evaluation.
    pub closed spec fn spec_count(&self) -> usize {
        self.count
    }

    /// Number of passes handed out so far.
    pub closed spec fn spec_done(&self) -> usize {
        self.done
    }

    /// There is at least one octave, and no more passes were handed out
    /// than there are octaves.
    #[verifier::type_invariant]
    pub open spec fn wf(&self) -> bool {
        1 <= self.spec_count() && self.spec_done() <= self.spec_count()
    }

    /// The passes of an evaluation with `octave_count` octaves. Fails
    /// exactly when there is no octave; nothing has been written then.
    pub fn new(octave_count: usize) -> (made: Result<OctavePasses, NoiseError>)
        ensures
            made is Ok <==> octave_count >= 1,
            made matches Ok(passes) ==> passes.wf() && passes.spec_count() == octave_count
                && passes.spec_done() == 0,
            made matches Err(e) ==> e == NoiseError::InvalidParameter,
    {
        if octave_count == 0 {
            Err(NoiseError::InvalidParameter)
        } else {
            Ok(OctavePasses { count: octave_count, done: 0 })
        }
    }

    /// Number of octaves of the evaluation.
    #[verifier::when_used_as_spec(spec_count)]
    pub fn count(&self) -> (count: usize)
        ensures
            count == self.spec_count(),
    {
        self.count
    }

    /// Number of passes handed out so far; the index of the octave that
    /// comes next.
    #[verifier::when_used_as_spec(spec_done)]
    pub fn done(&self) -> (done: usize)
        ensures
            done == self.spec_done(),
    {
        self.done
    }

    /// Hands out the next pass, if there is one: the first initialises, the
    /// others accumulate.
    pub fn next_pass(&mut self) -> (pass: Option<PassMode>)
        ensures
            final(self).wf(),
            final(self).spec_count() == old(self).spec_count(),
            pass is None <==> old(self).spec_done() == old(self).spec_count(),
            pass is None ==> final(self).spec_done() == old(self).spec_done(),
            pass is Some ==> final(self).spec_done() == old(self).spec_done() + 1,
            pass == Some(PassMode::Initialize) <==> old(self).spec_done() == 0,
    {
        proof {
            use_type_invariant(&*self);
        }
        if self.done == self.count {
            None
        } else if self.done == 0 {
            self.done = 1;
            Some(PassMode::Initialize)
        } else {
            self.done = self.done + 1;
            Some(PassMode::Accumulate)
        }
    }
}

} // verus!
