//! The audio callback bridge: what happens once per render cycle between the
//! parameter model, the synthesis engine and the host's output buffer.
//!
//! A cycle first tells the engine which parameters changed since the last
//! cycle, then hands one rendered buffer to the host. The engine calls
//! themselves are made by the caller; the bridge decides what is written and
//! what is copied.

use vstd::prelude::*;
use crate::model::{lemma_changed_prefix, Model, ParameterMapping, PARAMETER_COUNT};
use crate::voice::TRIGGER_SLOT;

verus! {

/// How many parameter slots the engine holds: the two of the voice tracker
/// and one for each parameter of the model.
pub const ENGINE_SLOTS: usize = 7;

/// Something that went wrong in a cycle and has to be reported.
#[derive(Copy, Clone, Debug, PartialEq, Eq)]
pub enum Diagnostic {
    /// The engine had no rendered buffer ready. Nothing can be done about it
    /// inside the cycle.
    FatalRealtime,
    /// The rendered buffer does not have the length the host asked for. The
    /// cycle stays silent.
    SizeMismatch { rendered: usize, requested: usize },
}

/// How the buffer exchange of one cycle ended.
#[derive(Copy, Clone, Debug, PartialEq, Eq)]
pub struct Exchange {
    /// The rendered samples were copied to the output.
    pub copied: bool,
    /// A buffer was taken from the engine and has to go back to it.
    pub requeue: bool,
    /// What has to be reported, if anything.
    pub diagnostic: Option<Diagnostic>,
}

/// The outcome of exchanging a rendered buffer of the given length, if there
/// is one, for an output of `requested` samples.
pub open spec fn exchange_outcome(rendered: Option<nat>, requested: nat) -> Exchange {
    match rendered {
        None => Exchange {
            copied: false,
            requeue: false,
            diagnostic: Some(Diagnostic::FatalRealtime),
        },
        Some(len) => if len == requested {
            Exchange { copied: true, requeue: true, diagnostic: None }
        } else {
            Exchange {
                copied: false,
                requeue: true,
                diagnostic: Some(
                    Diagnostic::SizeMismatch {
                        rendered: len as usize,
                        requested: requested as usize,
                    },
                ),
            }
        },
    }
}

/// The length of the rendered buffer, if there is one.
pub open spec fn rendered_len<T>(ready: Option<&[T]>) -> Option<nat> {
    match ready {
        None => None,
        Some(rendered) => Some(rendered@.len()),
    }
}

/// Keeps the model as it stood at the last cycle.
#[derive(Copy, Clone, Debug)]
pub struct Bridge {
    prev_model: Model,
}

impl Bridge {
    /// The model as it stood when the last cycle began.
    pub closed spec fn snapshot(&self) -> Model {
        self.prev_model
    }

    /// A bridge whose engine already holds every value of `initial`.
    pub fn new(initial: Model) -> (bridge: Bridge)
        ensures
            bridge.snapshot() == initial,
    {
        Bridge { prev_model: initial }
    }

    /// Begins a cycle: writes the parameters of `current` that changed since
    /// the last cycle to the front of `writes`, each with the engine slot it
    /// goes to, returns how many there are, and keeps `current` as the new
    /// snapshot. Every slot written is an engine slot past the two of the
    /// voice tracker. Nothing is allocated.
    pub fn sync(
        &mut self,
        current: Model,
        writes: &mut [ParameterMapping; PARAMETER_COUNT],
    ) -> (count: usize)
        ensures
            count <= PARAMETER_COUNT,
            count == current.spec_diff(old(self).snapshot()).len(),
            final(writes)@.take(count as int) == current.spec_diff(old(self).snapshot()),
            forall|i: int|
                count <= i < PARAMETER_COUNT ==> final(writes)@[i] == old(writes)@[i],
            forall|j: int|
                0 <= j < count ==> TRIGGER_SLOT < (#[trigger] final(writes)@[j]).0 < ENGINE_SLOTS,
            final(self).snapshot() == current,
    {
        let count = current.diff_into(self.prev_model, writes);
        proof {
            let map = current.spec_parameter_map();
            let diff = current.spec_diff(self.prev_model);
            lemma_changed_prefix(
                map,
                self.prev_model.spec_parameter_map(),
                PARAMETER_COUNT as nat,
            );
            assert forall|j: int| 0 <= j < count implies TRIGGER_SLOT < (#[trigger] writes@[j]).0
                < ENGINE_SLOTS by {
                assert(writes@[j] == writes@.take(count as int)[j]);
                let i = choose|i: int|
                    0 <= i < PARAMETER_COUNT && #[trigger] map[i] == diff[j] && map[i].1
                        != self.prev_model.spec_parameter_map()[i].1;
                assert(TRIGGER_SLOT < map[i].0 < ENGINE_SLOTS);
            }
        }
        self.prev_model = current;
        count
    }
}

/// Hands the rendered buffer to the host. Where the buffer has exactly as
/// many samples as the output, the output becomes a verbatim copy of it.
/// Where it has not, or where there is no buffer, the output is left as it
/// was and the outcome carries exactly one diagnostic. A buffer that was
/// taken goes back to the engine whether or not it was copied.
pub fn exchange<T: Copy>(ready: Option<&[T]>, output: &mut [T]) -> (outcome: Exchange)
    ensures
        outcome == exchange_outcome(rendered_len(ready), old(output)@.len()),
        outcome.copied ==> final(output)@ == ready.unwrap()@,
        !outcome.copied ==> final(output)@ == old(output)@,
{
    match ready {
        None => Exchange {
            copied: false,
            requeue: false,
            diagnostic: Some(Diagnostic::FatalRealtime),
        },
        Some(rendered) => {
            let n = rendered.len();
            let requested = output.len();
            if n == requested {
                let mut i: usize = 0;
                while i < n
                    invariant
                        i <= n,
                        n == rendered@.len(),
                        output@.len() == n,
                        forall|j: int| 0 <= j < i ==> output@[j] == rendered@[j],
                    decreases n - i,
                {
                    output[i] = rendered[i];
                    i = i + 1;
                }
                assert(output@ =~= rendered@);
                Exchange { copied: true, requeue: true, diagnostic: None }
            } else {
                Exchange {
                    copied: false,
                    requeue: true,
                    diagnostic: Some(Diagnostic::SizeMismatch { rendered: n, requested }),
                }
            }
        },
    }
}

} // verus!
