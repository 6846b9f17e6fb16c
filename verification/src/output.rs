//! Discovery of the capture target among the advertised outputs.
//!
//! Output description events arrive until a terminal "done" signal; the
//! first output encountered is the capture target.

use vstd::prelude::*;

use crate::error::CaptureError;

verus! {

/// One output description event, by its tag; everything but `Done` only
/// marks the output as seen.
#[derive(Clone, Copy, Debug, PartialEq, Eq, Structural)]
pub enum OutputEvent {
    /// Position and physical geometry.
    Geometry,
    /// A display mode.
    Mode,
    /// The scale factor.
    Scale,
    /// The description of this output is complete.
    Done,
}

/// The outputs seen so far, by caller-chosen identifier, and whether the
/// server has finished describing them.
pub struct OutputDiscovery {
    /// Identifiers of the outputs that have sent events, in arrival order.
    pub outputs: Vec<u64>,
    /// Whether a terminal "done" signal has arrived.
    pub done: bool,
}

impl OutputDiscovery {
    /// A fresh discovery: nothing seen, not done.
    pub fn new() -> (s: Self)
        ensures
            s.outputs@ == Seq::<u64>::empty(),
            s.done == false,
    {
        OutputDiscovery { outputs: Vec::new(), done: false }
    }

    /// Records one event from the output with the given identifier: the
    /// output is noted, and a `Done` event marks discovery complete.
    pub fn note_event(&mut self, output_id: u64, ev: OutputEvent)
        ensures
            final(self).outputs@ == old(self).outputs@.push(output_id),
            final(self).done == (old(self).done || ev == OutputEvent::Done),
    {
        self.outputs.push(output_id);
        if ev == OutputEvent::Done {
            self.done = true;
        }
    }

    /// Selects the capture target once discovery is complete: the first
    /// output encountered, or `NoOutputAvailable` when the server
    /// advertised none.
    pub fn select(&self) -> (r: Result<u64, CaptureError>)
        requires
            self.done,
        ensures
            self.outputs@.len() > 0 ==> r == Ok::<u64, CaptureError>(self.outputs@[0]),
            self.outputs@.len() == 0 ==> r == Err::<u64, CaptureError>(
                CaptureError::NoOutputAvailable,
            ),
    {
        if self.outputs.len() > 0 {
            Ok(self.outputs[0])
        } else {
            Err(CaptureError::NoOutputAvailable)
        }
    }
}

} // verus!
