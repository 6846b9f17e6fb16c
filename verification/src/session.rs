//! The frame-copy state machine.
//!
//! The server delivers format advertisement and frame completion as two
//! independently terminated event streams.  The session folds every event
//! into an explicit phase, so that nothing acts before the format list is
//! final and nothing copies before the destination buffer exists: the
//! format list accumulates while the session awaits formats, the
//! advertisement-complete signal selects a format and asks for the copy,
//! and the per-frame terminal signals finish or fail the session.

use vstd::prelude::*;

use crate::error::CaptureError;
use crate::format::{
    first_supported, is_supported, lemma_first_supported_at, lemma_first_supported_none_iff,
    select_format, FrameFormat,
};

verus! {

/// The phase of a capture session.
#[derive(Clone, Copy, Debug, PartialEq, Eq, Structural)]
pub enum Phase {
    /// The capture request is out; the server is advertising formats.
    AwaitingFormats,
    /// A format was selected and the copy request submitted.
    CopyRequested,
    /// The server reported the copy complete.  Terminal.
    Finished,
    /// The session failed: no usable format, or the copy failed.  Terminal.
    Failed,
}

/// One event of the frame-copy protocol, as the transport delivers it.
#[derive(Clone, Copy, Debug, PartialEq, Eq, Structural)]
pub enum FrameEvent {
    /// The server advertises a candidate buffer format.
    Buffer(FrameFormat),
    /// Frame flags; they carry no action here.
    Flags,
    /// Format advertisement is complete.
    BufferDone,
    /// The copy succeeded.
    Ready,
    /// The copy failed.
    Failed,
    /// A damaged region; it carries no action here.
    Damage,
    /// A hardware-buffer advertisement; it carries no action here.
    LinuxDmabuf,
}

/// What the caller must do after an event was folded into the session.
#[derive(Clone, Copy, Debug, PartialEq, Eq, Structural)]
pub enum Action {
    /// Nothing; keep driving round-trips.
    Nothing,
    /// Create a destination buffer of exactly `byte_len` bytes for the
    /// selected format and submit the copy request.
    RequestCopy { format: FrameFormat, byte_len: u64 },
}

/// The phase after folding one event into a session.
pub open spec fn spec_next_phase(phase: Phase, formats: Seq<FrameFormat>, ev: FrameEvent) -> Phase {
    match ev {
        FrameEvent::BufferDone => if phase == Phase::AwaitingFormats {
            if first_supported(formats) is Some {
                Phase::CopyRequested
            } else {
                Phase::Failed
            }
        } else {
            phase
        },
        FrameEvent::Ready => if phase == Phase::CopyRequested {
            Phase::Finished
        } else {
            phase
        },
        FrameEvent::Failed => if phase == Phase::AwaitingFormats || phase == Phase::CopyRequested {
            Phase::Failed
        } else {
            phase
        },
        _ => phase,
    }
}

/// The format list after folding one event into a session.
pub open spec fn spec_next_formats(
    phase: Phase,
    formats: Seq<FrameFormat>,
    ev: FrameEvent,
) -> Seq<FrameFormat> {
    match ev {
        FrameEvent::Buffer(f) => if phase == Phase::AwaitingFormats {
            formats.push(f)
        } else {
            formats
        },
        _ => formats,
    }
}

/// The result of folding one event into a session: the action owed to the
/// caller, or the fatal error the event forces.
pub open spec fn spec_step_result(phase: Phase, formats: Seq<FrameFormat>, ev: FrameEvent) -> Result<
    Action,
    CaptureError,
> {
    match ev {
        FrameEvent::BufferDone => if phase == Phase::AwaitingFormats {
            match first_supported(formats) {
                Some(f) => Ok(
                    Action::RequestCopy { format: f, byte_len: f.spec_byte_len() as u64 },
                ),
                None => Err(CaptureError::UnsupportedFormat),
            }
        } else {
            Ok(Action::Nothing)
        },
        FrameEvent::Failed => if phase == Phase::AwaitingFormats || phase == Phase::CopyRequested {
            Err(CaptureError::CaptureFailed)
        } else {
            Ok(Action::Nothing)
        },
        _ => Ok(Action::Nothing),
    }
}

/// One capture session: the formats advertised so far and the phase.
/// It lives for exactly one capture.
pub struct CaptureSession {
    /// Every format the server has advertised, in advertisement order.
    pub formats: Vec<FrameFormat>,
    /// The phase the session is in.
    pub phase: Phase,
}

impl CaptureSession {
    /// A fresh session: no formats seen, awaiting advertisement.
    pub fn new() -> (s: Self)
        ensures
            s.phase == Phase::AwaitingFormats,
            s.formats@ == Seq::<FrameFormat>::empty(),
    {
        CaptureSession { formats: Vec::new(), phase: Phase::AwaitingFormats }
    }

    /// Whether the session reached a terminal phase.
    pub fn is_terminal(&self) -> (r: bool)
        ensures
            r == (self.phase == Phase::Finished || self.phase == Phase::Failed),
    {
        self.phase == Phase::Finished || self.phase == Phase::Failed
    }

    /// Folds one protocol event into the session.
    ///
    /// While formats are awaited, `Buffer` accumulates and `BufferDone`
    /// selects the first supported format, answering with the copy request
    /// for a buffer of exactly `stride * height` bytes, or fails the
    /// session with `UnsupportedFormat` when no advertised layout is
    /// supported — no buffer is then requested.  After the copy request,
    /// `Ready` finishes the session and `Failed` fails it with
    /// `CaptureFailed`.  Every other event, and every event arriving in a
    /// phase it does not belong to, changes nothing.
    pub fn handle_event(&mut self, ev: FrameEvent) -> (r: Result<Action, CaptureError>)
        ensures
            final(self).phase == spec_next_phase(old(self).phase, old(self).formats@, ev),
            final(self).formats@ == spec_next_formats(old(self).phase, old(self).formats@, ev),
            r == spec_step_result(old(self).phase, old(self).formats@, ev),
    {
        match ev {
            FrameEvent::Buffer(f) => {
                if self.phase == Phase::AwaitingFormats {
                    self.formats.push(f);
                }
                Ok(Action::Nothing)
            },
            FrameEvent::BufferDone => {
                if self.phase == Phase::AwaitingFormats {
                    match select_format(&self.formats) {
                        Some(f) => {
                            self.phase = Phase::CopyRequested;
                            Ok(Action::RequestCopy { format: f, byte_len: f.byte_len() })
                        },
                        None => {
                            self.phase = Phase::Failed;
                            Err(CaptureError::UnsupportedFormat)
                        },
                    }
                } else {
                    Ok(Action::Nothing)
                }
            },
            FrameEvent::Ready => {
                if self.phase == Phase::CopyRequested {
                    self.phase = Phase::Finished;
                }
                Ok(Action::Nothing)
            },
            FrameEvent::Failed => {
                if self.phase == Phase::AwaitingFormats || self.phase == Phase::CopyRequested {
                    self.phase = Phase::Failed;
                    Err(CaptureError::CaptureFailed)
                } else {
                    Ok(Action::Nothing)
                }
            },
            _ => Ok(Action::Nothing),
        }
    }
}

/// When none of the advertised formats has a supported layout, the
/// advertisement-complete signal fails the session with
/// `UnsupportedFormat`, and no buffer is requested: the step's action is an
/// error, not a copy request.
pub proof fn lemma_unsupported_formats_rejected(formats: Seq<FrameFormat>)
    requires
        forall|i: int| 0 <= i < formats.len() ==> !is_supported(formats[i].format),
    ensures
        spec_step_result(Phase::AwaitingFormats, formats, FrameEvent::BufferDone) == Result::<
            Action,
            CaptureError,
        >::Err(CaptureError::UnsupportedFormat),
        spec_next_phase(Phase::AwaitingFormats, formats, FrameEvent::BufferDone) == Phase::Failed,
{
    lemma_first_supported_none_iff(formats);
}

/// When the advertised list holds a supported entry, the first supported
/// entry in advertisement order is the one selected, and the copy request
/// asks for a buffer of exactly its `stride * height` bytes.
pub proof fn lemma_first_supported_selected(formats: Seq<FrameFormat>, k: int)
    requires
        0 <= k < formats.len(),
        is_supported(formats[k].format),
        forall|j: int| 0 <= j < k ==> !is_supported(formats[j].format),
    ensures
        spec_step_result(Phase::AwaitingFormats, formats, FrameEvent::BufferDone) == Result::<
            Action,
            CaptureError,
        >::Ok(
            Action::RequestCopy {
                format: formats[k],
                byte_len: formats[k].spec_byte_len() as u64,
            },
        ),
{
    lemma_first_supported_at(formats, k);
}

/// Every copy request the state machine issues asks for exactly
/// `stride * height` bytes of the format it selected.
pub proof fn lemma_copy_request_byte_len(
    phase: Phase,
    formats: Seq<FrameFormat>,
    ev: FrameEvent,
    f: FrameFormat,
    n: u64,
)
    requires
        spec_step_result(phase, formats, ev) == Result::<Action, CaptureError>::Ok(
            Action::RequestCopy { format: f, byte_len: n },
        ),
    ensures
        n == f.spec_byte_len(),
{
    assert(f.stride as int * f.height as int <= 0xffff_ffff * 0xffff_ffff) by (nonlinear_arith)
        requires
            f.stride <= 0xffff_ffffu32,
            f.height <= 0xffff_ffffu32,
    ;
}

} // verus!
