//! The event correlator: a state machine that drives one selection-conversion
//! handshake from the ownership-change notification to the final read.
//!
//! The machine is pure. A driver that owns the connection performs each
//! [`Action`] it is handed (waiting on the event stream, issuing requests)
//! and feeds the observation back in as the next [`Input`]. Observations a
//! phase is not waiting for are discarded — the shared event stream
//! interleaves unrelated protocol events with the two this handshake cares
//! about, so filtering is part of the machine, never an error.

use vstd::prelude::*;

use crate::atoms::{ATOM_NONE, AtomTable};
use crate::error::RetrievalError;

verus! {

/// One event read from the shared connection stream, reduced to what the
/// handshake can act on.
#[derive(Clone, Copy, Debug, PartialEq, Eq, Structural)]
pub enum WireEvent {
    /// The monitored selection's owner changed. Carries the selection and
    /// the server timestamp of the change, which must be echoed back in the
    /// conversion request to avoid racing a concurrent ownership change.
    SelectionChanged { selection: u32, timestamp: u32 },
    /// The current owner answered a conversion request. `property` names
    /// the property the converted data was deposited in, or is
    /// [`ATOM_NONE`] when the owner refused the conversion.
    ConversionReply { property: u32 },
    /// Any other event kind: protocol noise, discarded during waits.
    Unrelated,
}

/// One observation the driver feeds into the machine.
#[derive(Clone, Copy, Debug)]
pub enum Input {
    /// The next event from the stream, in answer to [`Action::Wait`] or
    /// [`Action::RequestConversion`].
    Event(WireEvent),
    /// The current owner of the clipboard selection, in answer to
    /// [`Action::QueryOwner`]: the owning window, or `None` when the
    /// selection has no owner.
    OwnerQuery(Option<u32>),
    /// The reply property's descriptor, in answer to
    /// [`Action::ProbeProperty`]: its declared type and the byte count
    /// still to be read.
    Descriptor { type_atom: u32, len: u32 },
}

/// The parameters of one selection-conversion request.
#[derive(Clone, Copy, Debug, PartialEq, Eq, Structural)]
pub struct ConversionRequest {
    /// The hidden window that receives the reply.
    pub requestor: u32,
    /// The selection whose contents are requested.
    pub selection: u32,
    /// The format the owner is asked to convert to (UTF-8 text).
    pub target: u32,
    /// The property on the requestor window the data is deposited in.
    pub property: u32,
    /// The timestamp of the ownership change being acted on.
    pub time: u32,
}

/// Where one retrieval attempt stands.
#[derive(Clone, Copy, Debug, PartialEq, Eq, Structural)]
pub enum Phase {
    /// Waiting for an ownership-change notification.
    AwaitingChange,
    /// A change was observed; the owner's continued presence must be
    /// confirmed before a conversion is requested.
    OwnershipChanged { selection: u32, timestamp: u32 },
    /// The conversion request is out; waiting for the owner's reply.
    AwaitingReply,
    /// The reply named a property; its descriptor must be probed before
    /// any full-length read.
    ReplyReceived,
    /// Terminal: the property holds `len` bytes of ordinary (non-chunked)
    /// data; the driver reads them and hands them to the decoder.
    Reading { len: u32 },
    /// Terminal: the attempt failed.
    Failed { error: RetrievalError },
}

/// What the driver must do next.
#[derive(Clone, Copy, Debug, PartialEq, Eq, Structural)]
pub enum Action {
    /// Block on the event stream and feed the next event back in.
    Wait,
    /// Query the clipboard selection's current owner and feed the result
    /// back in.
    QueryOwner,
    /// Issue exactly this conversion request, flush, then feed events back
    /// in until the owner's reply arrives.
    RequestConversion(ConversionRequest),
    /// Read the reply property's descriptor — a zero-length read that
    /// consumes no data — and feed it back in.
    ProbeProperty,
    /// Read the property's full `len` bytes and decode them as UTF-8 text;
    /// the handshake itself is complete.
    ReadValue { len: u32 },
    /// Stop: the attempt failed with this error.
    Fail(RetrievalError),
}

/// The per-session context one handshake borrows: the hidden window that
/// receives conversion replies, and the resolved atom table.
#[derive(Clone, Copy, Debug, PartialEq, Eq, Structural)]
pub struct Correlator {
    /// The hidden window owned by this session, used only as the
    /// addressable endpoint for conversion replies.
    pub window: u32,
    /// The identifiers resolved at bootstrap.
    pub atoms: AtomTable,
}

impl Correlator {
    /// The transition function of the handshake, in full. Each retrieval
    /// attempt starts in [`Phase::AwaitingChange`]; an observation a phase
    /// is not waiting for leaves the phase unchanged and asks the driver
    /// to keep waiting.
    pub open spec fn spec_step(self, phase: Phase, input: Input) -> (Phase, Action) {
        match (phase, input) {
            (Phase::AwaitingChange, Input::Event(ev)) => match ev {
                WireEvent::SelectionChanged { selection, timestamp } => (
                    Phase::OwnershipChanged { selection, timestamp },
                    Action::QueryOwner,
                ),
                _ => (Phase::AwaitingChange, Action::Wait),
            },
            (Phase::OwnershipChanged { selection, timestamp }, Input::OwnerQuery(owner)) => match owner {
                Some(_) => (
                    Phase::AwaitingReply,
                    Action::RequestConversion(
                        ConversionRequest {
                            requestor: self.window,
                            selection,
                            target: self.atoms.utf8_string,
                            property: self.atoms.receiver_property,
                            time: timestamp,
                        },
                    ),
                ),
                None => (
                    Phase::Failed { error: RetrievalError::SelectionOrphaned },
                    Action::Fail(RetrievalError::SelectionOrphaned),
                ),
            },
            (Phase::AwaitingReply, Input::Event(ev)) => match ev {
                WireEvent::ConversionReply { property } => if property == ATOM_NONE {
                    (
                        Phase::Failed { error: RetrievalError::ConversionFailed },
                        Action::Fail(RetrievalError::ConversionFailed),
                    )
                } else {
                    (Phase::ReplyReceived, Action::ProbeProperty)
                },
                _ => (Phase::AwaitingReply, Action::Wait),
            },
            (Phase::ReplyReceived, Input::Descriptor { type_atom, len }) => if type_atom
                == self.atoms.incr {
                (
                    Phase::Failed { error: RetrievalError::IncrUnsupported },
                    Action::Fail(RetrievalError::IncrUnsupported),
                )
            } else {
                (Phase::Reading { len }, Action::ReadValue { len })
            },
            _ => (phase, Action::Wait),
        }
    }

    /// Advance the handshake by one observation.
    pub fn step(&self, phase: Phase, input: Input) -> (r: (Phase, Action))
        ensures
            r == self.spec_step(phase, input),
    {
        match (phase, input) {
            (Phase::AwaitingChange, Input::Event(ev)) => match ev {
                WireEvent::SelectionChanged { selection, timestamp } => (
                    Phase::OwnershipChanged { selection, timestamp },
                    Action::QueryOwner,
                ),
                _ => (Phase::AwaitingChange, Action::Wait),
            },
            (Phase::OwnershipChanged { selection, timestamp }, Input::OwnerQuery(owner)) => match owner {
                Some(_) => (
                    Phase::AwaitingReply,
                    Action::RequestConversion(
                        ConversionRequest {
                            requestor: self.window,
                            selection,
                            target: self.atoms.utf8_string,
                            property: self.atoms.receiver_property,
                            time: timestamp,
                        },
                    ),
                ),
                None => (
                    Phase::Failed { error: RetrievalError::SelectionOrphaned },
                    Action::Fail(RetrievalError::SelectionOrphaned),
                ),
            },
            (Phase::AwaitingReply, Input::Event(ev)) => match ev {
                WireEvent::ConversionReply { property } => if property == ATOM_NONE {
                    (
                        Phase::Failed { error: RetrievalError::ConversionFailed },
                        Action::Fail(RetrievalError::ConversionFailed),
                    )
                } else {
                    (Phase::ReplyReceived, Action::ProbeProperty)
                },
                _ => (Phase::AwaitingReply, Action::Wait),
            },
            (Phase::ReplyReceived, Input::Descriptor { type_atom, len }) => if type_atom
                == self.atoms.incr {
                (
                    Phase::Failed { error: RetrievalError::IncrUnsupported },
                    Action::Fail(RetrievalError::IncrUnsupported),
                )
            } else {
                (Phase::Reading { len }, Action::ReadValue { len })
            },
            (p, _) => (p, Action::Wait),
        }
    }

    /// The phase reached after consuming a whole sequence of wire events,
    /// oldest first.
    pub open spec fn run_events(self, phase: Phase, events: Seq<WireEvent>) -> Phase
        decreases events.len(),
    {
        if events.len() == 0 {
            phase
        } else {
            self.run_events(self.spec_step(phase, Input::Event(events[0])).0, events.drop_first())
        }
    }

    /// Law: a waiting phase ignores protocol noise. Any sequence of events
    /// unrelated to what the phase awaits leaves the phase unchanged and
    /// asks the driver for nothing but further waiting, so the next related
    /// event produces exactly the outcome it would have produced with no
    /// noise at all.
    pub proof fn noise_is_discarded(self, phase: Phase, noise: Seq<WireEvent>)
        requires
            is_waiting(phase),
            forall|i: int| 0 <= i < noise.len() ==> unrelated(phase, #[trigger] noise[i]),
        ensures
            self.run_events(phase, noise) == phase,
            forall|i: int|
                0 <= i < noise.len() ==> self.spec_step(
                    phase,
                    Input::Event(#[trigger] noise[i]),
                ) == (phase, Action::Wait),
            forall|ev: WireEvent| #[trigger]
                self.spec_step(self.run_events(phase, noise), Input::Event(ev))
                    == self.spec_step(phase, Input::Event(ev)),
        decreases noise.len(),
    {
        if noise.len() > 0 {
            assert(unrelated(phase, noise[0]));
            assert(self.spec_step(phase, Input::Event(noise[0])).0 == phase);
            assert(forall|i: int|
                0 <= i < noise.drop_first().len() ==> unrelated(
                    phase,
                    #[trigger] noise.drop_first()[i],
                ));
            self.noise_is_discarded(phase, noise.drop_first());
        }
    }
}

/// True of the two phases in which the machine blocks on the shared event
/// stream.
pub open spec fn is_waiting(phase: Phase) -> bool {
    phase is AwaitingChange || phase is AwaitingReply
}

/// True when `ev` is not the event kind `phase` is waiting for: noise that
/// the machine must discard without effect.
pub open spec fn unrelated(phase: Phase, ev: WireEvent) -> bool {
    match phase {
        Phase::AwaitingChange => !(ev is SelectionChanged),
        Phase::AwaitingReply => !(ev is ConversionReply),
        _ => true,
    }
}

/// Law: when the owner query after an ownership-change notification finds
/// no owner, the attempt fails with `SelectionOrphaned` and no conversion
/// request is ever issued.
pub proof fn orphaned_owner_aborts(c: Correlator, selection: u32, timestamp: u32)
    ensures
        ({
            let r = c.spec_step(
                Phase::OwnershipChanged { selection, timestamp },
                Input::OwnerQuery(None),
            );
            &&& r.0 == (Phase::Failed { error: RetrievalError::SelectionOrphaned })
            &&& r.1 == Action::Fail(RetrievalError::SelectionOrphaned)
            &&& !(r.1 is RequestConversion)
        }),
{
}

/// Law: a conversion reply whose property is the "none" sentinel fails the
/// attempt with `ConversionFailed`, and no property access — neither probe
/// nor read — is requested.
pub proof fn refused_conversion_aborts(c: Correlator)
    ensures
        ({
            let r = c.spec_step(
                Phase::AwaitingReply,
                Input::Event(WireEvent::ConversionReply { property: ATOM_NONE }),
            );
            &&& r.0 == (Phase::Failed { error: RetrievalError::ConversionFailed })
            &&& r.1 == Action::Fail(RetrievalError::ConversionFailed)
            &&& !(r.1 is ProbeProperty)
            &&& !(r.1 is ReadValue)
        }),
{
}

/// Law: a reply property whose declared type is the chunked-transfer
/// marker fails the attempt with `IncrUnsupported`, and the full-length
/// read is never requested.
pub proof fn chunked_transfer_aborts(c: Correlator, len: u32)
    ensures
        ({
            let r = c.spec_step(
                Phase::ReplyReceived,
                Input::Descriptor { type_atom: c.atoms.incr, len },
            );
            &&& r.0 == (Phase::Failed { error: RetrievalError::IncrUnsupported })
            &&& r.1 == Action::Fail(RetrievalError::IncrUnsupported)
            &&& !(r.1 is ReadValue)
        }),
{
}

} // verus!
