use x11_clipboard_monitor::atoms::AtomTable;
use x11_clipboard_monitor::error::RetrievalError;
use x11_clipboard_monitor::handshake::{
    Action, ConversionRequest, Correlator, Input, Phase, WireEvent,
};
use x11_clipboard_monitor::text::decode_clipboard_text;

fn correlator() -> Correlator {
    Correlator {
        window: 77,
        atoms: AtomTable {
            clipboard: 11,
            utf8_string: 12,
            receiver_property: 13,
            incr: 14,
        },
    }
}

/// The full happy path: owner sets the clipboard to "hello", the
/// notification fires, the owner is present, conversion is requested in the
/// UTF-8 format, the probe shows an ordinary type holding five bytes, and
/// the read bytes decode to "hello".
#[test]
fn scenario_hello_retrieval() {
    let c = correlator();

    let (phase, action) = c.step(
        Phase::AwaitingChange,
        Input::Event(WireEvent::SelectionChanged {
            selection: 11,
            timestamp: 1000,
        }),
    );
    assert_eq!(
        phase,
        Phase::OwnershipChanged {
            selection: 11,
            timestamp: 1000
        }
    );
    assert_eq!(action, Action::QueryOwner);

    let (phase, action) = c.step(phase, Input::OwnerQuery(Some(500)));
    assert_eq!(phase, Phase::AwaitingReply);
    assert_eq!(
        action,
        Action::RequestConversion(ConversionRequest {
            requestor: 77,
            selection: 11,
            target: 12,
            property: 13,
            time: 1000,
        })
    );

    let (phase, action) = c.step(
        phase,
        Input::Event(WireEvent::ConversionReply { property: 13 }),
    );
    assert_eq!(phase, Phase::ReplyReceived);
    assert_eq!(action, Action::ProbeProperty);

    let (phase, action) = c.step(
        phase,
        Input::Descriptor {
            type_atom: 12,
            len: 5,
        },
    );
    assert_eq!(phase, Phase::Reading { len: 5 });
    assert_eq!(action, Action::ReadValue { len: 5 });

    let text = decode_clipboard_text(vec![0x68, 0x65, 0x6c, 0x6c, 0x6f]);
    assert_eq!(text, Ok(String::from("hello")));
}

/// The owner disappears right after the notification: the owner query comes
/// back empty, the attempt fails as orphaned, and no conversion request is
/// issued.
#[test]
fn scenario_owner_disappears() {
    let c = correlator();

    let (phase, action) = c.step(
        Phase::AwaitingChange,
        Input::Event(WireEvent::SelectionChanged {
            selection: 11,
            timestamp: 2000,
        }),
    );
    assert_eq!(action, Action::QueryOwner);

    let (phase, action) = c.step(phase, Input::OwnerQuery(None));
    assert_eq!(
        phase,
        Phase::Failed {
            error: RetrievalError::SelectionOrphaned
        }
    );
    assert_eq!(action, Action::Fail(RetrievalError::SelectionOrphaned));
    assert!(!matches!(action, Action::RequestConversion(_)));
}

/// Unrelated events interleaved before the real ownership change are
/// discarded: the phase never moves and each answer is a further wait.
#[test]
fn noise_before_change_is_ignored() {
    let c = correlator();
    let noise = [
        WireEvent::Unrelated,
        WireEvent::ConversionReply { property: 13 },
        WireEvent::Unrelated,
    ];

    let mut phase = Phase::AwaitingChange;
    for ev in noise {
        let (next, action) = c.step(phase, Input::Event(ev));
        assert_eq!(next, Phase::AwaitingChange);
        assert_eq!(action, Action::Wait);
        phase = next;
    }

    let (phase, action) = c.step(
        phase,
        Input::Event(WireEvent::SelectionChanged {
            selection: 11,
            timestamp: 3000,
        }),
    );
    assert_eq!(
        phase,
        Phase::OwnershipChanged {
            selection: 11,
            timestamp: 3000
        }
    );
    assert_eq!(action, Action::QueryOwner);
}

/// Unrelated events interleaved before the conversion reply are discarded
/// the same way.
#[test]
fn noise_before_reply_is_ignored() {
    let c = correlator();
    let noise = [
        WireEvent::SelectionChanged {
            selection: 11,
            timestamp: 4000,
        },
        WireEvent::Unrelated,
    ];

    let mut phase = Phase::AwaitingReply;
    for ev in noise {
        let (next, action) = c.step(phase, Input::Event(ev));
        assert_eq!(next, Phase::AwaitingReply);
        assert_eq!(action, Action::Wait);
        phase = next;
    }

    let (phase, action) = c.step(
        phase,
        Input::Event(WireEvent::ConversionReply { property: 13 }),
    );
    assert_eq!(phase, Phase::ReplyReceived);
    assert_eq!(action, Action::ProbeProperty);
}

/// A conversion reply carrying the "none" sentinel property fails the
/// attempt with `ConversionFailed`; no property access is requested.
#[test]
fn refused_conversion_fails() {
    let c = correlator();

    let (phase, action) = c.step(
        Phase::AwaitingReply,
        Input::Event(WireEvent::ConversionReply { property: 0 }),
    );
    assert_eq!(
        phase,
        Phase::Failed {
            error: RetrievalError::ConversionFailed
        }
    );
    assert_eq!(action, Action::Fail(RetrievalError::ConversionFailed));
    assert!(!matches!(action, Action::ProbeProperty));
    assert!(!matches!(action, Action::ReadValue { .. }));
}

/// A reply property whose declared type is the chunked-transfer marker
/// fails the attempt with `IncrUnsupported`; the full-length read is never
/// requested.
#[test]
fn chunked_transfer_fails() {
    let c = correlator();

    let (phase, action) = c.step(
        Phase::ReplyReceived,
        Input::Descriptor {
            type_atom: 14,
            len: 4096,
        },
    );
    assert_eq!(
        phase,
        Phase::Failed {
            error: RetrievalError::IncrUnsupported
        }
    );
    assert_eq!(action, Action::Fail(RetrievalError::IncrUnsupported));
    assert!(!matches!(action, Action::ReadValue { .. }));
}

/// An empty, ordinary-typed property is read as zero bytes and decodes to
/// the empty string.
#[test]
fn empty_property_decodes_empty() {
    let c = correlator();

    let (phase, action) = c.step(
        Phase::ReplyReceived,
        Input::Descriptor {
            type_atom: 12,
            len: 0,
        },
    );
    assert_eq!(phase, Phase::Reading { len: 0 });
    assert_eq!(action, Action::ReadValue { len: 0 });
    assert_eq!(decode_clipboard_text(Vec::new()), Ok(String::new()));
}
