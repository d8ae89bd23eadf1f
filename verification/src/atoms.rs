//! The atom registry: the fixed set of protocol identifiers one session
//! resolves at bootstrap and reuses for its whole lifetime.

use vstd::prelude::*;

verus! {

/// The protocol value that stands for "no atom". A conversion reply whose
/// property field carries it means the owner refused the conversion, and a
/// genuinely resolved name is never assigned it.
pub const ATOM_NONE: u32 = 0;

/// The four resolved identifiers a session needs: the clipboard selection,
/// the UTF-8 text format, the private property used as the reply sink, and
/// the chunked-transfer marker. Resolved once at bootstrap, immutable
/// afterwards.
#[derive(Clone, Copy, Debug, PartialEq, Eq, Structural)]
pub struct AtomTable {
    pub clipboard: u32,
    pub utf8_string: u32,
    pub receiver_property: u32,
    pub incr: u32,
}

impl AtomTable {
    /// A well-formed table holds four genuinely resolved identifiers:
    /// none is the "no atom" sentinel, and no two names share a handle
    /// (the server assigns distinct atoms to distinct names).
    pub open spec fn wf(self) -> bool {
        &&& self.clipboard != ATOM_NONE
        &&& self.utf8_string != ATOM_NONE
        &&& self.receiver_property != ATOM_NONE
        &&& self.incr != ATOM_NONE
        &&& self.clipboard != self.utf8_string
        &&& self.clipboard != self.receiver_property
        &&& self.clipboard != self.incr
        &&& self.utf8_string != self.receiver_property
        &&& self.utf8_string != self.incr
        &&& self.receiver_property != self.incr
    }

    /// Build the table from four freshly resolved handles, rejecting any
    /// set a correct server could not have produced.
    pub fn new(clipboard: u32, utf8_string: u32, receiver_property: u32, incr: u32) -> (r: Option<
        AtomTable,
    >)
        ensures
            r matches Some(t) ==> t == (AtomTable {
                clipboard,
                utf8_string,
                receiver_property,
                incr,
            }) && t.wf(),
            r is None ==> !(AtomTable { clipboard, utf8_string, receiver_property, incr }).wf(),
    {
        let t = AtomTable { clipboard, utf8_string, receiver_property, incr };
        let nonzero = clipboard != ATOM_NONE && utf8_string != ATOM_NONE && receiver_property
            != ATOM_NONE && incr != ATOM_NONE;
        let distinct = clipboard != utf8_string && clipboard != receiver_property && clipboard
            != incr && utf8_string != receiver_property && utf8_string != incr && receiver_property
            != incr;
        if nonzero && distinct {
            Some(t)
        } else {
            None
        }
    }
}

/// The symbolic name resolved to the clipboard selection atom.
pub fn clipboard_name() -> (r: &'static str)
    ensures
        r@ == "CLIPBOARD"@,
{
    "CLIPBOARD"
}

/// The symbolic name resolved to the UTF-8 text format atom.
pub fn utf8_string_name() -> (r: &'static str)
    ensures
        r@ == "UTF8_STRING"@,
{
    "UTF8_STRING"
}

/// The symbolic name resolved to the private reply-sink property atom.
pub fn receiver_property_name() -> (r: &'static str)
    ensures
        r@ == "CLIPBOARD_RECEIVER"@,
{
    "CLIPBOARD_RECEIVER"
}

/// The symbolic name resolved to the chunked-transfer marker atom.
pub fn incr_name() -> (r: &'static str)
    ensures
        r@ == "INCR"@,
{
    "INCR"
}

} // verus!
