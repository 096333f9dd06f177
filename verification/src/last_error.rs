//! The last-error slot: the one side channel through which a failing
//! operation tells its caller what went wrong.
//!
//! A slot belongs to one calling thread. It holds at most one message, as C
//! text: the UTF-8 bytes of the message, with no NUL among them, followed by
//! the terminating NUL. Every failure overwrites the message; a success never
//! touches it.

use vstd::prelude::*;
use vstd::slice::*;
use vstd::string::*;
use vstd::utf8::*;

use crate::failure::Failure;

verus! {

/// The text that stands in for a message which cannot be held as C text.
pub open spec fn fallback_text() -> Seq<char> {
    "<invalid utf8 in error>"@
}

/// True when no byte is NUL, so that the bytes can stand before a terminator.
pub open spec fn is_c_text(bytes: Seq<u8>) -> bool {
    forall|i: int| 0 <= i < bytes.len() ==> bytes[i] != 0u8
}

/// The bytes a slot keeps for a message: its UTF-8 encoding, or that of the
/// fallback text when the encoding holds a NUL.
pub open spec fn c_text(message: Seq<char>) -> Seq<u8> {
    if is_c_text(encode_utf8(message)) {
        encode_utf8(message)
    } else {
        encode_utf8(fallback_text())
    }
}

/// What a caller reads from a slot: the message followed by the terminator,
/// or the terminator alone when no failure has been recorded.
pub open spec fn c_string(message: Option<Seq<u8>>) -> Seq<u8> {
    match message {
        Some(text) => text.push(0u8),
        None => seq![0u8],
    }
}

/// The message of a slot after a step that reported `failure`, given the
/// message it held before.
pub open spec fn recorded(before: Option<Seq<u8>>, failure: Option<Failure>) -> Option<Seq<u8>> {
    match failure {
        Some(failure) => Some(c_text(failure.text())),
        None => before,
    }
}

/// The last-error slot of one thread.
#[derive(Debug)]
pub struct LastError {
    text: Vec<u8>,
    written: bool,
}

impl LastError {
    #[verifier::type_invariant]
    spec fn well_formed(self) -> bool {
        &&& self.text@.len() > 0
        &&& self.text@.last() == 0u8
        &&& is_c_text(self.text@.drop_last())
        &&& !self.written ==> self.text@.len() == 1
    }

    /// The message held, without its terminator; `None` until a failure is
    /// recorded.
    pub closed spec fn message(&self) -> Option<Seq<u8>> {
        if self.written {
            Some(self.text@.drop_last())
        } else {
            None
        }
    }

    /// The slot of a thread on which nothing has failed yet.
    pub fn new() -> (slot: Self)
        ensures
            slot.message() is None,
    {
        let mut text: Vec<u8> = Vec::new();
        text.push(0u8);
        LastError { text, written: false }
    }

    /// Tells whether a failure has been recorded.
    pub fn has_message(&self) -> (r: bool)
        ensures
            r == self.message() is Some,
    {
        self.written
    }

    /// Records `failure`, replacing whatever the slot held.
    pub fn record(&mut self, failure: &Failure)
        ensures
            final(self).message() == recorded(old(self).message(), Some(*failure)),
    {
        let text = failure.message();
        set_last_error(self, text.as_str());
    }
}

/// The fallback text is plain ASCII without a NUL, so it is always C text.
pub proof fn lemma_fallback_is_c_text()
    ensures
        is_c_text(encode_utf8(fallback_text())),
{
    reveal_strlit("<invalid utf8 in error>");
    let chars = fallback_text();
    assert(chars.len() == 23);
    assert forall|i: int| 0 <= i < chars.len() implies '\u{1}' <= #[trigger] chars[i]
        <= '\u{7f}' by {
        assert(chars[0] == '<');
        assert(chars[1] == 'i');
        assert(chars[2] == 'n');
        assert(chars[3] == 'v');
        assert(chars[4] == 'a');
        assert(chars[5] == 'l');
        assert(chars[6] == 'i');
        assert(chars[7] == 'd');
        assert(chars[8] == ' ');
        assert(chars[9] == 'u');
        assert(chars[10] == 't');
        assert(chars[11] == 'f');
        assert(chars[12] == '8');
        assert(chars[13] == ' ');
        assert(chars[14] == 'i');
        assert(chars[15] == 'n');
        assert(chars[16] == ' ');
        assert(chars[17] == 'e');
        assert(chars[18] == 'r');
        assert(chars[19] == 'r');
        assert(chars[20] == 'o');
        assert(chars[21] == 'r');
        assert(chars[22] == '>');
    }
    assert(is_ascii_chars(chars));
    is_ascii_chars_encode_utf8(chars);
    let bytes = encode_utf8(chars);
    assert forall|i: int| 0 <= i < bytes.len() implies bytes[i] != 0u8 by {
        assert(chars[i] as u8 == bytes[i]);
        assert('\u{1}' <= chars[i] <= '\u{7f}');
    }
}

/// Whatever the message, the bytes kept for it are C text.
pub proof fn lemma_c_text_is_c_text(message: Seq<char>)
    ensures
        is_c_text(c_text(message)),
{
    lemma_fallback_is_c_text();
}

/// Tells whether a NUL occurs among `bytes`.
fn holds_nul(bytes: &[u8]) -> (r: bool)
    ensures
        r == !is_c_text(bytes@),
{
    let mut i: usize = 0;
    while i < bytes.len()
        invariant
            i <= bytes@.len(),
            forall|j: int| 0 <= j < i ==> bytes@[j] != 0u8,
        decreases bytes@.len() - i,
    {
        if bytes[i] == 0u8 {
            return true;
        }
        i = i + 1;
    }
    false
}

/// Records `message` in `slot`, replacing whatever it held. A message whose
/// UTF-8 bytes hold a NUL cannot be C text; the fallback text is kept in its
/// place.
pub fn set_last_error(slot: &mut LastError, message: &str)
    ensures
        final(slot).message() == Some(c_text(message@)),
{
    let bytes = message.as_bytes();
    let mut text = if holds_nul(bytes) {
        slice_to_vec("<invalid utf8 in error>".as_bytes())
    } else {
        slice_to_vec(bytes)
    };
    proof {
        lemma_fallback_is_c_text();
        assert(text@ == c_text(message@));
    }
    text.push(0u8);
    proof {
        assert(text@.drop_last() == c_text(message@));
    }
    *slot = LastError { text, written: true };
}

/// Reads the slot as NUL-terminated text. The text is empty until a failure
/// is recorded, and what is returned is never absent.
pub fn vlfd_get_last_error_message(slot: &LastError) -> (text: &[u8])
    ensures
        text@ == c_string(slot.message()),
        slot.message() is None ==> text@ == seq![0u8],
        text@.len() > 0,
        text@.last() == 0u8,
        is_c_text(text@.drop_last()),
{
    proof {
        use_type_invariant(slot);
        if slot.written {
            assert(slot.text@ == slot.text@.drop_last().push(0u8));
        } else {
            assert(slot.text@ == seq![0u8]);
        }
    }
    slot.text.as_slice()
}

} // verus!
