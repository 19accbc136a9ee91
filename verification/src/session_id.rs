//! Session id generation: a fresh 20-character alphanumeric name for each
//! session, used only to name the workspace directory.

use vstd::prelude::*;

verus! {

/// Whether `c` may occur in a session id: ASCII letters and digits only,
/// so an id can never introduce a path separator.
pub open spec fn is_session_id_char(c: char) -> bool {
    ('a' <= c && c <= 'z') || ('A' <= c && c <= 'Z') || ('0' <= c && c <= '9')
}

/// Relies on `fastrand::alphanumeric`: every drawn character is from the
/// ranges a-z, A-Z and 0-9.
#[verifier::external_body]
fn random_alphanumeric() -> (c: char)
    ensures
        is_session_id_char(c),
{
    fastrand::alphanumeric()
}

/// Relies on `String::push`: appends the given character to the end of
/// the string.
#[verifier::external_body]
fn push_char(s: &mut String, c: char)
    ensures
        final(s)@ == old(s)@.push(c),
{
    s.push(c);
}

/// Draws a fresh session id: 20 characters, each an ASCII letter or
/// digit.
pub fn new_session_id() -> (id: String)
    ensures
        id@.len() == 20,
        forall|i: int| 0 <= i < id@.len() ==> is_session_id_char(#[trigger] id@[i]),
{
    let mut id = String::new();
    let mut i: usize = 0;
    while i < 20
        invariant
            i <= 20,
            id@.len() == i,
            forall|j: int| 0 <= j < id@.len() ==> is_session_id_char(#[trigger] id@[j]),
        decreases 20 - i,
    {
        let c = random_alphanumeric();
        push_char(&mut id, c);
        i = i + 1;
    }
    id
}

} // verus!
