//! Debug messages: the record type, its validity predicate, and the
//! resolution of the caller-supplied length-or-sentinel.

use vstd::prelude::*;

use crate::enums::{valid_severity, valid_source, valid_type};
use vstd::string::StrSliceExecFns;

verus! {

/// No message longer than this many characters is accepted into the pipeline.
pub const MAX_DEBUG_MESSAGE_LENGTH: usize = 256;

/// A structured diagnostic record describing an API-usage or driver-reported
/// condition. `text` holds exactly the message text, with no terminator; the
/// message's length is `text@.len()`.
pub struct DebugMessage {
    pub source: u32,
    pub ty: u32,
    pub id: u32,
    pub severity: u32,
    pub text: String,
}

/// Every message that is stored in the log or handed to the callback
/// satisfies the validity predicates for its enumerants and respects the
/// maximum message length.
pub open spec fn message_wf(m: DebugMessage) -> bool {
    &&& valid_source(m.source)
    &&& valid_type(m.ty)
    &&& valid_severity(m.severity)
    &&& m.text@.len() <= MAX_DEBUG_MESSAGE_LENGTH
}

/// The message described by the given coordinates and text.
pub open spec fn message_matches(m: DebugMessage, source: u32, ty: u32, id: u32, severity: u32, text: Seq<char>) -> bool {
    &&& m.source == source
    &&& m.ty == ty
    &&& m.id == id
    &&& m.severity == severity
    &&& m.text@ == text
}

/// Index of the first terminator character in `s`, or `s.len()` if there is
/// none.
pub open spec fn first_nul(s: Seq<char>) -> int
    decreases s.len(),
{
    if s.len() == 0 {
        0
    } else if s[0] == '\0' {
        0
    } else {
        1 + first_nul(s.drop_first())
    }
}

/// The effective length of a message given the caller-supplied
/// length-or-sentinel: a negative `length` means the buffer is implicitly
/// terminated and the length is the distance to the terminator; otherwise the
/// given count is used as it is.
pub open spec fn resolved_len(length: int, s: Seq<char>) -> int {
    if length < 0 {
        first_nul(s)
    } else {
        length
    }
}

/// A terminator at position `i`, with none earlier, pins `first_nul` to `i`.
pub proof fn lemma_first_nul_at(s: Seq<char>, i: int)
    requires
        0 <= i < s.len(),
        s[i] == '\0',
        forall|k: int| 0 <= k < i ==> s[k] != '\0',
    ensures
        first_nul(s) == i,
    decreases i,
{
    if i > 0 {
        lemma_first_nul_at(s.drop_first(), i - 1);
    }
}

/// Length sentinel law: on a buffer whose first terminator stands at
/// position `n`, the sentinel resolves to exactly the length `n` that an
/// explicit count would give, and the effective message text is the same
/// either way.
pub proof fn lemma_sentinel_resolves_like_explicit(s: Seq<char>, n: int)
    requires
        0 <= n < s.len(),
        s[n] == '\0',
        forall|k: int| 0 <= k < n ==> s[k] != '\0',
    ensures
        resolved_len(-1, s) == n,
        resolved_len(-1, s) == resolved_len(n, s),
        s.take(resolved_len(-1, s)) == s.take(resolved_len(n, s)),
{
    lemma_first_nul_at(s, n);
}

/// Resolves the caller-supplied length-or-sentinel against the buffer: a
/// negative `length` asks for a scan to the buffer's terminator.
pub fn resolve_length(length: i32, buf: &str) -> (r: usize)
    requires
        length >= 0 ==> length as int <= buf@.len(),
        length < 0 ==> buf@.contains('\0'),
    ensures
        r as int == resolved_len(length as int, buf@),
        r as int <= buf@.len(),
{
    if length >= 0 {
        return length as usize;
    }
    let n = buf.unicode_len();
    let mut i: usize = 0;
    while i < n
        invariant
            length < 0,
            n == buf@.len(),
            i <= n,
            buf@.contains('\0'),
            forall|k: int| 0 <= k < i ==> buf@[k] != '\0',
        decreases n - i,
    {
        if buf.get_char(i) == '\0' {
            proof {
                lemma_first_nul_at(buf@, i as int);
            }
            return i;
        }
        i += 1;
    }
    proof {
        let j = choose|j: int| 0 <= j < buf@.len() && buf@[j] == '\0';
        assert(buf@[j] != '\0');
    }
    n
}

} // verus!
