//! Session endpoint naming.
//!
//! An endpoint name is derived deterministically from a session id by
//! prepending the local pipe namespace prefix.  An id that already
//! carries the start of that namespace is a caller mistake and is
//! rejected, never silently fixed.

use vstd::prelude::*;

verus! {

/// The namespace prefix of every session endpoint name.
pub open spec fn spec_endpoint_prefix() -> Seq<char> {
    "\\\\.\\pipe\\"@
}

/// An id that already begins like a namespaced endpoint name.
pub open spec fn spec_reserved_id(id: Seq<char>) -> bool {
    id.len() >= 3 && id[0] == '\\' && id[1] == '\\' && id[2] == '.'
}

/// The endpoint name derived from a session id.
pub open spec fn spec_endpoint_name(id: Seq<char>) -> Seq<char> {
    spec_endpoint_prefix() + id
}

/// Naming invariant: construction prepends the namespace prefix exactly
/// once.  The name of an accepted id begins with the prefix, what follows
/// the prefix is the id itself, and that id does not begin like a
/// namespaced name, so a second prefix never appears.
pub proof fn lemma_endpoint_name_prefixed_once(id: Seq<char>)
    requires
        !spec_reserved_id(id),
    ensures
        spec_endpoint_name(id).len() == 9 + id.len(),
        spec_endpoint_name(id).take(9) == spec_endpoint_prefix(),
        spec_endpoint_name(id).skip(9) == id,
        !spec_reserved_id(spec_endpoint_name(id).skip(9)),
{
    reveal_strlit("\\\\.\\pipe\\");
    assert(spec_endpoint_name(id).take(9) =~= spec_endpoint_prefix());
    assert(spec_endpoint_name(id).skip(9) =~= id);
}

/// Derive the endpoint name for a session id; a reserved id (one that
/// already begins like a namespaced name) is rejected.
pub fn pipe_name(pipe_id: &str) -> (r: Option<String>)
    ensures
        spec_reserved_id(pipe_id@) <==> r is None,
        r matches Some(s) ==> s@ == spec_endpoint_name(pipe_id@),
{
    let n = pipe_id.unicode_len();
    if n >= 3 && pipe_id.get_char(0) == '\\' && pipe_id.get_char(1) == '\\' && pipe_id.get_char(2)
        == '.' {
        return None;
    }
    let prefix = "\\\\.\\pipe\\";
    let base = String::from_str(prefix);
    let joined = base.concat(pipe_id);
    proof {
        assert(joined@ == spec_endpoint_name(pipe_id@));
    }
    Some(joined)
}

} // verus!
