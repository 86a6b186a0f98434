//! The connection-activation namespace: the bus path prefix under which
//! currently active network connections are published.
use vstd::prelude::*;

verus! {

/// Path prefix of the bus objects that stand for active connections.
pub const ACTIVE_CONNECTION_PREFIX: &'static str = "/org/freedesktop/NetworkManager/ActiveConnection/";

/// A bus path lies in the activation namespace when the prefix starts it.
pub open spec fn in_active_namespace(path: Seq<char>) -> bool {
    ACTIVE_CONNECTION_PREFIX@.is_prefix_of(path)
}

/// Tells whether `prefix` starts `s`, character by character.
pub fn starts_with(s: &str, prefix: &str) -> (r: bool)
    ensures
        r == prefix@.is_prefix_of(s@),
{
    let n = prefix.unicode_len();
    let m = s.unicode_len();
    if n > m {
        return false;
    }
    let mut i: usize = 0;
    while i < n
        invariant
            n == prefix@.len(),
            m == s@.len(),
            n <= m,
            i <= n,
            forall|j: int| 0 <= j < i ==> prefix@[j] == s@[j],
        decreases n - i,
    {
        if prefix.get_char(i) != s.get_char(i) {
            return false;
        }
        i = i + 1;
    }
    assert(prefix@ =~= s@.subrange(0, n as int));
    true
}

/// Tells whether a bus path names an active connection. Events about any
/// other object are expected noise from the bus and are dropped.
pub fn is_active_connection_path(path: &str) -> (r: bool)
    ensures
        r == in_active_namespace(path@),
{
    starts_with(path, ACTIVE_CONNECTION_PREFIX)
}

} // verus!
