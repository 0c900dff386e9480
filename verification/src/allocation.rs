//! The per-listener allocation manager: the set of active relay sessions
//! owned by one listener loop, with creation, eviction by owning identity,
//! metrics readback and bulk close.

use vstd::prelude::*;

use crate::types::Error;
use crate::types::FiveTuple;

verus! {

/// One active relay session: its five-tuple key, the identity that owns it,
/// and the number of relayed bytes recorded for it.
pub struct AllocationInfo {
    pub five_tuple: FiveTuple,
    pub username: String,
    pub relayed_bytes: usize,
}

/// A fresh session for `ft`, owned by `username`, with no traffic yet.
pub open spec fn new_allocation(ft: FiveTuple, username: String) -> AllocationInfo {
    AllocationInfo { five_tuple: ft, username, relayed_bytes: 0 }
}

/// Whether some session in `s` is keyed by `ft`.
pub open spec fn has_session(s: Seq<AllocationInfo>, ft: FiveTuple) -> bool {
    exists|i: int| 0 <= i < s.len() && s[i].five_tuple == ft
}

/// `i` is the first index in `s` whose session is keyed by `ft`.
pub open spec fn first_match(s: Seq<AllocationInfo>, ft: FiveTuple, i: int) -> bool {
    &&& 0 <= i < s.len()
    &&& s[i].five_tuple == ft
    &&& forall|j: int| 0 <= j < i ==> s[j].five_tuple != ft
}

/// The survival test of an eviction: keeps a session not owned by `name`.
pub open spec fn not_owned_by(name: Seq<char>) -> spec_fn(AllocationInfo) -> bool {
    |a: AllocationInfo| a.username@ != name
}

/// `s` with every session owned by `name` removed, order kept.
pub open spec fn remove_owner(s: Seq<AllocationInfo>, name: Seq<char>) -> Seq<AllocationInfo> {
    s.filter(not_owned_by(name))
}

/// Addition capped at the largest representable count.
pub open spec fn sat_add_spec(a: usize, b: usize) -> usize {
    if a + b <= usize::MAX {
        (a + b) as usize
    } else {
        usize::MAX
    }
}

/// `a` with `bytes` more relayed bytes recorded, capped.
pub open spec fn bump(a: AllocationInfo, bytes: usize) -> AllocationInfo {
    AllocationInfo {
        five_tuple: a.five_tuple,
        username: a.username,
        relayed_bytes: sat_add_spec(a.relayed_bytes, bytes),
    }
}

/// How a manager's sessions change when `bytes` of traffic are relayed on the
/// session keyed by `ft`: the first matching session's counter grows, capped;
/// with no matching session nothing changes.
pub open spec fn relay_recorded(
    pre: Seq<AllocationInfo>,
    post: Seq<AllocationInfo>,
    ft: FiveTuple,
    bytes: usize,
) -> bool {
    if has_session(pre, ft) {
        exists|i: int| #[trigger] first_match(pre, ft, i) && post == pre.update(i, bump(pre[i], bytes))
    } else {
        post == pre
    }
}

/// The definite outcome of a metrics lookup: the first matching session's
/// counter, or a not-found error when no session is keyed by `ft`.
pub open spec fn metrics_outcome(s: Seq<AllocationInfo>, ft: FiveTuple, r: Result<usize, Error>) -> bool {
    if has_session(s, ft) {
        exists|i: int| #[trigger] first_match(s, ft, i) && r == Ok::<usize, Error>(s[i].relayed_bytes)
    } else {
        r == Err::<usize, Error>(Error::NoSuchAllocation)
    }
}

/// Well-formedness of a session set: no two sessions share a five-tuple
/// key, so a lookup by five-tuple names at most one session.
pub open spec fn unique_sessions(s: Seq<AllocationInfo>) -> bool {
    forall|i: int, j: int| 0 <= i < j < s.len() ==> s[i].five_tuple != s[j].five_tuple
}

/// Evicting an identity keeps the session keys unique.
pub proof fn lemma_remove_owner_preserves_unique(s: Seq<AllocationInfo>, name: Seq<char>)
    requires
        unique_sessions(s),
    ensures
        unique_sessions(remove_owner(s, name)),
    decreases s.len(),
{
    reveal(Seq::filter);
    let pred = not_owned_by(name);
    if s.len() > 0 {
        let prefix = s.drop_last();
        assert forall|i: int, j: int| 0 <= i < j < prefix.len() implies prefix[i].five_tuple
            != prefix[j].five_tuple by {
            assert(prefix[i] == s[i]);
            assert(prefix[j] == s[j]);
        }
        lemma_remove_owner_preserves_unique(prefix, name);
        let fp = prefix.filter(pred);
        if pred(s.last()) {
            let out = fp.push(s.last());
            assert(remove_owner(s, name) == out);
            assert forall|i: int, j: int| 0 <= i < j < out.len() implies out[i].five_tuple
                != out[j].five_tuple by {
                if j < fp.len() {
                    assert(out[i] == fp[i] && out[j] == fp[j]);
                } else {
                    assert(out[i] == fp[i]);
                    assert(fp.contains(fp[i]));
                    prefix.lemma_filter_contains_rev(pred, fp[i]);
                    let idx = prefix.lemma_contains_to_index(fp[i]);
                    assert(s[idx] == out[i]);
                    assert(s[idx].five_tuple != s[s.len() - 1].five_tuple);
                }
            }
        } else {
            assert(remove_owner(s, name) == fp);
        }
    }
}

/// A session with a fresh key keeps the session keys unique.
pub proof fn lemma_new_session_preserves_unique(
    s: Seq<AllocationInfo>,
    ft: FiveTuple,
    username: String,
)
    requires
        unique_sessions(s),
        !has_session(s, ft),
    ensures
        unique_sessions(s.push(new_allocation(ft, username))),
{
    let out = s.push(new_allocation(ft, username));
    assert forall|i: int, j: int| 0 <= i < j < out.len() implies out[i].five_tuple
        != out[j].five_tuple by {
        if j == s.len() {
            assert(out[i] == s[i]);
        } else {
            assert(out[i] == s[i] && out[j] == s[j]);
        }
    }
}

/// Recording relayed traffic keeps the session keys unique: only a counter
/// changes, never a key.
pub proof fn lemma_relay_preserves_unique(
    pre: Seq<AllocationInfo>,
    post: Seq<AllocationInfo>,
    ft: FiveTuple,
    bytes: usize,
)
    requires
        unique_sessions(pre),
        relay_recorded(pre, post, ft, bytes),
    ensures
        unique_sessions(post),
{
    if has_session(pre, ft) {
        let k = choose|k: int|
            #[trigger] first_match(pre, ft, k) && post == pre.update(k, bump(pre[k], bytes));
        assert forall|i: int, j: int| 0 <= i < j < post.len() implies post[i].five_tuple
            != post[j].five_tuple by {
            assert(post[i].five_tuple == pre[i].five_tuple);
            assert(post[j].five_tuple == pre[j].five_tuple);
        }
    }
}

impl AllocationInfo {
    /// An owned copy of this session record.
    pub fn duplicate(&self) -> (r: AllocationInfo)
        ensures
            r == *self,
    {
        AllocationInfo {
            five_tuple: self.five_tuple,
            username: self.username.clone(),
            relayed_bytes: self.relayed_bytes,
        }
    }
}

/// The set of active relay sessions of one listener loop.  The loop owns its
/// manager exclusively; no lock is needed for it.
pub struct AllocationManager {
    pub allocations: Vec<AllocationInfo>,
}

impl AllocationManager {
    /// A manager with no sessions.
    pub fn new() -> (r: AllocationManager)
        ensures
            r.allocations@ == Seq::<AllocationInfo>::empty(),
    {
        AllocationManager { allocations: Vec::new() }
    }

    /// Creates a session keyed by `ft` for `username`; refuses a key that is
    /// already in use.
    pub fn create_allocation(&mut self, ft: FiveTuple, username: String) -> (r: bool)
        ensures
            has_session(old(self).allocations@, ft) ==> r == false && *final(self) == *old(self),
            !has_session(old(self).allocations@, ft) ==> r == true && final(self).allocations@
                == old(self).allocations@.push(new_allocation(ft, username)),
    {
        let n = self.allocations.len();
        let mut i: usize = 0;
        while i < n
            invariant
                n == self.allocations.len(),
                *self == *old(self),
                0 <= i <= n,
                forall|j: int| 0 <= j < i ==> self.allocations@[j].five_tuple != ft,
            decreases n - i,
        {
            if self.allocations[i].five_tuple == ft {
                return false;
            }
            i += 1;
        }
        assert(!has_session(self.allocations@, ft));
        self.allocations.push(AllocationInfo { five_tuple: ft, username, relayed_bytes: 0 });
        true
    }

    /// Evicts every session owned by `username`; the other sessions keep
    /// their order.
    pub fn delete_allocations_by_username(&mut self, username: &String)
        ensures
            final(self).allocations@ == remove_owner(old(self).allocations@, username@),
    {
        let ghost pred = not_owned_by(username@);
        let mut kept: Vec<AllocationInfo> = Vec::new();
        proof {
            reveal(Seq::filter);
            assert(self.allocations@.subrange(0, 0).filter(pred) =~= kept@);
        }
        let n = self.allocations.len();
        let mut i: usize = 0;
        while i < n
            invariant
                n == self.allocations.len(),
                *self == *old(self),
                0 <= i <= n,
                pred == not_owned_by(username@),
                kept@ == self.allocations@.subrange(0, i as int).filter(pred),
            decreases n - i,
        {
            proof {
                reveal(Seq::filter);
                let s = self.allocations@;
                let s1 = s.subrange(0, i as int + 1);
                assert(s1.drop_last() =~= s.subrange(0, i as int));
                assert(s1.last() == s[i as int]);
                assert(s1.filter(pred) == (if pred(s[i as int]) {
                    s.subrange(0, i as int).filter(pred).push(s[i as int])
                } else {
                    s.subrange(0, i as int).filter(pred)
                }));
            }
            if !(self.allocations[i].username == *username) {
                kept.push(self.allocations[i].duplicate());
            }
            i += 1;
        }
        proof {
            assert(self.allocations@.subrange(0, n as int) =~= self.allocations@);
        }
        self.allocations = kept;
    }

    /// A snapshot of the current session set, in order.
    pub fn get_allocations(&self) -> (r: Vec<AllocationInfo>)
        ensures
            r@ == self.allocations@,
    {
        let mut out: Vec<AllocationInfo> = Vec::new();
        let n = self.allocations.len();
        let mut i: usize = 0;
        while i < n
            invariant
                n == self.allocations.len(),
                0 <= i <= n,
                out@ =~= self.allocations@.subrange(0, i as int),
            decreases n - i,
        {
            out.push(self.allocations[i].duplicate());
            i += 1;
        }
        proof {
            assert(self.allocations@.subrange(0, n as int) =~= self.allocations@);
        }
        out
    }

    /// The relayed-byte count of the session keyed by `ft`, or a not-found
    /// error when none is.
    pub fn get_metrics(&self, ft: FiveTuple) -> (r: Result<usize, Error>)
        ensures
            metrics_outcome(self.allocations@, ft, r),
    {
        let n = self.allocations.len();
        let mut i: usize = 0;
        while i < n
            invariant
                n == self.allocations.len(),
                0 <= i <= n,
                forall|j: int| 0 <= j < i ==> self.allocations@[j].five_tuple != ft,
            decreases n - i,
        {
            if self.allocations[i].five_tuple == ft {
                proof {
                    assert(first_match(self.allocations@, ft, i as int));
                }
                return Ok(self.allocations[i].relayed_bytes);
            }
            i += 1;
        }
        assert(!has_session(self.allocations@, ft));
        Err(Error::NoSuchAllocation)
    }

    /// Records `bytes` of relayed traffic on the session keyed by `ft`,
    /// capped at the largest representable count; with no matching session
    /// nothing changes.
    pub fn add_relayed_bytes(&mut self, ft: FiveTuple, bytes: usize)
        ensures
            relay_recorded(old(self).allocations@, final(self).allocations@, ft, bytes),
    {
        let n = self.allocations.len();
        let mut i: usize = 0;
        while i < n
            invariant
                n == self.allocations.len(),
                *self == *old(self),
                0 <= i <= n,
                forall|j: int| 0 <= j < i ==> self.allocations@[j].five_tuple != ft,
            decreases n - i,
        {
            if self.allocations[i].five_tuple == ft {
                let ghost pre = self.allocations@;
                let cur_bytes = self.allocations[i].relayed_bytes;
                let name = self.allocations[i].username.clone();
                let total: usize = if bytes <= usize::MAX - cur_bytes {
                    cur_bytes + bytes
                } else {
                    usize::MAX
                };
                let updated = AllocationInfo {
                    five_tuple: ft,
                    username: name,
                    relayed_bytes: total,
                };
                proof {
                    assert(updated == bump(pre[i as int], bytes));
                }
                self.allocations[i] = updated;
                proof {
                    assert(first_match(pre, ft, i as int));
                    assert(self.allocations@ == pre.update(i as int, bump(pre[i as int], bytes)));
                }
                return ;
            }
            i += 1;
        }
        assert(!has_session(self.allocations@, ft));
    }

    /// Releases every session.
    pub fn close(&mut self)
        ensures
            final(self).allocations@ == Seq::<AllocationInfo>::empty(),
    {
        self.allocations = Vec::new();
    }
}

} // verus!
