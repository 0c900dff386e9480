//! The nonce store: the process-wide mapping from a client-supplied nonce
//! value to its issuance time.  The control plane owns its lifetime; the
//! request-handling collaborator reads and writes it.  Entries are never
//! proactively expired here.

use vstd::prelude::*;

verus! {

/// Whether some entry in `s` is keyed by `key`.
pub open spec fn has_nonce(s: Seq<(String, u64)>, key: Seq<char>) -> bool {
    exists|i: int| 0 <= i < s.len() && s[i].0@ == key
}

/// `i` is the first index in `s` whose entry is keyed by `key`.
pub open spec fn first_nonce_match(s: Seq<(String, u64)>, key: Seq<char>, i: int) -> bool {
    &&& 0 <= i < s.len()
    &&& s[i].0@ == key
    &&& forall|j: int| 0 <= j < i ==> s[j].0@ != key
}

/// The survival test of a replacement: keeps an entry not keyed by `key`.
pub open spec fn not_keyed_by(key: Seq<char>) -> spec_fn((String, u64)) -> bool {
    |e: (String, u64)| e.0@ != key
}

/// `s` with every entry keyed by `key` removed, order kept.
pub open spec fn remove_nonce(s: Seq<(String, u64)>, key: Seq<char>) -> Seq<(String, u64)> {
    s.filter(not_keyed_by(key))
}

/// The definite outcome of a nonce lookup: the first matching entry's
/// issuance time, or nothing when no entry is keyed by `key`.
pub open spec fn nonce_outcome(s: Seq<(String, u64)>, key: Seq<char>, r: Option<u64>) -> bool {
    if has_nonce(s, key) {
        exists|i: int| #[trigger] first_nonce_match(s, key, i) && r == Some(s[i].1)
    } else {
        r is None
    }
}

/// The shared store of issued nonces and their issuance times (in ticks of
/// whatever clock the embedding supplies).
pub struct NonceStore {
    pub entries: Vec<(String, u64)>,
}

impl NonceStore {
    /// An empty store.
    pub fn new() -> (r: NonceStore)
        ensures
            r.entries@ == Seq::<(String, u64)>::empty(),
    {
        NonceStore { entries: Vec::new() }
    }

    /// Records that `key` was issued at `issued_at`, replacing any earlier
    /// entry for the same nonce value.
    pub fn insert(&mut self, key: String, issued_at: u64)
        ensures
            final(self).entries@ == remove_nonce(old(self).entries@, key@).push((key, issued_at)),
    {
        let ghost pred = not_keyed_by(key@);
        let mut kept: Vec<(String, u64)> = Vec::new();
        proof {
            reveal(Seq::filter);
            assert(self.entries@.subrange(0, 0).filter(pred) =~= kept@);
        }
        let n = self.entries.len();
        let mut i: usize = 0;
        while i < n
            invariant
                n == self.entries.len(),
                *self == *old(self),
                0 <= i <= n,
                pred == not_keyed_by(key@),
                kept@ == self.entries@.subrange(0, i as int).filter(pred),
            decreases n - i,
        {
            proof {
                reveal(Seq::filter);
                let s = self.entries@;
                let s1 = s.subrange(0, i as int + 1);
                assert(s1.drop_last() =~= s.subrange(0, i as int));
                assert(s1.last() == s[i as int]);
                assert(s1.filter(pred) == (if pred(s[i as int]) {
                    s.subrange(0, i as int).filter(pred).push(s[i as int])
                } else {
                    s.subrange(0, i as int).filter(pred)
                }));
            }
            if !(self.entries[i].0 == key) {
                let kept_key = self.entries[i].0.clone();
                let kept_time = self.entries[i].1;
                kept.push((kept_key, kept_time));
            }
            i += 1;
        }
        proof {
            assert(self.entries@.subrange(0, n as int) =~= self.entries@);
        }
        kept.push((key, issued_at));
        self.entries = kept;
    }

    /// The issuance time recorded for `key`, if any.
    pub fn get(&self, key: &String) -> (r: Option<u64>)
        ensures
            nonce_outcome(self.entries@, key@, r),
    {
        let n = self.entries.len();
        let mut i: usize = 0;
        while i < n
            invariant
                n == self.entries.len(),
                0 <= i <= n,
                forall|j: int| 0 <= j < i ==> self.entries@[j].0@ != key@,
            decreases n - i,
        {
            if self.entries[i].0 == *key {
                proof {
                    assert(first_nonce_match(self.entries@, key@, i as int));
                }
                return Some(self.entries[i].1);
            }
            i += 1;
        }
        assert(!has_nonce(self.entries@, key@));
        None
    }
}

} // verus!
