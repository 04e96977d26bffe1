//! The precomputed transition table: one state code per neighborhood key,
//! filled once by evaluating the rule on every key. After construction it is
//! read-only shared state for every step pass until the rule changes.

use vstd::prelude::*;
use crate::valid_state;
use crate::neighbor::{
    key_center, key_east, key_north, key_south, key_west, unpack_neighbor_key, KEY_COUNT,
};
use crate::rule::Rule;

verus! {

/// Number of table entries: one per neighborhood key.
pub const TABLE_LEN: usize = 0x2000000;

/// The table a rule determines: entry `k` is the rule applied to the
/// neighborhood that key `k` addresses.
pub open spec fn table_spec<R: Rule>(rule: R) -> Seq<u8> {
    Seq::new(
        TABLE_LEN as nat,
        |k: int| rule.spec_rule(key_center(k), key_north(k), key_east(k), key_south(k), key_west(k)),
    )
}

/// A transition table, immutable after construction.
pub struct TransitionTable {
    entries: Vec<u8>,
}

impl View for TransitionTable {
    type V = Seq<u8>;

    closed spec fn view(&self) -> Seq<u8> {
        self.entries@
    }
}

impl TransitionTable {
    /// Every slot is filled and holds a well-formed state code.
    pub open spec fn wf(&self) -> bool {
        &&& self@.len() == TABLE_LEN
        &&& forall|k: int| 0 <= k < TABLE_LEN ==> valid_state(#[trigger] self@[k])
    }

    /// The entry for key `k`.
    pub fn entry(&self, k: u32) -> (r: u8)
        requires
            self.wf(),
            k < KEY_COUNT,
        ensures
            r == self@[k as int],
            valid_state(r),
    {
        self.entries[k as usize]
    }

    /// Whether two tables hold bitwise-identical contents.
    pub fn same_entries(&self, other: &TransitionTable) -> (r: bool)
        requires
            self.wf(),
            other.wf(),
        ensures
            r == (self@ == other@),
    {
        let mut k: usize = 0;
        while k < TABLE_LEN
            invariant
                self.wf(),
                other.wf(),
                0 <= k <= TABLE_LEN,
                forall|i: int| 0 <= i < k ==> self@[i] == other@[i],
            decreases TABLE_LEN - k,
        {
            if self.entries[k] != other.entries[k] {
                return false;
            }
            k += 1;
        }
        proof {
            assert(self@ =~= other@);
        }
        true
    }
}

/// Builds the transition table for a rule: for every key in [0, 2^25), the
/// key is unpacked into its five neighborhood states and the rule's output
/// is written into that key's slot. The result depends on the rule alone.
pub fn build<R: Rule>(rule: &R) -> (t: TransitionTable)
    ensures
        t.wf(),
        t@ == table_spec(*rule),
{
    let mut entries: Vec<u8> = Vec::with_capacity(TABLE_LEN);
    let mut k: u32 = 0;
    while k < KEY_COUNT
        invariant
            0 <= k <= KEY_COUNT,
            entries@.len() == k,
            forall|i: int| 0 <= i < k ==> entries@[i] == #[trigger] table_spec(*rule)[i],
            forall|i: int| 0 <= i < k ==> valid_state(#[trigger] entries@[i]),
        decreases KEY_COUNT - k,
    {
        let (c, n, e, s, w) = unpack_neighbor_key(k);
        let r = rule.eval(c, n, e, s, w);
        entries.push(r);
        k += 1;
    }
    let t = TransitionTable { entries };
    proof {
        assert(t@ =~= table_spec(*rule));
    }
    t
}

/// Building twice from the same rule gives bitwise-identical tables, in one
/// session or across sessions: the table is a function of the rule alone.
pub proof fn lemma_build_deterministic<R: Rule>(t1: TransitionTable, t2: TransitionTable, rule: R)
    requires
        t1@ == table_spec(rule),
        t2@ == table_spec(rule),
    ensures
        t1@ == t2@,
{
}

} // verus!
