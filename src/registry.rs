use vstd::prelude::*;

use crate::records::{Plonky2Proof, ProofDataPlonky2, SubmitionResult};

verus! {

/// Maps each transaction id to the artifact locations registered last
/// under it. Entries are never removed.
pub struct ProofRegistry {
    entries: Vec<(String, Plonky2Proof)>,
}

/// The registry after `proof` has been registered under `tx_id`: the new
/// entry replaces any earlier one.
pub open spec fn registered(
    reg: Map<Seq<char>, Plonky2Proof>,
    tx_id: Seq<char>,
    proof: Plonky2Proof,
) -> Map<Seq<char>, Plonky2Proof> {
    reg.insert(tx_id, proof)
}

/// Registering twice under one `tx_id` leaves only the second artifacts
/// visible: the result is as if the first registration had not happened.
pub proof fn lemma_register_overwrites(
    reg: Map<Seq<char>, Plonky2Proof>,
    tx_id: Seq<char>,
    first: Plonky2Proof,
    second: Plonky2Proof,
)
    ensures
        registered(registered(reg, tx_id, first), tx_id, second) == registered(reg, tx_id, second),
        registered(registered(reg, tx_id, first), tx_id, second)[tx_id] == second,
{
    assert(registered(registered(reg, tx_id, first), tx_id, second) =~= registered(
        reg,
        tx_id,
        second,
    ));
}

spec fn keys_unique_in(e: Seq<(String, Plonky2Proof)>) -> bool {
    forall|i: int, j: int| 0 <= i < j < e.len() ==> e[i].0@ != e[j].0@
}

spec fn entries_map(e: Seq<(String, Plonky2Proof)>) -> Map<Seq<char>, Plonky2Proof> {
    Map::new(
        |k: Seq<char>| exists|i: int| 0 <= i < e.len() && e[i].0@ == k,
        |k: Seq<char>| e[choose|i: int| 0 <= i < e.len() && e[i].0@ == k].1,
    )
}

/// Writing `(k, v)` at position `m` of unique-keyed entries, where `m`
/// either holds key `k` already or is one past the end and `k` is new,
/// keeps the keys unique and inserts `k` into the map they stand for.
proof fn lemma_write_entry(
    old_e: Seq<(String, Plonky2Proof)>,
    new_e: Seq<(String, Plonky2Proof)>,
    k: Seq<char>,
    v: Plonky2Proof,
    m: int,
)
    requires
        keys_unique_in(old_e),
        0 <= m <= old_e.len(),
        m < old_e.len() ==> old_e[m].0@ == k,
        m == old_e.len() ==> !entries_map(old_e).contains_key(k),
        new_e.len() == (if m < old_e.len() { old_e.len() } else { old_e.len() + 1 }),
        new_e[m].0@ == k,
        new_e[m].1 == v,
        forall|j: int| 0 <= j < new_e.len() && j != m ==> new_e[j] == old_e[j],
    ensures
        keys_unique_in(new_e),
        entries_map(new_e) == entries_map(old_e).insert(k, v),
{
    assert forall|a: int, b: int| 0 <= a < b < new_e.len() implies new_e[a].0@ != new_e[b].0@ by {
        if a == m {
            if m < old_e.len() {
                assert(old_e[a].0@ != old_e[b].0@);
            }
        } else if b == m {
            if m < old_e.len() {
                assert(old_e[a].0@ != old_e[b].0@);
            } else {
                assert(old_e[a].0@ != k);
            }
        } else {
            assert(old_e[a].0@ != old_e[b].0@);
        }
    }
    let target = entries_map(old_e).insert(k, v);
    assert forall|x: Seq<char>| #[trigger] entries_map(new_e).contains_key(x)
        == target.contains_key(x) by {
        if x != k && entries_map(new_e).contains_key(x) {
            let j = choose|j: int| 0 <= j < new_e.len() && new_e[j].0@ == x;
            assert(old_e[j].0@ == x);
        }
        if x != k && entries_map(old_e).contains_key(x) {
            let j = choose|j: int| 0 <= j < old_e.len() && old_e[j].0@ == x;
            assert(new_e[j].0@ == x);
        }
        if x == k {
            assert(new_e[m].0@ == x);
        }
    }
    assert forall|x: Seq<char>| #[trigger] entries_map(new_e).contains_key(x) implies entries_map(
        new_e,
    )[x] == target[x] by {
        let j = choose|j: int| 0 <= j < new_e.len() && new_e[j].0@ == x;
        if x == k {
            assert(new_e[m].0@ == x);
            assert(j == m);
        } else {
            assert(j != m);
            assert(old_e[j].0@ == x);
            let oj = choose|oj: int| 0 <= oj < old_e.len() && old_e[oj].0@ == x;
            assert(oj == j);
        }
    }
    assert(entries_map(new_e) =~= target);
}

impl ProofRegistry {
    /// No two entries share a key.
    #[verifier::type_invariant]
    spec fn keys_unique(&self) -> bool {
        keys_unique_in(self.entries@)
    }

    /// Each registered `tx_id`, as text, mapped to its artifact locations.
    pub closed spec fn view(&self) -> Map<Seq<char>, Plonky2Proof> {
        entries_map(self.entries@)
    }

    /// An empty registry.
    pub fn new() -> (r: ProofRegistry)
        ensures
            r@ == Map::<Seq<char>, Plonky2Proof>::empty(),
    {
        let r = ProofRegistry { entries: Vec::new() };
        assert(r@ =~= Map::<Seq<char>, Plonky2Proof>::empty());
        r
    }

    /// The position of the entry keyed by `tx_id`, if there is one.
    fn position(&self, tx_id: &String) -> (r: Option<usize>)
        ensures
            match r {
                Some(i) => i < self.entries@.len() && self.entries@[i as int].0@ == tx_id@,
                None => !self@.contains_key(tx_id@),
            },
    {
        proof {
            use_type_invariant(self);
        }
        let mut i: usize = 0;
        while i < self.entries.len()
            invariant
                i <= self.entries@.len(),
                forall|j: int| 0 <= j < i ==> self.entries@[j].0@ != tx_id@,
            decreases self.entries@.len() - i,
        {
            if self.entries[i].0 == *tx_id {
                return Some(i);
            }
            i = i + 1;
        }
        None
    }

    /// The artifact locations registered last under `tx_id`, if any.
    pub fn lookup(&self, tx_id: &String) -> (r: Option<&Plonky2Proof>)
        ensures
            r == (if self@.contains_key(tx_id@) {
                Some(&self@[tx_id@])
            } else {
                None::<&Plonky2Proof>
            }),
    {
        proof {
            use_type_invariant(self);
        }
        match self.position(tx_id) {
            Some(i) => {
                let ghost k = tx_id@;
                assert(self@.contains_key(k));
                let ghost c = choose|j: int| 0 <= j < self.entries@.len() && self.entries@[j].0@ == k;
                assert(c == i as int);
                Some(&self.entries[i].1)
            },
            None => None,
        }
    }

    /// Whether an entry is registered under `tx_id`.
    pub fn contains(&self, tx_id: &String) -> (r: bool)
        ensures
            r == self@.contains_key(tx_id@),
    {
        self.position(tx_id).is_some()
    }

    /// Stores `proof` under `tx_id`, replacing any earlier entry.
    pub fn register(&mut self, tx_id: String, proof: Plonky2Proof)
        ensures
            final(self)@ == registered(old(self)@, tx_id@, proof),
    {
        let ghost k = tx_id@;
        let ghost old_entries = self.entries@;
        let mut taken = ProofRegistry::new();
        std::mem::swap(self, &mut taken);
        proof {
            use_type_invariant(&taken);
        }
        let found = taken.position(&tx_id);
        let ProofRegistry { mut entries } = taken;
        let ghost m: int;
        match found {
            Some(i) => {
                entries.set(i, (tx_id, proof));
                proof {
                    m = i as int;
                }
            },
            None => {
                entries.push((tx_id, proof));
                proof {
                    m = old_entries.len() as int;
                }
            },
        }
        proof {
            lemma_write_entry(old_entries, entries@, k, proof, m);
        }
        *self = ProofRegistry { entries };
    }
}

/// Records the artifacts of a registration; registration always succeeds.
pub fn register_proof(registry: &mut ProofRegistry, data: ProofDataPlonky2) -> (r: SubmitionResult)
    ensures
        final(registry)@ == registered(old(registry)@, data.tx_id@, data.artifacts()),
        r.is_submitted,
{
    let (tx_id, proof) = data.into_parts();
    registry.register(tx_id, proof);
    SubmitionResult { is_submitted: true }
}

} // verus!
