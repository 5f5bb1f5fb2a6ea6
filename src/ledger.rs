use vstd::prelude::*;
use crate::address::{grant_address, tombstone_address, vault_address};
use crate::key::Key;
use crate::records::Record;

verus! {

/// One occupied slot of the store.
pub struct Slot {
    pub address: Key,
    pub record: Record,
}

/// The in-memory record store of one program: slots keyed by derived address,
/// each empty or holding exactly one record.
pub struct Ledger {
    program_id: Key,
    slots: Vec<Slot>,
}

/// Abstract state of a ledger: the owning program and the occupied slots.
pub struct LedgerView {
    pub program: Seq<u8>,
    pub slots: Map<Seq<u8>, Record>,
}

/// Whether address `a` is held by some slot of `s`.
pub open spec fn holds(s: Seq<Slot>, a: Seq<u8>) -> bool {
    exists|i: int| 0 <= i < s.len() && s[i].address@ == a
}

/// The slots of `s` as a map from address to record.
pub open spec fn slot_map(s: Seq<Slot>) -> Map<Seq<u8>, Record> {
    Map::new(
        |a: Seq<u8>| holds(s, a),
        |a: Seq<u8>| s[choose|i: int| 0 <= i < s.len() && s[i].address@ == a].record,
    )
}

/// No two slots of `s` share an address.
pub open spec fn distinct_addresses(s: Seq<Slot>) -> bool {
    forall|i: int, j: int|
        0 <= i < s.len() && 0 <= j < s.len() && i != j ==> s[i].address@ != s[j].address@
}

/// Whether `rec` lies at the address derived from its own fields.
pub open spec fn at_home(program: Seq<u8>, a: Seq<u8>, rec: Record) -> bool {
    match rec {
        Record::Vault(v) => vault_address(program, v.owner@) == Some(a),
        Record::Grant(g) => grant_address(program, g.owner@, g.grantee@, g.scope_hash@) == Some(a),
        Record::Tombstone(t) => tombstone_address(program, t.grant@) == Some(a),
    }
}

impl LedgerView {
    /// Every record lies at the address derived from its identifying fields.
    pub open spec fn consistent(self) -> bool {
        forall|a: Seq<u8>| #[trigger]
            self.slots.contains_key(a) ==> at_home(self.program, a, self.slots[a])
    }

    /// The same program, with `slots` in place of the current slots.
    pub open spec fn with_slots(self, slots: Map<Seq<u8>, Record>) -> LedgerView {
        LedgerView { program: self.program, slots }
    }
}

proof fn lemma_slot_at(s: Seq<Slot>, i: int)
    requires
        distinct_addresses(s),
        0 <= i < s.len(),
    ensures
        slot_map(s).contains_key(s[i].address@),
        slot_map(s)[s[i].address@] == s[i].record,
{
    let a = s[i].address@;
    assert(holds(s, a));
    let k = choose|k: int| 0 <= k < s.len() && s[k].address@ == a;
    assert(k == i);
}

impl View for Ledger {
    type V = LedgerView;

    closed spec fn view(&self) -> LedgerView {
        LedgerView { program: self.program_id@, slots: slot_map(self.slots@) }
    }
}

impl Ledger {
    /// The ledger's internal invariant: no address is held twice.
    #[verifier::type_invariant]
    spec fn wf(&self) -> bool {
        distinct_addresses(self.slots@)
    }

    /// An empty store for the program `program_id`.
    pub fn new(program_id: Key) -> (r: Ledger)
        ensures
            r@.program == program_id@,
            r@.slots == Map::<Seq<u8>, Record>::empty(),
            r@.consistent(),
    {
        let r = Ledger { program_id, slots: Vec::new() };
        assert(r@.slots =~= Map::<Seq<u8>, Record>::empty());
        r
    }

    /// The id of the program that owns this store.
    pub fn program_id(&self) -> (r: Key)
        ensures
            r@ == self@.program,
    {
        self.program_id
    }

    /// Index of the slot at `address`, if it is occupied.
    fn position(&self, address: &Key) -> (r: Option<usize>)
        ensures
            r is Some <==> self@.slots.contains_key(address@),
            r is Some ==> r->0 < self.slots@.len() && self.slots@[r->0 as int].address@ == address@
                && self@.slots[address@] == self.slots@[r->0 as int].record,
    {
        proof {
            use_type_invariant(self);
        }
        let mut i: usize = 0;
        while i < self.slots.len()
            invariant
                0 <= i <= self.slots@.len(),
                distinct_addresses(self.slots@),
                forall|j: int| 0 <= j < i ==> self.slots@[j].address@ != address@,
            decreases self.slots@.len() - i,
        {
            if self.slots[i].address.same_as(address) {
                proof {
                    lemma_slot_at(self.slots@, i as int);
                }
                return Some(i);
            }
            i = i + 1;
        }
        None
    }

    /// Whether the slot at `address` is occupied.
    pub fn contains(&self, address: &Key) -> (r: bool)
        ensures
            r == self@.slots.contains_key(address@),
    {
        self.position(address).is_some()
    }

    /// The record at `address`, if any.
    pub fn get(&self, address: &Key) -> (r: Option<&Record>)
        ensures
            r is Some <==> self@.slots.contains_key(address@),
            r is Some ==> *r->0 == self@.slots[address@],
    {
        match self.position(address) {
            Some(i) => Some(&self.slots[i].record),
            None => None,
        }
    }

    /// Fills the empty slot at `address` with `record`.
    pub(crate) fn create(&mut self, address: Key, record: Record)
        requires
            !old(self)@.slots.contains_key(address@),
        ensures
            final(self)@.program == old(self)@.program,
            final(self)@.slots == old(self)@.slots.insert(address@, record),
            old(self)@.consistent() && at_home(old(self)@.program, address@, record)
                ==> final(self)@.consistent(),
    {
        proof {
            use_type_invariant(&*self);
        }
        let ghost s0 = self.slots@;
        let ghost a = address@;
        let mut slots: Vec<Slot> = Vec::new();
        std::mem::swap(&mut self.slots, &mut slots);
        slots.push(Slot { address, record });
        let ghost s1 = slots@;
        assert(forall|j: int| 0 <= j < s0.len() ==> s0[j].address@ != a);
        assert(s1.len() == s0.len() + 1);
        assert forall|i: int| 0 <= i < s0.len() implies s1[i] == s0[i] by {}
        assert(distinct_addresses(s1));
        assert forall|b: Seq<u8>| #[trigger] slot_map(s1).contains_key(b) == old(
            self,
        )@.slots.insert(a, record).contains_key(b) by {
            if holds(s0, b) {
                let k = choose|k: int| 0 <= k < s0.len() && s0[k].address@ == b;
                assert(s1[k].address@ == b);
            }
            if holds(s1, b) && b != a {
                let k = choose|k: int| 0 <= k < s1.len() && s1[k].address@ == b;
                assert(k != s0.len());
                assert(s0[k].address@ == b);
            }
            if b == a {
                assert(s1[s0.len() as int].address@ == a);
            }
        }
        assert forall|b: Seq<u8>| #[trigger] slot_map(s1).contains_key(b) implies slot_map(s1)[b]
            == old(self)@.slots.insert(a, record)[b] by {
            let k = choose|k: int| 0 <= k < s1.len() && s1[k].address@ == b;
            lemma_slot_at(s1, k);
            if b != a {
                assert(k != s0.len());
                lemma_slot_at(s0, k);
            }
        }
        let ghost m = old(self)@.slots.insert(a, record);
        assert(slot_map(s1) =~= m);
        proof {
            if old(self)@.consistent() && at_home(old(self)@.program, a, record) {
                assert forall|b: Seq<u8>| #[trigger] m.contains_key(b) implies at_home(
                    old(self)@.program,
                    b,
                    m[b],
                ) by {
                    if b != a {
                        assert(old(self)@.slots.contains_key(b));
                    }
                }
            }
        }
        self.slots = slots;
    }

    /// Replaces the record in the occupied slot at `address` with `record`.
    pub(crate) fn replace(&mut self, address: &Key, record: Record)
        requires
            old(self)@.slots.contains_key(address@),
        ensures
            final(self)@.program == old(self)@.program,
            final(self)@.slots == old(self)@.slots.insert(address@, record),
            old(self)@.consistent() && at_home(old(self)@.program, address@, record)
                ==> final(self)@.consistent(),
    {
        proof {
            use_type_invariant(&*self);
        }
        let i = self.position(address).unwrap();
        let ghost s0 = self.slots@;
        let ghost a = address@;
        let key = *address;
        let mut slots: Vec<Slot> = Vec::new();
        std::mem::swap(&mut self.slots, &mut slots);
        slots.set(i, Slot { address: key, record });
        let ghost s1 = slots@;
        assert(s1 == s0.update(i as int, Slot { address: key, record }));
        assert(distinct_addresses(s1));
        assert forall|b: Seq<u8>| #[trigger] slot_map(s1).contains_key(b) == old(
            self,
        )@.slots.insert(a, record).contains_key(b) by {
            if holds(s0, b) {
                let k = choose|k: int| 0 <= k < s0.len() && s0[k].address@ == b;
                assert(s1[k].address@ == b);
            }
            if holds(s1, b) {
                let k = choose|k: int| 0 <= k < s1.len() && s1[k].address@ == b;
                assert(s0[k].address@ == b);
            }
        }
        assert forall|b: Seq<u8>| #[trigger] slot_map(s1).contains_key(b) implies slot_map(s1)[b]
            == old(self)@.slots.insert(a, record)[b] by {
            let k = choose|k: int| 0 <= k < s1.len() && s1[k].address@ == b;
            lemma_slot_at(s1, k);
            if b != a {
                lemma_slot_at(s0, k);
            }
        }
        let ghost m = old(self)@.slots.insert(a, record);
        assert(slot_map(s1) =~= m);
        proof {
            if old(self)@.consistent() && at_home(old(self)@.program, a, record) {
                assert forall|b: Seq<u8>| #[trigger] m.contains_key(b) implies at_home(
                    old(self)@.program,
                    b,
                    m[b],
                ) by {
                    if b != a {
                        assert(old(self)@.slots.contains_key(b));
                    }
                }
            }
        }
        self.slots = slots;
    }
}

} // verus!
