//! The process-wide table that maps a type's identity to the name it was
//! registered under. Registration is keyed by type identity alone.
use vstd::prelude::*;

verus! {

/// What the registry records for one registered type.
pub struct RegisteredClass {
    pub type_id: u64,
    pub name: String,
    pub base_name: String,
}

/// The mathematical content of a [`RegisteredClass`].
pub struct ClassRecord {
    pub name: Seq<char>,
    pub base_name: Seq<char>,
}

impl RegisteredClass {
    pub open spec fn record(&self) -> ClassRecord {
        ClassRecord { name: self.name@, base_name: self.base_name@ }
    }

    /// A copy of this record.
    pub fn duplicate(&self) -> (r: RegisteredClass)
        ensures
            r.type_id == self.type_id,
            r.record() == self.record(),
    {
        RegisteredClass {
            type_id: self.type_id,
            name: self.name.clone(),
            base_name: self.base_name.clone(),
        }
    }
}

/// The record a registry lookup returned, if any.
pub open spec fn record_of(r: Option<RegisteredClass>) -> Option<ClassRecord> {
    match r {
        Some(c) => Some(c.record()),
        None => None,
    }
}

/// What registering `rec` for `type_id` in `m` returns and the registry after
/// it: the earlier record, with nothing changed, when the type is present;
/// otherwise nothing, and the new record is added.
pub open spec fn spec_register(m: Map<u64, ClassRecord>, type_id: u64, rec: ClassRecord) -> (Option<
    ClassRecord,
>, Map<u64, ClassRecord>) {
    if m.contains_key(type_id) {
        (Some(m[type_id]), m)
    } else {
        (None, m.insert(type_id, rec))
    }
}

/// A type registered once and then registered again, under any name, gets
/// its first record back, and the registry keeps that record unchanged.
pub proof fn lemma_second_registration_keeps_first(
    m: Map<u64, ClassRecord>,
    type_id: u64,
    first: ClassRecord,
    second: ClassRecord,
)
    requires
        !m.contains_key(type_id),
    ensures
        spec_register(m, type_id, first).0 is None,
        ({
            let m1 = spec_register(m, type_id, first).1;
            &&& spec_register(m1, type_id, second).0 == Some(first)
            &&& spec_register(m1, type_id, second).1 == m1
            &&& m1[type_id] == first
        }),
{
}

/// Registration is keyed by type identity alone: two different types that
/// neither was registered before both register, also under the same name, and
/// both records are kept.
pub proof fn lemma_distinct_types_share_name(
    m: Map<u64, ClassRecord>,
    a: u64,
    b: u64,
    rec_a: ClassRecord,
    rec_b: ClassRecord,
)
    requires
        a != b,
        !m.contains_key(a),
        !m.contains_key(b),
    ensures
        ({
            let m1 = spec_register(m, a, rec_a).1;
            let (r2, m2) = spec_register(m1, b, rec_b);
            &&& spec_register(m, a, rec_a).0 is None
            &&& r2 is None
            &&& m2[a] == rec_a
            &&& m2[b] == rec_b
        }),
{
}

/// Type identity to registered class. Entries are never overwritten.
pub struct ClassRegistry {
    entries: Vec<RegisteredClass>,
}

impl ClassRegistry {
    /// No two entries share a type identity.
    pub closed spec fn wf(&self) -> bool {
        forall|i: int, j: int|
            0 <= i < self.entries@.len() && 0 <= j < self.entries@.len() && i != j
                ==> #[trigger] self.entries@[i].type_id != #[trigger] self.entries@[j].type_id
    }

    /// The registered classes, by type identity.
    pub closed spec fn view(&self) -> Map<u64, ClassRecord> {
        Map::new(
            |t: u64| exists|i: int| 0 <= i < self.entries@.len() && self.entries@[i].type_id == t,
            |t: u64|
                {
                    let i = choose|i: int|
                        0 <= i < self.entries@.len() && self.entries@[i].type_id == t;
                    self.entries@[i].record()
                },
        )
    }

    proof fn lemma_entry_in_view(&self, i: int)
        requires
            self.wf(),
            0 <= i < self.entries@.len(),
        ensures
            self@.contains_key(self.entries@[i].type_id),
            self@[self.entries@[i].type_id] == self.entries@[i].record(),
    {
        let t = self.entries@[i].type_id;
        assert(exists|k: int| 0 <= k < self.entries@.len() && self.entries@[k].type_id == t);
        let k = choose|k: int| 0 <= k < self.entries@.len() && self.entries@[k].type_id == t;
        assert(k == i);
    }

    /// An empty registry.
    pub fn new() -> (r: ClassRegistry)
        ensures
            r.wf(),
            r@ == Map::<u64, ClassRecord>::empty(),
    {
        let r = ClassRegistry { entries: Vec::new() };
        assert(r@ =~= Map::<u64, ClassRecord>::empty());
        r
    }

    /// The index of the entry for `type_id`, if any.
    fn find(&self, type_id: u64) -> (r: Option<usize>)
        requires
            self.wf(),
        ensures
            match r {
                Some(i) => i < self.entries@.len() && self.entries@[i as int].type_id == type_id,
                None => !self@.contains_key(type_id),
            },
    {
        let mut i: usize = 0;
        while i < self.entries.len()
            invariant
                i <= self.entries@.len(),
                forall|k: int| 0 <= k < i ==> #[trigger] self.entries@[k].type_id != type_id,
            decreases self.entries@.len() - i,
        {
            if self.entries[i].type_id == type_id {
                return Some(i);
            }
            i = i + 1;
        }
        None
    }

    /// The record for `type_id`, if it was registered.
    pub fn get(&self, type_id: u64) -> (r: Option<RegisteredClass>)
        requires
            self.wf(),
        ensures
            match r {
                Some(c) => self@.contains_key(type_id) && c.type_id == type_id && c.record()
                    == self@[type_id],
                None => !self@.contains_key(type_id),
            },
    {
        match self.find(type_id) {
            Some(i) => {
                proof {
                    self.lemma_entry_in_view(i as int);
                }
                Some(self.entries[i].duplicate())
            },
            None => None,
        }
    }

    /// The name `type_id` was registered under, or `default` when it was not
    /// registered: the name diagnostics use for a class.
    pub fn class_name_or_default(&self, type_id: u64, default: String) -> (r: String)
        requires
            self.wf(),
        ensures
            self@.contains_key(type_id) ==> r@ == self@[type_id].name,
            !self@.contains_key(type_id) ==> r@ == default@,
    {
        match self.get(type_id) {
            Some(c) => c.name,
            None => default,
        }
    }

    /// Records `type_id` under `name`. Returns `None` when the type was not
    /// registered before; otherwise the earlier record, which stays in place.
    pub fn register(&mut self, type_id: u64, name: String, base_name: String) -> (r: Option<
        RegisteredClass,
    >)
        requires
            old(self).wf(),
        ensures
            final(self).wf(),
            r is Some ==> r->Some_0.type_id == type_id,
            (record_of(r), final(self)@) == spec_register(
                old(self)@,
                type_id,
                ClassRecord { name: name@, base_name: base_name@ },
            ),
    {
        match self.find(type_id) {
            Some(i) => {
                proof {
                    self.lemma_entry_in_view(i as int);
                }
                Some(self.entries[i].duplicate())
            },
            None => {
                let ghost before = *self;
                let entry = RegisteredClass { type_id, name, base_name };
                self.entries.push(entry);
                proof {
                    let n = before.entries@.len() as int;
                    assert forall|i: int, j: int|
                        0 <= i < self.entries@.len() && 0 <= j < self.entries@.len() && i != j
                            implies #[trigger] self.entries@[i].type_id
                            != #[trigger] self.entries@[j].type_id by {
                        if i == n {
                            before.lemma_entry_in_view(j);
                        } else if j == n {
                            before.lemma_entry_in_view(i);
                        }
                    }
                    assert forall|t: u64| #[trigger]
                        self@.contains_key(t) == before@.insert(type_id, entry.record()).contains_key(t) by {
                        if t == type_id {
                            assert(self.entries@[n].type_id == t);
                        }
                        if t != type_id && self@.contains_key(t) {
                            let k = choose|k: int| 0 <= k < self.entries@.len() && self.entries@[k].type_id == t;
                            assert(self.entries@[k] == before.entries@[k]);
                        }
                        if before@.contains_key(t) {
                            let k = choose|k: int| 0 <= k < before.entries@.len() && before.entries@[k].type_id == t;
                            assert(self.entries@[k] == before.entries@[k]);
                        }
                    }
                    assert forall|t: u64| #[trigger] self@.contains_key(t) implies self@[t]
                        == before@.insert(type_id, entry.record())[t] by {
                        let k = choose|k: int| 0 <= k < self.entries@.len() && self.entries@[k].type_id == t;
                        self.lemma_entry_in_view(k);
                        if t != type_id {
                            assert(k < n);
                            before.lemma_entry_in_view(k);
                        } else {
                            self.lemma_entry_in_view(n);
                        }
                    }
                    assert(self@ =~= before@.insert(type_id, entry.record()));
                }
                None
            },
        }
    }
}

} // verus!
