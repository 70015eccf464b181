//! Ownership of each instance's user data, apart from the host's object memory.
//! The host holds only an opaque instance pointer. Releasing an instance while
//! one of its methods is still running is deferred until the last such call
//! returns, so a method that frees its own owner keeps valid data to read.
use vstd::prelude::*;

verus! {

/// The opaque instance-data pointer handed to the host. `raw == 0` is null;
/// otherwise it designates slot `raw - 1` of an [`InstanceStore`].
#[derive(Clone, Copy, PartialEq, Eq, Structural, Debug)]
pub struct InstancePtr {
    pub raw: u64,
}

impl InstancePtr {
    /// The null instance pointer.
    pub fn null() -> (r: InstancePtr)
        ensures
            r.raw == 0,
    {
        InstancePtr { raw: 0 }
    }

    /// Whether this is the null pointer.
    pub fn is_null(&self) -> (r: bool)
        ensures
            r == (self.raw == 0),
    {
        self.raw == 0
    }
}

/// The slot a non-null instance pointer designates.
pub open spec fn index_of(p: InstancePtr) -> int {
    p.raw - 1
}

/// The state of one live instance: its value, the number of method calls
/// running on it, and whether its release was asked for during such a call.
pub struct Live<T> {
    pub value: T,
    pub calls: nat,
    pub release_pending: bool,
}

struct Wrapper<T> {
    value: T,
    calls: u64,
    release_pending: bool,
}

impl<T> Wrapper<T> {
    spec fn state(&self) -> Live<T> {
        Live { value: self.value, calls: self.calls as nat, release_pending: self.release_pending }
    }
}

/// A store of instance user data. Slots are never reused: once an instance is
/// released its slot stays empty.
pub struct InstanceStore<T> {
    slots: Vec<Option<Wrapper<T>>>,
}

/// The state of a store after `value` was wrapped: one more live slot.
pub open spec fn spec_wrap<T>(s: Seq<Option<Live<T>>>, value: T) -> Seq<Option<Live<T>>> {
    s.push(Some(Live { value, calls: 0, release_pending: false }))
}

/// Whether `p` designates a live slot of `s`.
pub open spec fn spec_live<T>(s: Seq<Option<Live<T>>>, p: InstancePtr) -> bool {
    p.raw != 0 && index_of(p) < s.len() && s[index_of(p)] is Some
}

/// What a release of `p` hands back for dropping, and the state after it.
/// A live instance with no call running is handed back and its slot emptied;
/// one with calls running is marked, and handed back when the last call ends;
/// anything else is left alone.
pub open spec fn spec_release<T>(s: Seq<Option<Live<T>>>, p: InstancePtr) -> (Option<T>, Seq<
    Option<Live<T>>,
>) {
    if !spec_live(s, p) {
        (None, s)
    } else {
        let l = s[index_of(p)]->Some_0;
        if l.calls == 0 {
            (Some(l.value), s.update(index_of(p), None))
        } else {
            (None, s.update(index_of(p), Some(Live { release_pending: true, ..l })))
        }
    }
}

/// The state after a method call on `p` begins.
pub open spec fn spec_begin_call<T>(s: Seq<Option<Live<T>>>, p: InstancePtr) -> Seq<
    Option<Live<T>>,
> {
    let l = s[index_of(p)]->Some_0;
    s.update(index_of(p), Some(Live { calls: l.calls + 1, ..l }))
}

/// What the end of a method call on `p` hands back for dropping, and the
/// state after it.
pub open spec fn spec_end_call<T>(s: Seq<Option<Live<T>>>, p: InstancePtr) -> (Option<T>, Seq<
    Option<Live<T>>,
>) {
    if !spec_live(s, p) || s[index_of(p)]->Some_0.calls == 0 {
        (None, s)
    } else {
        let l = s[index_of(p)]->Some_0;
        if l.calls == 1 && l.release_pending {
            (Some(l.value), s.update(index_of(p), None))
        } else {
            (None, s.update(index_of(p), Some(Live { calls: (l.calls - 1) as nat, ..l })))
        }
    }
}

/// An instance that was wrapped and then released, with no call running,
/// hands its value back exactly once: the first release returns it, and after
/// it neither another release nor the end of a call returns anything.
pub proof fn lemma_wrap_release_once<T>(s: Seq<Option<Live<T>>>, value: T)
    requires
        s.len() < u64::MAX,
    ensures
        ({
            let p = InstancePtr { raw: (s.len() + 1) as u64 };
            let s1 = spec_wrap(s, value);
            let (d1, s2) = spec_release(s1, p);
            &&& spec_live(s1, p)
            &&& d1 == Some(value)
            &&& !spec_live(s2, p)
            &&& spec_release(s2, p) == (None::<T>, s2)
            &&& spec_end_call(s2, p) == (None::<T>, s2)
        }),
{
}

/// A release asked for while a method call on the instance is running (the
/// method frees its own owner) hands nothing back: the instance stays live
/// with its value unchanged for the rest of the call. When that call, the only
/// one running, ends, the value is handed back exactly once.
pub proof fn lemma_release_during_call<T>(s: Seq<Option<Live<T>>>, p: InstancePtr)
    requires
        spec_live(s, p),
        s[index_of(p)]->Some_0.calls == 0,
    ensures
        ({
            let value = s[index_of(p)]->Some_0.value;
            let s1 = spec_begin_call(s, p);
            let (d1, s2) = spec_release(s1, p);
            let (d2, s3) = spec_end_call(s2, p);
            &&& d1 is None
            &&& spec_live(s2, p)
            &&& s2[index_of(p)]->Some_0.value == value
            &&& d2 == Some(value)
            &&& !spec_live(s3, p)
            &&& spec_release(s3, p) == (None::<T>, s3)
        }),
{
}

/// Releases each of `ps` in order: what each release handed back, and the
/// state after the last.
pub open spec fn spec_release_all<T>(s: Seq<Option<Live<T>>>, ps: Seq<InstancePtr>) -> (Seq<
    Option<T>,
>, Seq<Option<Live<T>>>)
    decreases ps.len(),
{
    if ps.len() == 0 {
        (Seq::empty(), s)
    } else {
        let (d, s1) = spec_release_all(s, ps.drop_last());
        let (x, s2) = spec_release(s1, ps.last());
        (d.push(x), s2)
    }
}

/// Releasing distinct live instances, none with a call running, hands back
/// each one's value exactly once, in the order of release; afterwards none of
/// them is live, and every other slot is as it was.
pub proof fn lemma_release_each_once<T>(s: Seq<Option<Live<T>>>, ps: Seq<InstancePtr>)
    requires
        forall|i: int| 0 <= i < ps.len() ==> #[trigger] spec_live(s, ps[i]) && s[index_of(
            ps[i],
        )]->Some_0.calls == 0,
        forall|i: int, j: int| 0 <= i < j < ps.len() ==> #[trigger] ps[i].raw != #[trigger] ps[j].raw,
    ensures
        ({
            let (d, s2) = spec_release_all(s, ps);
            &&& d.len() == ps.len()
            &&& s2.len() == s.len()
            &&& forall|i: int| 0 <= i < ps.len() ==> #[trigger] d[i] == Some(s[index_of(ps[i])]->Some_0.value)
            &&& forall|i: int| 0 <= i < ps.len() ==> !#[trigger] spec_live(s2, ps[i])
            &&& forall|k: int|
                0 <= k < s.len() && (forall|i: int| 0 <= i < ps.len() ==> index_of(#[trigger] ps[i]) != k)
                    ==> #[trigger] s2[k] == s[k]
        }),
    decreases ps.len(),
{
    if ps.len() > 0 {
        let front = ps.drop_last();
        let p = ps.last();
        assert forall|i: int| 0 <= i < front.len() implies #[trigger] spec_live(s, front[i]) && s[index_of(
            front[i],
        )]->Some_0.calls == 0 by {
            assert(front[i] == ps[i]);
        }
        assert forall|i: int, j: int| 0 <= i < j < front.len() implies #[trigger] front[i].raw
            != #[trigger] front[j].raw by {
            assert(front[i] == ps[i] && front[j] == ps[j]);
        }
        lemma_release_each_once(s, front);
        let (d, s1) = spec_release_all(s, front);
        assert(spec_live(s, ps[ps.len() - 1]));
        assert forall|i: int| 0 <= i < front.len() implies index_of(#[trigger] front[i]) != index_of(p) by {
            assert(front[i] == ps[i]);
            assert(ps[i].raw != ps[ps.len() - 1].raw);
        }
        assert(s1[index_of(p)] == s[index_of(p)]);
        let (d2, s2) = spec_release_all(s, ps);
        assert forall|i: int| 0 <= i < ps.len() implies !#[trigger] spec_live(s2, ps[i]) by {
            if i < front.len() {
                assert(front[i] == ps[i]);
                assert(!spec_live(s1, front[i]));
            }
        }
        assert forall|i: int| 0 <= i < ps.len() implies #[trigger] d2[i] == Some(s[index_of(ps[i])]->Some_0.value) by {
            if i < front.len() {
                assert(front[i] == ps[i]);
                assert(d[i] == Some(s[index_of(front[i])]->Some_0.value));
            }
        }
        assert forall|k: int|
            0 <= k < s.len() && (forall|i: int| 0 <= i < ps.len() ==> index_of(#[trigger] ps[i]) != k)
                implies #[trigger] s2[k] == s[k] by {
            assert forall|i: int| 0 <= i < front.len() implies index_of(#[trigger] front[i]) != k by {
                assert(front[i] == ps[i]);
            }
            assert(index_of(ps[ps.len() - 1]) != k);
        }
    }
}

impl<T> InstanceStore<T> {
    pub closed spec fn view(&self) -> Seq<Option<Live<T>>> {
        self.slots@.map_values(|w: Option<Wrapper<T>>|
            match w {
                Some(w) => Some(w.state()),
                None => None,
            })
    }

    /// An empty store.
    pub fn new() -> (r: InstanceStore<T>)
        ensures
            r@ == Seq::<Option<Live<T>>>::empty(),
    {
        let r = InstanceStore { slots: Vec::new() };
        assert(r@ =~= Seq::<Option<Live<T>>>::empty());
        r
    }

    /// Whether another instance can be wrapped.
    pub fn has_room(&self) -> (r: bool)
        ensures
            r == (self@.len() < u64::MAX),
    {
        (self.slots.len() as u64) < u64::MAX
    }

    fn live_index(&self, p: InstancePtr) -> (r: Option<usize>)
        ensures
            match r {
                Some(i) => spec_live(self@, p) && i == index_of(p),
                None => !spec_live(self@, p),
            },
    {
        if p.raw == 0 || p.raw - 1 >= self.slots.len() as u64 {
            None
        } else {
            let i = (p.raw - 1) as usize;
            match &self.slots[i] {
                Some(_) => Some(i),
                None => None,
            }
        }
    }

    /// Takes sole ownership of `value` and returns the pointer the host will
    /// hold for it.
    pub fn into_user_data(&mut self, value: T) -> (r: InstancePtr)
        requires
            old(self)@.len() < u64::MAX,
        ensures
            r.raw == old(self)@.len() + 1,
            final(self)@ == spec_wrap(old(self)@, value),
    {
        let ghost before = self@;
        let raw = self.slots.len() as u64 + 1;
        self.slots.push(Some(Wrapper { value, calls: 0, release_pending: false }));
        assert(self@ =~= spec_wrap(before, value));
        InstancePtr { raw }
    }

    /// The value behind `p`, while it is live.
    pub fn get(&self, p: InstancePtr) -> (r: Option<&T>)
        ensures
            match r {
                Some(v) => spec_live(self@, p) && *v == self@[index_of(p)]->Some_0.value,
                None => !spec_live(self@, p),
            },
    {
        match self.live_index(p) {
            Some(i) => match &self.slots[i] {
                Some(w) => Some(&w.value),
                None => None,
            },
            None => None,
        }
    }

    /// Marks the start of a method call on `p`. Returns false, changing
    /// nothing, when `p` is not live or its call count is at its limit.
    pub fn begin_call(&mut self, p: InstancePtr) -> (r: bool)
        ensures
            r == (spec_live(old(self)@, p) && old(self)@[index_of(p)]->Some_0.calls < u64::MAX),
            r ==> final(self)@ == spec_begin_call(old(self)@, p),
            !r ==> final(self)@ == old(self)@,
    {
        match self.live_index(p) {
            Some(i) => {
                let ghost before = self@;
                let w = self.slots[i].take().unwrap();
                if w.calls == u64::MAX {
                    self.slots.set(i, Some(w));
                    assert(self@ =~= before);
                    false
                } else {
                    self.slots.set(
                        i,
                        Some(Wrapper { value: w.value, calls: w.calls + 1, release_pending: w.release_pending }),
                    );
                    assert(self@ =~= spec_begin_call(before, p));
                    true
                }
            },
            None => false,
        }
    }

    /// Marks the end of a method call on `p`. When it was the last call and a
    /// release was asked for meanwhile, the value is handed back to be dropped.
    pub fn end_call(&mut self, p: InstancePtr) -> (r: Option<T>)
        ensures
            (r, final(self)@) == spec_end_call(old(self)@, p),
    {
        match self.live_index(p) {
            Some(i) => {
                let ghost before = self@;
                let w = self.slots[i].take().unwrap();
                if w.calls == 0 {
                    self.slots.set(i, Some(w));
                    assert(self@ =~= before);
                    None
                } else if w.calls == 1 && w.release_pending {
                    assert(self@ =~= before.update(index_of(p), None));
                    Some(w.value)
                } else {
                    self.slots.set(
                        i,
                        Some(Wrapper { value: w.value, calls: w.calls - 1, release_pending: w.release_pending }),
                    );
                    assert(self@ =~= spec_end_call(before, p).1);
                    None
                }
            },
            None => None,
        }
    }

    /// Gives up ownership of the instance behind `p`: the value is handed back
    /// to be dropped, or, while calls on it are running, when the last ends.
    pub fn consume_user_data(&mut self, p: InstancePtr) -> (r: Option<T>)
        ensures
            (r, final(self)@) == spec_release(old(self)@, p),
    {
        match self.live_index(p) {
            Some(i) => {
                let ghost before = self@;
                let w = self.slots[i].take().unwrap();
                if w.calls == 0 {
                    assert(self@ =~= before.update(index_of(p), None));
                    Some(w.value)
                } else {
                    self.slots.set(
                        i,
                        Some(Wrapper { value: w.value, calls: w.calls, release_pending: true }),
                    );
                    assert(self@ =~= spec_release(before, p).1);
                    None
                }
            },
            None => None,
        }
    }
}

} // verus!
