//! Host object handles and the checked casts that turn a handle into a typed
//! reference. A handle is an opaque number handed out by the host; zero is the
//! null handle.
use vstd::prelude::*;

verus! {

/// An opaque, host-owned object handle. `raw == 0` is the null handle.
#[derive(Clone, Copy, PartialEq, Eq, Structural, Debug)]
pub struct Handle {
    pub raw: u64,
}

impl Handle {
    pub open spec fn spec_is_null(&self) -> bool {
        self.raw == 0
    }

    /// The null handle.
    pub fn null() -> (r: Handle)
        ensures
            r.spec_is_null(),
    {
        Handle { raw: 0 }
    }

    /// Whether this is the null handle.
    pub fn is_null(&self) -> (r: bool)
        ensures
            r == self.spec_is_null(),
    {
        self.raw == 0
    }
}

/// An identity token attached to a registered class, checked before a handle
/// is exposed as a reference to an instance of that class.
#[derive(Clone, Copy, PartialEq, Eq, Structural, Debug)]
pub struct TypeTag {
    pub id: u64,
}

impl TypeTag {
    /// The tag of the type with identity `type_id`.
    pub fn of(type_id: u64) -> (r: TypeTag)
        ensures
            r.id == type_id,
    {
        TypeTag { id: type_id }
    }
}

/// What the host knows of one live object: the identities of its class and of
/// every class it derives from, and the tag of the native class attached to
/// it, if any.
pub struct ObjectInfo {
    pub lineage: Vec<u64>,
    pub tag: Option<TypeTag>,
}

/// The mathematical content of an [`ObjectInfo`].
pub struct ObjectView {
    pub lineage: Seq<u64>,
    pub tag: Option<TypeTag>,
}

impl View for ObjectInfo {
    type V = ObjectView;

    open spec fn view(&self) -> ObjectView {
        ObjectView { lineage: self.lineage@, tag: self.tag }
    }
}

/// The host's live objects. The object behind handle `h` is slot `h.raw - 1`;
/// a freed object leaves its slot empty, so a handle is never handed out twice.
pub struct ObjectTable {
    slots: Vec<Option<ObjectInfo>>,
}

/// The slot that a non-null handle designates.
pub open spec fn slot_of(h: Handle) -> int {
    h.raw - 1
}

impl ObjectTable {
    pub closed spec fn view(&self) -> Seq<Option<ObjectView>> {
        self.slots@.map_values(|o: Option<ObjectInfo>|
            match o {
                Some(i) => Some(i@),
                None => None,
            })
    }

    /// Whether `h` designates a live object.
    pub open spec fn live(&self, h: Handle) -> bool {
        !h.spec_is_null() && slot_of(h) < self@.len() && self@[slot_of(h)] is Some
    }

    /// What the host knows of the live object `h`.
    pub open spec fn info(&self, h: Handle) -> ObjectView
        recommends
            self.live(h),
    {
        self@[slot_of(h)]->Some_0
    }

    /// Whether `h` is a live object whose class is `base` or derives from it.
    pub open spec fn inherits(&self, h: Handle, base: u64) -> bool {
        self.live(h) && self.info(h).lineage.contains(base)
    }

    /// Whether `h` is a live object carrying `tag`.
    pub open spec fn tagged(&self, h: Handle, tag: TypeTag) -> bool {
        self.live(h) && self.info(h).tag == Some(tag)
    }

    /// An empty table.
    pub fn new() -> (r: ObjectTable)
        ensures
            r@ == Seq::<Option<ObjectView>>::empty(),
    {
        let r = ObjectTable { slots: Vec::new() };
        assert(r@ =~= Seq::<Option<ObjectView>>::empty());
        r
    }

    /// Whether another object can be created.
    pub fn has_room(&self) -> (r: bool)
        ensures
            r == (self@.len() < u64::MAX),
    {
        (self.slots.len() as u64) < u64::MAX
    }

    /// Creates an object of the given lineage, with no tag.
    pub fn create(&mut self, lineage: Vec<u64>) -> (r: Handle)
        requires
            old(self)@.len() < u64::MAX,
        ensures
            r.raw == old(self)@.len() + 1,
            final(self)@ == old(self)@.push(Some(ObjectView { lineage: lineage@, tag: None })),
    {
        let ghost before = self@;
        let raw = self.slots.len() as u64 + 1;
        self.slots.push(Some(ObjectInfo { lineage, tag: None }));
        assert(self@ =~= before.push(Some(ObjectView { lineage: lineage@, tag: None })));
        Handle { raw }
    }

    fn index_of(&self, h: Handle) -> (r: Option<usize>)
        ensures
            match r {
                Some(i) => self.live(h) && i == slot_of(h),
                None => !self.live(h),
            },
    {
        if h.raw == 0 || h.raw - 1 >= self.slots.len() as u64 {
            None
        } else {
            let i = (h.raw - 1) as usize;
            match &self.slots[i] {
                Some(_) => Some(i),
                None => None,
            }
        }
    }

    /// Attaches `tag` to the live object `h`. Returns whether `h` was live.
    pub fn set_tag(&mut self, h: Handle, tag: TypeTag) -> (r: bool)
        ensures
            r == old(self).live(h),
            r ==> final(self)@ == old(self)@.update(
                slot_of(h),
                Some(ObjectView { lineage: old(self).info(h).lineage, tag: Some(tag) }),
            ),
            !r ==> final(self)@ == old(self)@,
    {
        match self.index_of(h) {
            Some(i) => {
                let ghost before = self@;
                let old_info = self.slots[i].take();
                match old_info {
                    Some(info) => {
                        self.slots.set(i, Some(ObjectInfo { lineage: info.lineage, tag: Some(tag) }));
                    },
                    None => {},
                }
                assert(self@ =~= before.update(
                    slot_of(h),
                    Some(ObjectView { lineage: before[slot_of(h)]->Some_0.lineage, tag: Some(tag) }),
                ));
                true
            },
            None => false,
        }
    }

    /// Frees the object `h`. Returns whether `h` was live.
    pub fn free(&mut self, h: Handle) -> (r: bool)
        ensures
            r == old(self).live(h),
            r ==> final(self)@ == old(self)@.update(slot_of(h), None),
            !r ==> final(self)@ == old(self)@,
    {
        match self.index_of(h) {
            Some(i) => {
                let ghost before = self@;
                self.slots.set(i, None);
                assert(self@ =~= before.update(slot_of(h), None));
                true
            },
            None => false,
        }
    }
}

/// A reference to a live object, obtainable only through a check that the
/// object is what the reference claims.
pub struct TypedRef {
    handle: Handle,
    class_id: u64,
}

impl TypedRef {
    pub closed spec fn spec_handle(&self) -> Handle {
        self.handle
    }

    pub closed spec fn spec_class_id(&self) -> u64 {
        self.class_id
    }

    /// The handle this reference was checked for.
    pub fn handle(&self) -> (r: Handle)
        ensures
            r == self.spec_handle(),
    {
        self.handle
    }

    /// The class (or tag) identity the handle was checked against.
    pub fn class_id(&self) -> (r: u64)
        ensures
            r == self.spec_class_id(),
    {
        self.class_id
    }

    /// The object `h` as an instance of `base`: `Some` exactly when `h` is
    /// live and its class is `base` or derives from it.
    pub fn try_from_base(objects: &ObjectTable, base: u64, h: Handle) -> (r: Option<TypedRef>)
        ensures
            r is Some <==> objects.inherits(h, base),
            r is Some ==> r->Some_0.spec_handle() == h && r->Some_0.spec_class_id() == base,
    {
        match objects.index_of(h) {
            Some(i) => {
                let info = objects.slots[i].as_ref().unwrap();
                let mut k: usize = 0;
                while k < info.lineage.len()
                    invariant
                        objects.live(h),
                        info@ == objects.info(h),
                        k <= info.lineage@.len(),
                        forall|j: int| 0 <= j < k ==> info.lineage@[j] != base,
                    decreases info.lineage@.len() - k,
                {
                    if info.lineage[k] == base {
                        return Some(TypedRef { handle: h, class_id: base });
                    }
                    k = k + 1;
                }
                None
            },
            None => None,
        }
    }

    /// The object `h` as an instance of the class tagged `tag`: `Some`
    /// exactly when `h` is live and carries `tag`.
    pub fn try_from_handle(objects: &ObjectTable, tag: TypeTag, h: Handle) -> (r: Option<TypedRef>)
        ensures
            r is Some <==> objects.tagged(h, tag),
            r is Some ==> r->Some_0.spec_handle() == h && r->Some_0.spec_class_id() == tag.id,
    {
        match objects.index_of(h) {
            Some(i) => {
                let info = objects.slots[i].as_ref().unwrap();
                match info.tag {
                    Some(t) => {
                        if t.id == tag.id {
                            Some(TypedRef { handle: h, class_id: tag.id })
                        } else {
                            None
                        }
                    },
                    None => None,
                }
            },
            None => None,
        }
    }
}

} // verus!
