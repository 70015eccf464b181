use gdnative_core::object::{Handle, ObjectTable, TypeTag, TypedRef};
use gdnative_core::trampoline::{constructor, destructor, finish_construct, ConstructError, DestroyError};
use gdnative_core::user_data::{InstancePtr, InstanceStore};
use std::cell::Cell;
use std::sync::atomic::{AtomicUsize, Ordering};
use std::sync::Arc;

const NODE: u64 = 10;
const OBJECT: u64 = 1;
const REFERENCE: u64 = 20;

struct Bar(i64, Arc<AtomicUsize>);

impl Drop for Bar {
    fn drop(&mut self) {
        self.1.fetch_add(1, Ordering::AcqRel);
        self.0 = 0;
    }
}

fn node(objects: &mut ObjectTable) -> Handle {
    objects.create(vec![NODE, OBJECT])
}

#[test]
fn null_handle_is_null() {
    assert!(Handle::null().is_null());
    assert!(!Handle { raw: 3 }.is_null());
    assert!(InstancePtr::null().is_null());
}

#[test]
fn cast_checks_base_class() {
    let mut objects = ObjectTable::new();
    let h = node(&mut objects);
    let r = TypedRef::try_from_base(&objects, OBJECT, h).unwrap();
    assert_eq!(r.handle(), h);
    assert_eq!(r.class_id(), OBJECT);
    assert!(TypedRef::try_from_base(&objects, REFERENCE, h).is_none());
    assert!(TypedRef::try_from_base(&objects, NODE, Handle::null()).is_none());
    assert!(TypedRef::try_from_base(&objects, NODE, Handle { raw: 42 }).is_none());
}

#[test]
fn cast_checks_type_tag() {
    let mut objects = ObjectTable::new();
    let h = node(&mut objects);
    assert!(TypedRef::try_from_handle(&objects, TypeTag::of(5), h).is_none());
    assert!(objects.set_tag(h, TypeTag::of(5)));
    assert_eq!(TypedRef::try_from_handle(&objects, TypeTag::of(5), h).unwrap().class_id(), 5);
    assert!(TypedRef::try_from_handle(&objects, TypeTag::of(6), h).is_none());
    assert!(objects.free(h));
    assert!(TypedRef::try_from_handle(&objects, TypeTag::of(5), h).is_none());
    assert!(!objects.free(h));
    assert!(!objects.set_tag(h, TypeTag::of(5)));
}

#[test]
fn constructor_rejects_null_owner() {
    let objects = ObjectTable::new();
    let mut store: InstanceStore<i64> = InstanceStore::new();
    let ran = Cell::new(false);
    let r = constructor(&objects, &mut store, NODE, Handle::null(), &mut None, |_o: TypedRef| {
        ran.set(true);
        Some(1)
    });
    assert_eq!(r, Err(ConstructError::NullOwner));
    assert!(!ran.get());
}

#[test]
fn constructor_rejects_incompatible_owner() {
    let mut objects = ObjectTable::new();
    let h = node(&mut objects);
    let mut store: InstanceStore<i64> = InstanceStore::new();
    let ran = Cell::new(false);
    let r = constructor(&objects, &mut store, REFERENCE, h, &mut None, |_o: TypedRef| {
        ran.set(true);
        Some(1)
    });
    assert_eq!(r, Err(ConstructError::IncompatibleOwner));
    assert!(!ran.get());
    let r = constructor(&objects, &mut store, NODE, Handle { raw: 9 }, &mut None, |_o: TypedRef| Some(1));
    assert_eq!(r, Err(ConstructError::IncompatibleOwner));
}

#[test]
fn constructor_reports_failed_initializer() {
    let mut objects = ObjectTable::new();
    let h = node(&mut objects);
    let mut store: InstanceStore<i64> = InstanceStore::new();
    let r = constructor(&objects, &mut store, NODE, h, &mut None, |_o: TypedRef| None);
    assert_eq!(r, Err(ConstructError::ConstructorPanicked));
    assert!(store.get(InstancePtr { raw: 1 }).is_none());
}

#[test]
fn constructor_wraps_initialized_value() {
    let mut objects = ObjectTable::new();
    let h = node(&mut objects);
    let mut store: InstanceStore<u64> = InstanceStore::new();
    let p = constructor(&objects, &mut store, NODE, h, &mut None, |o: TypedRef| Some(o.handle().raw * 100)).unwrap();
    assert_eq!(p, InstancePtr { raw: 1 });
    assert_eq!(store.get(p), Some(&100));
}

#[test]
fn constructor_takes_pending_value() {
    let mut objects = ObjectTable::new();
    let h = node(&mut objects);
    let mut store: InstanceStore<i64> = InstanceStore::new();
    let ran = Cell::new(false);
    let mut pending = Some(42);
    let p = constructor(&objects, &mut store, NODE, h, &mut pending, |_o: TypedRef| {
        ran.set(true);
        Some(7)
    })
    .unwrap();
    assert!(!ran.get());
    assert!(pending.is_none());
    assert_eq!(store.get(p), Some(&42));
}

#[test]
fn destructor_null_pointer_does_nothing() {
    let mut store: InstanceStore<i64> = InstanceStore::new();
    assert_eq!(destructor(&mut store, InstancePtr::null()), Err(DestroyError::NullUserData));
}

#[test]
fn construct_then_destroy_drops_once() {
    let counter = Arc::new(AtomicUsize::new(0));
    let mut objects = ObjectTable::new();
    let h = node(&mut objects);
    let mut store: InstanceStore<Bar> = InstanceStore::new();
    let c = Arc::clone(&counter);
    let p = constructor(&objects, &mut store, NODE, h, &mut None, move |_o: TypedRef| Some(Bar(42, c))).unwrap();
    assert_eq!(counter.load(Ordering::Acquire), 0);
    let released = destructor(&mut store, p).unwrap();
    assert!(released.is_some());
    drop(released);
    assert_eq!(counter.load(Ordering::Acquire), 1);
    assert!(destructor(&mut store, p).unwrap().is_none());
    assert!(store.end_call(p).is_none());
    assert_eq!(counter.load(Ordering::Acquire), 1);
}

#[test]
fn call_count_is_tracked() {
    let mut store: InstanceStore<i64> = InstanceStore::new();
    assert!(store.has_room());
    let p = store.into_user_data(5);
    assert!(store.begin_call(p));
    assert!(store.begin_call(p));
    assert!(store.consume_user_data(p).is_none());
    assert!(store.end_call(p).is_none());
    assert_eq!(store.get(p), Some(&5));
    assert_eq!(store.end_call(p), Some(5));
    assert!(store.get(p).is_none());
    assert!(!store.begin_call(p));
}

#[test]
fn failed_checks_leave_pending_value() {
    let counter = Arc::new(AtomicUsize::new(0));
    let mut objects = ObjectTable::new();
    let h = node(&mut objects);
    let mut store: InstanceStore<Bar> = InstanceStore::new();
    let mut pending = Some(Bar(42, Arc::clone(&counter)));
    let r = constructor(&objects, &mut store, NODE, Handle::null(), &mut pending, |_o: TypedRef| None);
    assert_eq!(r, Err(ConstructError::NullOwner));
    let r = constructor(&objects, &mut store, REFERENCE, h, &mut pending, |_o: TypedRef| None);
    assert_eq!(r, Err(ConstructError::IncompatibleOwner));
    assert_eq!(pending.as_ref().unwrap().0, 42);
    assert_eq!(counter.load(Ordering::Acquire), 0);
    let p = constructor(&objects, &mut store, NODE, h, &mut pending, |_o: TypedRef| None).unwrap();
    assert!(pending.is_none());
    assert_eq!(store.get(p).unwrap().0, 42);
}

#[test]
fn finish_construct_wraps_or_reports() {
    let mut store: InstanceStore<i64> = InstanceStore::new();
    assert_eq!(finish_construct(&mut store, None), Err(ConstructError::ConstructorPanicked));
    assert_eq!(finish_construct(&mut store, Some(8)), Ok(InstancePtr { raw: 1 }));
    assert_eq!(finish_construct(&mut store, Some(9)), Ok(InstancePtr { raw: 2 }));
    assert_eq!(store.get(InstancePtr { raw: 2 }), Some(&9));
}

#[test]
fn many_instances_each_drop_once() {
    let counter = Arc::new(AtomicUsize::new(0));
    let mut store: InstanceStore<Bar> = InstanceStore::new();
    let ps: Vec<InstancePtr> = (0..5).map(|i| store.into_user_data(Bar(i, Arc::clone(&counter)))).collect();
    for (k, p) in ps.iter().enumerate() {
        let v = destructor(&mut store, *p).unwrap().unwrap();
        assert_eq!(v.0, k as i64);
        drop(v);
        assert_eq!(counter.load(Ordering::Acquire), k + 1);
    }
    for p in &ps {
        assert!(destructor(&mut store, *p).unwrap().is_none());
    }
    assert_eq!(counter.load(Ordering::Acquire), 5);
}

// A method that frees its own owner keeps reading valid data; the instance is
// dropped once, after the method returns.
#[test]
fn free_owner_during_method_is_safe() {
    let counter = Arc::new(AtomicUsize::new(0));
    let mut objects = ObjectTable::new();
    let mut store: InstanceStore<Bar> = InstanceStore::new();

    // instance B: the method detaches its script, which destroys the instance
    // data while the call runs; the owner is freed after it returns
    let hb = node(&mut objects);
    let pb = store.into_user_data(Bar(42, Arc::clone(&counter)));
    assert!(store.begin_call(pb));
    assert!(destructor(&mut store, pb).unwrap().is_none());
    assert_eq!(store.get(pb).unwrap().0, 42);
    assert_eq!(counter.load(Ordering::Acquire), 0);
    drop(store.end_call(pb));
    assert_eq!(counter.load(Ordering::Acquire), 1);
    assert!(objects.free(hb));
    assert!(destructor(&mut store, pb).unwrap().is_none());

    // instance A: the method frees its own owner, then reads its state
    let ha = node(&mut objects);
    let pa = store.into_user_data(Bar(42, Arc::clone(&counter)));
    assert!(store.begin_call(pa));
    assert!(objects.free(ha));
    let during = destructor(&mut store, pa).unwrap();
    assert!(during.is_none());
    assert_eq!(store.get(pa).unwrap().0, 42);
    assert_eq!(counter.load(Ordering::Acquire), 1);
    drop(store.end_call(pa));

    assert_eq!(counter.load(Ordering::Acquire), 2);
}
