//! The logic of the two entry points the host calls back: the constructor,
//! which checks the owner handle and wraps the new instance's value, and the
//! destructor, which gives up ownership of it again. Neither fails loudly: a
//! failed construction leaves the host a null pointer and a diagnostic.
use vstd::prelude::*;
use crate::object::{Handle, ObjectTable, TypedRef};
use crate::user_data::{spec_release, spec_wrap, InstancePtr, InstanceStore, Live};

verus! {

/// Why a construction left the host a null instance pointer.
#[derive(Clone, Copy, PartialEq, Eq, Structural, Debug)]
pub enum ConstructError {
    /// The owner handle was null.
    NullOwner,
    /// The owner is not an instance of the expected base class.
    IncompatibleOwner,
    /// The user's initializer did not return normally.
    ConstructorPanicked,
}

/// Why a destruction did nothing.
#[derive(Clone, Copy, PartialEq, Eq, Structural, Debug)]
pub enum DestroyError {
    /// The instance pointer was null, most likely because construction failed.
    NullUserData,
}

/// Whether `o` is the checked reference to `owner` as an instance of `base`.
pub open spec fn owner_ref(o: TypedRef, owner: Handle, base: u64) -> bool {
    o.spec_handle() == owner && o.spec_class_id() == base
}

/// What finishing a construction with the initializer's result `made`
/// returns, and the store after it: a value is wrapped at the next pointer; no
/// value means the initializer panicked, and the store stays as it was.
pub open spec fn spec_finish<T>(s: Seq<Option<Live<T>>>, made: Option<T>) -> (Result<
    InstancePtr,
    ConstructError,
>, Seq<Option<Live<T>>>) {
    match made {
        Some(v) => (Ok(InstancePtr { raw: (s.len() + 1) as u64 }), spec_wrap(s, v)),
        None => (Err(ConstructError::ConstructorPanicked), s),
    }
}

/// A value that a construction wrapped is handed back, to be dropped, by the
/// first destruction of the pointer it returned and by no later one.
pub proof fn lemma_construct_destroy_once<T>(s: Seq<Option<Live<T>>>, value: T)
    requires
        s.len() < u64::MAX,
    ensures
        ({
            let (r, s1) = spec_finish(s, Some(value));
            let (d1, s2) = spec_release(s1, r->Ok_0);
            let (d2, s3) = spec_release(s2, r->Ok_0);
            &&& r is Ok
            &&& r->Ok_0.raw != 0
            &&& d1 == Some(value)
            &&& d2 is None
            &&& s3 == s2
        }),
{
}

/// Finishes a construction with what the initializer returned, `None` when it
/// panicked.
pub fn finish_construct<T>(store: &mut InstanceStore<T>, made: Option<T>) -> (r: Result<
    InstancePtr,
    ConstructError,
>)
    requires
        old(store)@.len() < u64::MAX,
    ensures
        (r, final(store)@) == spec_finish(old(store)@, made),
{
    match made {
        Some(v) => Ok(store.into_user_data(v)),
        None => Err(ConstructError::ConstructorPanicked),
    }
}

/// Constructs the instance attached to `owner`, whose class must derive from
/// `base`. Only once the owner has passed both checks is the `pending` value,
/// placed before the host called back, taken; when there is none, `init` runs
/// on the owner and returns `None` when it panicked. A failed check leaves
/// `pending` where it was and runs nothing.
pub fn constructor<T, F: FnOnce(TypedRef) -> Option<T>>(
    objects: &ObjectTable,
    store: &mut InstanceStore<T>,
    base: u64,
    owner: Handle,
    pending: &mut Option<T>,
    init: F,
) -> (r: Result<InstancePtr, ConstructError>)
    requires
        old(store)@.len() < u64::MAX,
        forall|o: TypedRef| owner_ref(o, owner, base) ==> #[trigger] init.requires((o,)),
    ensures
        r == Err::<InstancePtr, ConstructError>(ConstructError::NullOwner)
            <==> owner.spec_is_null(),
        r == Err::<InstancePtr, ConstructError>(ConstructError::IncompatibleOwner) <==> (
        !owner.spec_is_null() && !objects.inherits(owner, base)),
        !objects.inherits(owner, base) ==> *final(pending) == *old(pending) && final(store)@ == old(
            store,
        )@,
        objects.inherits(owner, base) ==> *final(pending) is None,
        objects.inherits(owner, base) && *old(pending) is Some ==> (r, final(store)@) == spec_finish(
            old(store)@,
            *old(pending),
        ),
        objects.inherits(owner, base) && *old(pending) is None ==> exists|o: TypedRef, made: Option<T>|
            {
                &&& owner_ref(o, owner, base)
                &&& #[trigger] init.ensures((o,), made)
                &&& (r, final(store)@) == spec_finish(old(store)@, made)
            },
{
    if owner.is_null() {
        return Err(ConstructError::NullOwner);
    }
    let o = match TypedRef::try_from_base(objects, base, owner) {
        Some(o) => o,
        None => {
            return Err(ConstructError::IncompatibleOwner);
        },
    };
    let made = match pending.take() {
        Some(v) => Some(v),
        None => init(o),
    };
    finish_construct(store, made)
}

/// Gives up ownership of the instance behind `user_data`. Returns the value
/// for the caller to drop (which runs its destructor), `None` when the release
/// waits for running calls or the pointer holds nothing, and an error, with
/// nothing done, for the null pointer.
pub fn destructor<T>(store: &mut InstanceStore<T>, user_data: InstancePtr) -> (r: Result<
    Option<T>,
    DestroyError,
>)
    ensures
        user_data.raw == 0 ==> r == Err::<Option<T>, DestroyError>(DestroyError::NullUserData)
            && final(store)@ == old(store)@,
        user_data.raw != 0 ==> r is Ok && (r->Ok_0, final(store)@) == spec_release(
            old(store)@,
            user_data,
        ),
{
    if user_data.is_null() {
        return Err(DestroyError::NullUserData);
    }
    Ok(store.consume_user_data(user_data))
}

} // verus!
