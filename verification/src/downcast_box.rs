use std::any::Any;
use vstd::prelude::*;

verus! {

/// A shared reflectable view of one value, from which its concrete type can
/// be recovered.
///
/// The view is a reference of std's `dyn Any`, which Verus cannot name, so
/// the struct is opaque to the verifier.
#[verifier::external_body]
pub struct AnyRef<'a> {
    inner: &'a dyn Any,
}

/// An exclusive reflectable view of one value, from which its concrete type
/// can be recovered.
///
/// The view is a reference of std's `dyn Any`, which Verus cannot name, so
/// the struct is opaque to the verifier.
#[verifier::external_body]
pub struct AnyMut<'a> {
    inner: &'a mut dyn Any,
}

impl<'a> AnyRef<'a> {
    /// Whether `r` is what a downcast of this view to the type `R` gives,
    /// as far as that can be told: if the view was made of a value of the
    /// type `R`, `r` is that value.
    pub open spec fn recovers<R: 'static>(self, r: Option<&'a R>) -> bool {
        forall|value: &'a R|
            #[trigger] call_ensures(AnyRef::of::<R>, (value,), self) ==> r == Some(value)
    }

    /// Coerces a reference to `&dyn Any`. Nothing is claimed of the result
    /// here; `downcast_ref` says what a view that this call made gives.
    #[verifier::external_body]
    pub fn of<R: 'static>(value: &'a R) -> (r: AnyRef<'a>) {
        AnyRef { inner: value }
    }

    /// Calls `<dyn Any>::downcast_ref`, which gives the value back when its
    /// concrete type is `R`. The claim is of the one case that can be
    /// told here: a view that was made of a value of the type `R` gives
    /// that value back.
    #[verifier::external_body]
    pub fn downcast_ref<R: 'static>(self) -> (r: Option<&'a R>)
        ensures
            self.recovers(r),
    {
        self.inner.downcast_ref::<R>()
    }
}

impl<'a> AnyMut<'a> {
    /// Whether `r` is what a downcast of this view to the type `R` gives,
    /// as far as that can be told: if the view was made of a value of the
    /// type `R`, `r` is that value, borrowed as the view borrowed it.
    pub open spec fn recovers<R: 'static>(self, r: Option<&'a mut R>) -> bool {
        forall|value: &'a mut R|
            #[trigger] call_ensures(AnyMut::of::<R>, (value,), self) ==> r == Some(value)
    }

    /// Coerces a reference to `&mut dyn Any`. Nothing is claimed of the
    /// result here; `downcast_mut` says what a view that this call made
    /// gives.
    #[verifier::external_body]
    pub fn of<R: 'static>(value: &'a mut R) -> (r: AnyMut<'a>) {
        AnyMut { inner: value }
    }

    /// Calls `<dyn Any>::downcast_mut`, which gives the value back when its
    /// concrete type is `R`. The claim is of the one case that can be
    /// told here: a view that was made of a value of the type `R` gives
    /// that value back.
    #[verifier::external_body]
    pub fn downcast_mut<R: 'static>(self) -> (r: Option<&'a mut R>)
        ensures
            self.recovers(r),
    {
        self.inner.downcast_mut::<R>()
    }
}

/// A value that can hand out a reflectable view of itself.
///
/// Every sized `'static` type has this; a trait that names `Reflect` as a
/// supertrait passes it on to its trait objects, which then answer with the
/// view of the concrete value behind them.
pub trait Reflect {
    /// A shared reflectable view of this value.
    fn reflect(&self) -> AnyRef<'_>;

    /// An exclusive reflectable view of this value.
    fn reflect_mut(&mut self) -> AnyMut<'_>;
}

impl<R: 'static> Reflect for R {
    /// The view of this very value, as the concrete type that it has.
    fn reflect(&self) -> (r: AnyRef<'_>)
        ensures
            call_ensures(AnyRef::of::<R>, (self,), r),
    {
        AnyRef::of(self)
    }

    /// The exclusive view of this very value, as the concrete type that
    /// it has.
    fn reflect_mut(&mut self) -> (r: AnyMut<'_>)
        ensures
            exists|target: &mut R|
                *target == *old(self) && *final(target) == *final(self) && #[trigger] call_ensures(
                    AnyMut::of::<R>,
                    (target,),
                    r,
                ),
    {
        AnyMut::of(self)
    }
}

/// Owns one value behind the interface `T` and still lets a caller who knows
/// the concrete type recover it.
///
/// There is a single owner of a single allocation: both views are borrowed
/// from the same box, and the value is dropped once, with the box.
pub struct DowncastBox<T: ?Sized> {
    general: Box<T>,
}

impl<T: ?Sized + Reflect> DowncastBox<T> {
    /// Takes ownership of `value` and stores it behind the interface `T`:
    /// the box holds what the conversion of `value` to the interface
    /// gives.
    pub fn new<R: Sized + 'static>(value: Box<R>) -> (r: Self) where Box<R>: Into<Box<T>>
        ensures
            call_ensures(<Box<R> as Into<Box<T>>>::into, (value,), r.boxed()),
    {
        DowncastBox { general: value.into() }
    }

    /// Takes ownership of a value that is behind the interface already.
    pub fn from_box(general: Box<T>) -> (r: Self)
        ensures
            r.boxed() == general,
            r.holds(&*general),
    {
        DowncastBox { general }
    }

    /// The reflectable view of the stored value: the one that the stored
    /// value gives of itself.
    pub fn as_any(&self) -> (r: AnyRef<'_>)
        ensures
            call_ensures(T::reflect, (self.spec_get(),), r),
    {
        T::reflect(&*self.general)
    }

    /// The exclusive reflectable view of the stored value: the one that
    /// the stored value gives of itself. When the view is given up, the
    /// box holds what became of the value.
    pub fn as_any_mut(&mut self) -> (r: AnyMut<'_>)
        ensures
            exists|target: &mut T|
                old(self).holds(target) && final(self).holds(final(target))
                    && #[trigger] call_ensures(
                    T::reflect_mut,
                    (target,),
                    r,
                ),
    {
        T::reflect_mut(self.get_mut())
    }

    /// The stored value as the concrete type `R`, if that is its type: what
    /// the downcast of the stored value's own view gives.
    pub fn downcast_ref<R: 'static>(&self) -> (r: Option<&R>)
        ensures
            exists|view: AnyRef<'_>|
                #[trigger] call_ensures(T::reflect, (self.spec_get(),), view) && call_ensures(
                    AnyRef::downcast_ref::<R>,
                    (view,),
                    r,
                ),
    {
        self.as_any().downcast_ref::<R>()
    }

    /// The stored value as the concrete type `R`, if that is its type, for
    /// changing it: what the downcast of the stored value's own exclusive
    /// view gives. When the result is given up, the box holds what became
    /// of the value.
    pub fn downcast_mut<R: 'static>(&mut self) -> (r: Option<&mut R>)
        ensures
            exists|target: &mut T, view: AnyMut<'_>|
                old(self).holds(target) && final(self).holds(final(target))
                    && #[trigger] call_ensures(T::reflect_mut, (target,), view)
                    && #[trigger] call_ensures(AnyMut::downcast_mut::<R>, (view,), r),
    {
        self.as_any_mut().downcast_mut::<R>()
    }

    /// The stored value, seen through the interface.
    pub fn get(&self) -> (r: &T)
        ensures
            r == self.spec_get(),
            self.holds(r),
    {
        &*self.general
    }

    /// The stored value, seen through the interface, for changing it.
    pub fn get_mut(&mut self) -> (r: &mut T)
        ensures
            old(self).holds(r),
            final(self).holds(final(r)),
    {
        &mut *self.general
    }
}

impl<T: ?Sized> DowncastBox<T> {
    /// The box that holds the stored value.
    pub closed spec fn boxed(self) -> Box<T> {
        self.general
    }

    /// The stored value, seen through the interface.
    pub open spec fn spec_get(&self) -> &T {
        &*self.boxed()
    }

    /// Whether `value` is the stored value.
    pub open spec fn holds(&self, value: &T) -> bool {
        value == self.spec_get()
    }
}

/// A handle recovers what it holds: where the interface is the concrete
/// type itself, the downcast of the stored value's own view to that type
/// gives the stored value, the one that the handle shows through the
/// interface.
pub proof fn law_handle_recovers_its_value<'a, R: 'static>(
    handle: &'a DowncastBox<R>,
    view: AnyRef<'a>,
    r: Option<&'a R>,
)
    requires
        call_ensures(R::reflect, (handle.spec_get(),), view),
        call_ensures(AnyRef::downcast_ref::<R>, (view,), r),
    ensures
        r == Some(handle.spec_get()),
{
}

} // verus!
