use proxy_sdk::downcast_box::{AnyMut, AnyRef, DowncastBox, Reflect};

trait T1: Reflect {}

struct V1 {}

struct V2 {}

impl From<Box<V1>> for Box<dyn T1> {
    fn from(val: Box<V1>) -> Self {
        val
    }
}

impl T1 for V1 {}

#[test]
fn test_downcast_box() {
    let mut v = DowncastBox::<dyn T1>::new::<V1>(Box::new(V1 {}));
    let _: &mut V1 = v.as_any_mut().downcast_mut().expect("invalid root type");
}

#[test]
fn downcast_to_another_type_fails_cleanly() {
    let mut v = DowncastBox::<dyn T1>::new::<V1>(Box::new(V1 {}));
    assert!(v.as_any_mut().downcast_mut::<V2>().is_none());
    assert!(v.as_any().downcast_ref::<V2>().is_none());
    assert!(v.as_any().downcast_ref::<V1>().is_some());
}

#[test]
fn view_of_a_value_gives_the_value_back() {
    let value = 5u32;
    assert_eq!(AnyRef::of(&value).downcast_ref::<u32>(), Some(&5));
    assert_eq!(value.reflect().downcast_ref::<u32>(), Some(&5));
    assert!(AnyRef::of(&value).downcast_ref::<u64>().is_none());
    let mut changed = 5u32;
    *AnyMut::of(&mut changed).downcast_mut::<u32>().expect("invalid root type") = 7;
    assert_eq!(changed, 7);
    *changed.reflect_mut().downcast_mut::<u32>().expect("invalid root type") += 1;
    assert_eq!(changed, 8);
    assert!(AnyMut::of(&mut changed).downcast_mut::<i32>().is_none());
}

#[test]
fn write_through_the_recovered_value_shows_through_the_interface() {
    let mut handle: DowncastBox<u32> = DowncastBox::from_box(Box::new(5));
    *handle.downcast_mut::<u32>().expect("invalid root type") = 7;
    assert_eq!(*handle.get(), 7);
    *handle.get_mut() = 9;
    assert_eq!(handle.as_any().downcast_ref::<u32>(), Some(&9));
    assert_eq!(handle.downcast_ref::<u32>(), Some(&9));
}
