use owning_ref::{BoxRef, OwningRef, RcRef, StringRef, VecRef};

use std::rc::Rc;

#[derive(Debug, PartialEq, Clone)]
struct Example(u32, String, [u8; 3]);

fn example() -> Example {
    Example(42, "hello world".to_string(), [1, 2, 3])
}

#[test]
fn new_deref() {
    let or: OwningRef<Box<()>, ()> = OwningRef::new(Box::new(()));
    assert_eq!(&*or, &());
}

#[test]
fn into() {
    let or: OwningRef<Box<()>, ()> = Box::new(()).into();
    assert_eq!(&*or, &());
}

#[test]
fn map_offset_ref() {
    let or: BoxRef<Example> = Box::new(example()).into();
    let or: BoxRef<_, u32> = or.map(|x| x.0);
    assert_eq!(&*or, &42);

    let or: BoxRef<Example> = Box::new(example()).into();
    let or: BoxRef<_, u8> = or.map(|x| x.2[1]);
    assert_eq!(&*or, &2);
}

#[test]
fn map_heap_ref() {
    let or: BoxRef<Example> = Box::new(example()).into();
    let or: BoxRef<_, String> = or.map(|x| x.1[..5].to_string());
    assert_eq!(&*or, "hello");
}

#[test]
fn map_static_ref() {
    let or: BoxRef<()> = Box::new(()).into();
    let or: BoxRef<_, &str> = or.map(|_| "hello");
    assert_eq!(*or, "hello");
}

#[test]
fn map_chained() {
    let or: BoxRef<String> = Box::new(example().1).into();
    let or: BoxRef<_, String> = or.map(|x| x[1..5].to_string());
    let or: BoxRef<_, String> = or.map(|x| x[..2].to_string());
    assert_eq!(&*or, "el");
}

#[test]
fn map_chained_inference() {
    let or = BoxRef::new(Box::new(example().1))
        .map(|x| x[..5].to_string())
        .map(|x| x[1..3].to_string());
    assert_eq!(&*or, "el");
}

#[test]
fn owner() {
    let or: BoxRef<String> = Box::new(example().1).into();
    let or = or.map(|x| x[..5].to_string());
    assert_eq!(&*or, "hello");
    assert_eq!(&**or.owner(), "hello world");
}

#[test]
fn into_inner() {
    let or: BoxRef<String> = Box::new(example().1).into();
    let or = or.map(|x| x[..5].to_string());
    assert_eq!(&*or, "hello");
    let s = *or.into_inner();
    assert_eq!(&s, "hello world");
}

#[test]
fn fmt_debug() {
    let or: BoxRef<String> = Box::new(example().1).into();
    let or = or.map(|x| x[..5].to_string());
    let s = format!("{:?}", or);
    assert_eq!(&s, "OwningRef { owner: \"hello world\", reference: \"hello\" }");
}

#[derive(Clone)]
struct Foo {
    tag: u32,
    x: u16,
    y: u16,
    z: u16,
}

#[test]
fn box_ref() {
    // Caching a reference to a struct field

    let foo = Foo { tag: 1, x: 100, y: 200, z: 300 };

    let or = BoxRef::new(Box::new(foo)).map(|foo| match foo.tag {
        0 => foo.x,
        1 => foo.y,
        2 => foo.z,
        _ => !0,
    });

    assert_eq!(*or, 200);
}

#[test]
fn vec_ref() {
    // Cache a reference to an entry in a vector

    let v = VecRef::new(vec![1, 2, 3, 4, 5]).map(|v| v[3]);
    assert_eq!(*v, 4);
}

#[test]
fn string_ref() {
    // Caching a subslice of a String

    let s = StringRef::new("hello world".to_owned())
        .map(|s| s.split(' ').nth(1).unwrap().to_string());

    assert_eq!(&*s, "world");
}

#[test]
fn rc_ref() {
    // Creating many subslices that share ownership of the backing storage

    let rc: Rc<Vec<i32>> = Rc::new(vec![1, 2, 3, 4]);
    let rc: RcRef<Vec<i32>> = rc.into();
    assert_eq!(&*rc, &[1, 2, 3, 4]);

    let rc_a: RcRef<Vec<i32>> = rc.clone().map(|s| s[0..2].to_vec());
    let rc_b = rc.clone().map(|s| s[1..3].to_vec());
    let rc_c = rc.clone().map(|s| s[2..4].to_vec());
    assert_eq!(&*rc_a, &[1, 2]);
    assert_eq!(&*rc_b, &[2, 3]);
    assert_eq!(&*rc_c, &[3, 4]);

    let rc_c_a = rc_c.clone().map(|s| s[1]);
    assert_eq!(&*rc_c_a, &4);
}
