use secbox::SecBox;
use std::cell::Cell;
use std::rc::Rc;

#[test]
fn test_new() {
    let a = SecBox::new(b'a');
    let b = SecBox::new(b'b');
    let c = SecBox::new(b'c');

    assert_eq!(*a, b'a');
    assert_eq!(*b, b'b');
    assert_eq!(*c, b'c');
}

#[test]
fn test_unsized() {
    let string = String::from("abcs").into_boxed_str();

    let bx = SecBox::from(string);

    assert_eq!(&*bx, "abcs");
}

#[test]
fn test_into_inner() {
    let a = SecBox::new(b'a');
    let b = SecBox::new(b'b');
    let c = SecBox::new(b'c');

    assert_eq!(a.into_inner(), b'a');
    assert_eq!(b.into_inner(), b'b');
    assert_eq!(c.into_inner(), b'c');
}

#[test]
fn test_mut() {
    let mut n = SecBox::new(0);

    assert_eq!(*n, 0);

    *n += 1;

    assert_eq!(*n, 1);

    *n = 55;

    assert_eq!(*n, 55);
}

#[test]
fn test_clone() {
    let bx = SecBox::new(0);
    let mut bx2 = bx.clone();

    *bx2 = 3;

    assert_eq!(*bx, 0);
    assert_eq!(*bx2, 3);
}

#[test]
fn test_clone_from() {
    let bx = SecBox::new(0);
    let mut bx2 = SecBox::new(44);

    bx2.clone_from(&bx);

    assert_eq!(*bx, 0);
    assert_eq!(*bx2, 0);
}

struct Dropper {
    dropped: Rc<Cell<bool>>,
}

impl Drop for Dropper {
    fn drop(&mut self) {
        // No double-drops.
        assert!(!self.dropped.get());
        self.dropped.set(true);
    }
}

#[test]
fn test_dtor() {
    let d = Rc::new(Cell::new(false));
    let d2 = d.clone();

    let dropster = Dropper { dropped: d };

    let bx = SecBox::new(dropster);

    drop(bx);

    assert!(d2.get());
}

#[test]
fn extracted_value_is_not_dropped_by_the_container() {
    let d = Rc::new(Cell::new(false));
    let bx = SecBox::new(Dropper { dropped: d.clone() });
    let inner = bx.into_inner();
    assert!(!d.get());
    drop(inner);
    assert!(d.get());
}

#[test]
fn clone_of_original_is_independent_both_ways() {
    let mut a = SecBox::new(vec![1u8, 2, 3]);
    let mut b = a.clone();
    b.push(4);
    a[0] = 9;
    assert_eq!(*a, vec![9u8, 2, 3]);
    assert_eq!(*b, vec![1u8, 2, 3, 4]);
}

#[derive(Clone)]
struct Counted {
    drops: Rc<Cell<u32>>,
}

impl Drop for Counted {
    fn drop(&mut self) {
        self.drops.set(self.drops.get() + 1);
    }
}

#[test]
fn clone_from_drops_the_previous_value_once() {
    let old_drops = Rc::new(Cell::new(0u32));
    let src_drops = Rc::new(Cell::new(0u32));
    let src = SecBox::new(Counted { drops: src_drops.clone() });
    let mut dst = SecBox::new(Counted { drops: old_drops.clone() });
    dst.clone_from(&src);
    assert_eq!(old_drops.get(), 1);
    assert_eq!(src_drops.get(), 0);
    drop(dst);
    assert_eq!(src_drops.get(), 1);
    drop(src);
    assert_eq!(src_drops.get(), 2);
    assert_eq!(old_drops.get(), 1);
}

#[test]
fn formatting_shows_only_the_placeholder() {
    let a = SecBox::new(String::from("hunter2"));
    let b = SecBox::new(0u64);
    assert_eq!(a.fmt_redacted(), "*******");
    assert_eq!(b.fmt_redacted(), "*******");
    assert!(!a.fmt_redacted().contains("hunter2"));
}
