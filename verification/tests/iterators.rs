use vector::Vector;

fn holding(items: &[i32]) -> Vector<i32> {
    let mut v: Vector<i32> = Vector::new();
    for &item in items {
        v.push(item);
    }
    v
}

#[test]
fn into_iter_goes_front_to_back() {
    let mut it = holding(&[1, 2, 3]).into_iter();
    assert_eq!(it.size_hint(), (3, Some(3)));
    assert_eq!(it.next(), Some(1));
    assert_eq!(it.next(), Some(2));
    assert_eq!(it.size_hint(), (1, Some(1)));
    assert_eq!(it.next(), Some(3));
    assert_eq!(it.size_hint(), (0, Some(0)));
    assert_eq!(it.next(), None);
    assert_eq!(it.next(), None);
}

#[test]
fn into_iter_goes_back_to_front() {
    let mut it = holding(&[1, 2, 3]).into_iter();
    assert_eq!(it.next_back(), Some(3));
    assert_eq!(it.next_back(), Some(2));
    assert_eq!(it.next_back(), Some(1));
    assert_eq!(it.next_back(), None);
    assert_eq!(it.next(), None);
}

#[test]
fn into_iter_from_both_ends_meets_in_the_middle() {
    let mut it = holding(&[1, 2, 3, 4, 5]).into_iter();
    assert_eq!(it.next(), Some(1));
    assert_eq!(it.next_back(), Some(5));
    assert_eq!(it.next_back(), Some(4));
    assert_eq!(it.size_hint(), (2, Some(2)));
    assert_eq!(it.next(), Some(2));
    assert_eq!(it.next(), Some(3));
    assert_eq!(it.next(), None);
    assert_eq!(it.next_back(), None);
}

#[test]
fn into_iter_of_empty_container() {
    let v: Vector<i32> = Vector::new();
    let mut it = v.into_iter();
    assert_eq!(it.size_hint(), (0, Some(0)));
    assert_eq!(it.next(), None);
    assert_eq!(it.next_back(), None);
}

#[test]
fn into_iter_after_pops_sees_only_live_elements() {
    let mut v = holding(&[1, 2, 3, 4]);
    assert_eq!(v.pop(), Some(4));
    assert_eq!(v.remove(0), 1);
    let mut it = v.into_iter();
    assert_eq!(it.size_hint(), (2, Some(2)));
    assert_eq!(it.next(), Some(2));
    assert_eq!(it.next(), Some(3));
    assert_eq!(it.next(), None);
}

#[test]
fn drain_hands_out_everything_in_order() {
    let mut v = holding(&[4, 5, 6]);
    {
        let mut d = v.drain();
        assert_eq!(d.size_hint(), (3, Some(3)));
        assert_eq!(d.next(), Some(4));
        assert_eq!(d.next(), Some(5));
        assert_eq!(d.next(), Some(6));
        assert_eq!(d.size_hint(), (0, Some(0)));
        assert_eq!(d.next(), None);
        assert_eq!(d.next_back(), None);
    }
    assert_eq!(v.len(), 0);
}

#[test]
fn drain_from_both_ends() {
    let mut v = holding(&[1, 2, 3, 4]);
    {
        let mut d = v.drain();
        assert_eq!(d.next_back(), Some(4));
        assert_eq!(d.next(), Some(1));
        assert_eq!(d.size_hint(), (2, Some(2)));
        assert_eq!(d.next_back(), Some(3));
        assert_eq!(d.next_back(), Some(2));
        assert_eq!(d.next_back(), None);
        assert_eq!(d.next(), None);
    }
    assert_eq!(v.len(), 0);
}

#[test]
fn drained_container_takes_pushes_again() {
    let mut v = holding(&[1, 2, 3]);
    {
        let mut d = v.drain();
        while let Some(_) = d.next() {}
        assert_eq!(d.next(), None);
    }
    assert_eq!(v.len(), 0);
    v.push(77);
    assert_eq!(v.len(), 1);
    assert_eq!(*v.get(0), 77);
    assert_eq!(v.pop(), Some(77));
    assert_eq!(v.pop(), None);
}

#[test]
fn drain_keeps_the_capacity() {
    let mut v = holding(&[1, 2, 3, 4, 5]);
    assert_eq!(v.capacity(), 8);
    {
        let mut d = v.drain();
        assert_eq!(d.next(), Some(1));
    }
    assert_eq!(v.len(), 0);
    assert_eq!(v.capacity(), 8);
    for item in 0..8 {
        v.push(item);
    }
    assert_eq!(v.capacity(), 8);
    v.push(8);
    assert_eq!(v.capacity(), 16);
}

#[test]
fn drain_empties_at_once_even_if_never_driven() {
    let mut v = holding(&[1, 2, 3]);
    {
        let _d = v.drain();
    }
    assert_eq!(v.len(), 0);
    assert_eq!(v.pop(), None);
    v.push(9);
    assert_eq!(*v.get(0), 9);
    assert_eq!(v.len(), 1);
}

#[test]
fn drain_of_empty_container() {
    let mut v: Vector<i32> = Vector::new();
    {
        let mut d = v.drain();
        assert_eq!(d.size_hint(), (0, Some(0)));
        assert_eq!(d.next(), None);
        assert_eq!(d.next_back(), None);
    }
    assert_eq!(v.len(), 0);
    assert_eq!(v.capacity(), 0);
    v.push(1);
    assert_eq!(v.capacity(), 1);
    assert_eq!(*v.get(0), 1);
}

#[test]
fn drain_twice() {
    let mut v = holding(&[1, 2]);
    {
        let mut d = v.drain();
        assert_eq!(d.next(), Some(1));
        assert_eq!(d.next(), Some(2));
    }
    v.push(3);
    v.push(4);
    v.push(5);
    {
        let mut d = v.drain();
        assert_eq!(d.size_hint(), (3, Some(3)));
        assert_eq!(d.next_back(), Some(5));
        assert_eq!(d.next(), Some(3));
        assert_eq!(d.next(), Some(4));
        assert_eq!(d.next(), None);
    }
    assert_eq!(v.len(), 0);
    assert_eq!(v.capacity(), 4);
}
