use vector::Vector;

fn holding(items: &[i32]) -> Vector<i32> {
    let mut v: Vector<i32> = Vector::new();
    for &item in items {
        v.push(item);
    }
    v
}

fn contents(v: &Vector<i32>) -> Vec<i32> {
    let mut out = Vec::new();
    let mut i = 0;
    while i < v.len() {
        out.push(*v.get(i));
        i += 1;
    }
    out
}

#[test]
fn it_works() {
    let mut v: Vector<usize> = Vector::new();
    v.push(16 as usize);
    assert_eq!(v.len(), 1);
    assert_eq!(v.capacity(), 1);
    v.push(20 as usize);
    assert_eq!(v.len(), 2);
    assert_eq!(v.capacity(), 2);
    v.push(21 as usize);
    assert_eq!(v.len(), 3);
    assert_eq!(v.capacity(), 4);
    v.push(23 as usize);
    assert_eq!(v.len(), 4);
    assert_eq!(v.capacity(), 4);
    v.push(28 as usize);
    assert_eq!(v.len(), 5);
    assert_eq!(v.capacity(), 8);
    *v.get_mut(2) = 20;
    assert_eq!(*v.get(2), 20);
    assert_eq!(*v.get(0), 16);
    assert_eq!(*v.get(1), 20);
    assert_eq!(*v.get(3), 23);
    assert_eq!(*v.get(4), 28);
}

#[test]
fn new_container_is_empty_and_unallocated() {
    let v: Vector<i32> = Vector::new();
    assert_eq!(v.len(), 0);
    assert_eq!(v.capacity(), 0);
}

#[test]
fn five_pushes_double_the_capacity() {
    let mut v: Vector<i32> = Vector::new();
    let mut lengths = Vec::new();
    let mut capacities = Vec::new();
    for item in 1..=5 {
        v.push(item);
        lengths.push(v.len());
        capacities.push(v.capacity());
    }
    assert_eq!(lengths, vec![1, 2, 3, 4, 5]);
    assert_eq!(capacities, vec![1, 2, 4, 4, 8]);
    assert_eq!(contents(&v), vec![1, 2, 3, 4, 5]);
}

#[test]
fn insert_in_the_middle_then_remove_the_first() {
    let mut v = holding(&[10, 20, 30]);
    v.insert(1, 99);
    assert_eq!(contents(&v), vec![10, 99, 20, 30]);
    let removed = v.remove(0);
    assert_eq!(removed, 10);
    assert_eq!(contents(&v), vec![99, 20, 30]);
}

#[test]
fn capacity_never_decreases_and_covers_length() {
    let mut v: Vector<i32> = Vector::new();
    let mut last = v.capacity();
    for item in 0..200 {
        v.push(item);
        assert!(v.capacity() >= last);
        assert!(v.capacity() >= v.len());
        last = v.capacity();
    }
    assert_eq!(v.len(), 200);
    assert_eq!(v.capacity(), 256);
}

#[test]
fn capacity_stays_when_elements_leave() {
    let mut v = holding(&[1, 2, 3, 4, 5]);
    assert_eq!(v.capacity(), 8);
    assert_eq!(v.pop(), Some(5));
    assert_eq!(v.remove(0), 1);
    assert_eq!(v.capacity(), 8);
    assert_eq!(v.len(), 3);
}

#[test]
fn kth_growth_gives_two_to_the_k_minus_one() {
    let mut v: Vector<i32> = Vector::new();
    let mut growths: u32 = 0;
    for item in 0..1000 {
        let before = v.capacity();
        v.push(item);
        if v.capacity() != before {
            growths += 1;
            assert_eq!(v.capacity(), 1usize << (growths - 1));
        }
    }
    assert_eq!(growths, 11);
    assert_eq!(v.capacity(), 1024);
}

#[test]
fn push_grows_only_when_full() {
    let mut v = holding(&[1, 2, 3]);
    assert_eq!(v.capacity(), 4);
    v.push(4);
    assert_eq!(v.capacity(), 4);
    v.push(5);
    assert_eq!(v.capacity(), 8);
}

#[test]
fn push_then_pop_round_trip() {
    let mut v = holding(&[7, 8, 9]);
    let before = v.len();
    v.push(42);
    assert_eq!(v.len(), before + 1);
    assert_eq!(v.pop(), Some(42));
    assert_eq!(v.len(), before);
    assert_eq!(contents(&v), vec![7, 8, 9]);
}

#[test]
fn push_then_pop_on_empty() {
    let mut v: Vector<i32> = Vector::new();
    v.push(5);
    assert_eq!(v.pop(), Some(5));
    assert_eq!(v.len(), 0);
    assert_eq!(v.capacity(), 1);
}

#[test]
fn pop_on_empty_gives_none() {
    let mut v: Vector<i32> = Vector::new();
    assert_eq!(v.pop(), None);
    assert_eq!(v.len(), 0);
    v.push(1);
    assert_eq!(v.pop(), Some(1));
    assert_eq!(v.pop(), None);
    assert_eq!(v.pop(), None);
    assert_eq!(v.len(), 0);
}

#[test]
fn pop_gives_last_first() {
    let mut v = holding(&[1, 2, 3]);
    assert_eq!(v.pop(), Some(3));
    assert_eq!(v.pop(), Some(2));
    assert_eq!(contents(&v), vec![1]);
    assert_eq!(v.pop(), Some(1));
    assert_eq!(v.pop(), None);
}

#[test]
fn insert_then_remove_is_inverse_at_every_index() {
    for index in 0..=4 {
        let mut v = holding(&[11, 22, 33, 44]);
        v.insert(index, -1);
        assert_eq!(v.len(), 5);
        assert_eq!(*v.get(index), -1);
        let removed = v.remove(index);
        assert_eq!(removed, -1);
        assert_eq!(contents(&v), vec![11, 22, 33, 44]);
    }
}

#[test]
fn insert_at_front_middle_and_end() {
    let mut v = holding(&[2, 4]);
    v.insert(0, 1);
    assert_eq!(contents(&v), vec![1, 2, 4]);
    v.insert(2, 3);
    assert_eq!(contents(&v), vec![1, 2, 3, 4]);
    v.insert(4, 5);
    assert_eq!(contents(&v), vec![1, 2, 3, 4, 5]);
    assert_eq!(v.len(), 5);
    assert_eq!(v.capacity(), 8);
}

#[test]
fn insert_into_empty_appends() {
    let mut v: Vector<i32> = Vector::new();
    v.insert(0, 9);
    assert_eq!(contents(&v), vec![9]);
    assert_eq!(v.capacity(), 1);
}

#[test]
fn insert_into_full_storage_grows() {
    let mut v = holding(&[1, 2, 3, 4]);
    assert_eq!(v.capacity(), 4);
    v.insert(2, 0);
    assert_eq!(v.capacity(), 8);
    assert_eq!(contents(&v), vec![1, 2, 0, 3, 4]);
}

#[test]
fn remove_first_middle_and_last() {
    let mut v = holding(&[1, 2, 3, 4, 5]);
    assert_eq!(v.remove(4), 5);
    assert_eq!(contents(&v), vec![1, 2, 3, 4]);
    assert_eq!(v.remove(1), 2);
    assert_eq!(contents(&v), vec![1, 3, 4]);
    assert_eq!(v.remove(0), 1);
    assert_eq!(contents(&v), vec![3, 4]);
    assert_eq!(v.remove(0), 3);
    assert_eq!(v.remove(0), 4);
    assert_eq!(v.len(), 0);
    assert_eq!(v.capacity(), 8);
}

#[test]
fn get_mut_changes_one_element() {
    let mut v = holding(&[5, 6, 7]);
    *v.get_mut(0) += 10;
    *v.get_mut(2) = 0;
    assert_eq!(contents(&v), vec![15, 6, 0]);
    assert_eq!(v.len(), 3);
}

#[test]
fn holds_elements_that_own_memory() {
    let mut v: Vector<String> = Vector::new();
    v.push(String::from("b"));
    v.push(String::from("c"));
    v.insert(0, String::from("a"));
    assert_eq!(v.get(1).as_str(), "b");
    v.get_mut(1).push('!');
    assert_eq!(v.remove(1), String::from("b!"));
    assert_eq!(v.pop(), Some(String::from("c")));
    assert_eq!(v.pop(), Some(String::from("a")));
    assert_eq!(v.pop(), None);
}

#[test]
fn small_containers_can_always_take_one() {
    let mut v: Vector<i32> = Vector::new();
    assert!(v.can_take_one());
    for item in 0..9 {
        v.push(item);
        assert!(v.can_take_one());
    }
    assert_eq!(v.len(), 9);
    assert_eq!(v.capacity(), 16);
}

fn needs_send<S: Send>() {}

fn needs_sync<S: Sync>() {}

#[test]
fn container_of_shareable_elements_is_shareable() {
    needs_send::<Vector<i32>>();
    needs_sync::<Vector<i32>>();
    needs_send::<vector::RawVec<String>>();
    needs_sync::<vector::RawVec<String>>();
    needs_send::<vector::IntoIter<u8>>();
    needs_send::<vector::Drain<'static, u8>>();
}
