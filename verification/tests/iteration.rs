use stack_vec::{Iter, StackVec};

#[test]
fn iteration_yields_the_live_elements_only() {
    let mut storage: [u32; 5] = [0; 5];
    let mut v = StackVec::new(&mut storage);
    assert!(v.push(10).is_ok());
    assert!(v.push(20).is_ok());
    assert!(v.push(30).is_ok());
    assert_eq!(v.len(), 3);
    assert_eq!(v.capacity(), 5);

    let seen: Vec<u32> = (&v).into_iter().copied().collect();
    assert_eq!(seen.len(), 3);
    assert_eq!(seen.as_slice(), v.as_slice());
    assert_eq!(seen, vec![10, 20, 30]);
}

#[test]
fn consuming_iteration_yields_the_live_elements_only() {
    let mut storage: [u32; 5] = [1, 2, 3, 4, 5];
    let v = StackVec::with_len(&mut storage, 3);
    let mut it: Iter<u32> = v.into_iter();
    assert_eq!(it.next(), Some(&1));
    assert_eq!(it.next(), Some(&2));
    assert_eq!(it.next(), Some(&3));
    assert_eq!(it.next(), None);
}

#[test]
fn iterator_stays_ended() {
    let mut storage: [u32; 2] = [1, 2];
    let v = StackVec::with_len(&mut storage, 1);
    let mut it: Iter<u32> = v.into_iter();
    assert_eq!(it.next(), Some(&1));
    assert_eq!(it.next(), None);
    assert_eq!(it.next(), None);
    assert_eq!(it.next(), None);
}

#[test]
fn iteration_of_empty_container_yields_nothing() {
    let mut storage: [u32; 4] = [1, 2, 3, 4];
    let v = StackVec::new(&mut storage);
    assert_eq!((&v).into_iter().count(), 0);
    let mut it: Iter<u32> = v.into_iter();
    assert_eq!(it.next(), None);
}

#[test]
fn iteration_of_full_container_yields_every_slot() {
    let mut storage: [u32; 3] = [7, 8, 9];
    let v = StackVec::with_len(&mut storage, 3);
    let seen: Vec<u32> = v.into_iter().copied().collect();
    assert_eq!(seen, vec![7, 8, 9]);
}

#[test]
fn iteration_skips_what_pop_and_truncate_left_behind() {
    let mut storage: [u32; 5] = [1, 2, 3, 4, 5];
    let mut v = StackVec::with_len(&mut storage, 5);
    assert_eq!(v.pop(), Some(5));
    v.truncate(2);
    let seen: Vec<u32> = (&v).into_iter().copied().collect();
    assert_eq!(seen, vec![1, 2]);
    assert_eq!(v.into_iter().count(), 2);
}

#[test]
fn for_loop_over_a_borrowed_container() {
    let mut storage: [u32; 5] = [0; 5];
    let mut v = StackVec::new(&mut storage);
    assert!(v.push(1).is_ok());
    assert!(v.push(2).is_ok());
    assert!(v.push(3).is_ok());
    let mut total: u32 = 0;
    let mut rounds: usize = 0;
    for x in &v {
        total += *x;
        rounds += 1;
    }
    assert_eq!(total, 6);
    assert_eq!(rounds, v.len());
}

#[test]
fn for_loop_over_a_container_given_up() {
    let mut storage: [u32; 4] = [4, 5, 6, 7];
    let v = StackVec::with_len(&mut storage, 2);
    let mut seen: Vec<u32> = Vec::new();
    for x in v {
        seen.push(*x);
    }
    assert_eq!(seen, vec![4, 5]);
    assert_eq!(storage, [4, 5, 6, 7]);
}

#[test]
fn each_walk_starts_at_the_first_element() {
    let mut storage: [u32; 3] = [1, 2, 3];
    let v = StackVec::with_len(&mut storage, 3);
    let mut first: Iter<u32> = (&v).into_iter();
    assert_eq!(first.next(), Some(&1));
    assert_eq!(first.next(), Some(&2));
    let mut second: Iter<u32> = (&v).into_iter();
    assert_eq!(second.next(), Some(&1));
    assert_eq!(first.next(), Some(&3));
    assert_eq!(first.next(), None);
    assert_eq!(second.next(), Some(&2));
}

#[test]
fn iterator_works_with_adaptors() {
    let mut storage: [u32; 6] = [0; 6];
    let mut v = StackVec::new(&mut storage);
    let mut i: u32 = 1;
    while i <= 4 {
        assert!(v.push(i).is_ok());
        i += 1;
    }
    let doubled: Vec<u32> = (&v).into_iter().map(|x| *x * 2).collect();
    assert_eq!(doubled, vec![2, 4, 6, 8]);
    let even: Vec<u32> = (&v).into_iter().copied().filter(|x| *x % 2 == 0).collect();
    assert_eq!(even, vec![2, 4]);
    assert_eq!((&v).into_iter().zip(v.as_slice()).filter(|(a, b)| a == b).count(), 4);
}
