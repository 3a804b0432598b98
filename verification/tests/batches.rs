use benchbot::batches::{enqueue_batches, split_into_batches};
use std::collections::VecDeque;

#[test]
fn batches_split_evenly_with_remainder_last() {
    let items: Vec<u32> = (0..10).collect();
    let b = split_into_batches(items, 4);
    assert_eq!(b, vec![vec![0, 1], vec![2, 3], vec![4, 5], vec![6, 7], vec![8, 9]]);
    let items: Vec<u32> = (0..11).collect();
    let b = split_into_batches(items, 3);
    assert_eq!(b, vec![vec![0, 1, 2], vec![3, 4, 5], vec![6, 7, 8], vec![9, 10]]);
}

#[test]
fn one_thread_takes_one_batch() {
    let b = split_into_batches(vec!['a', 'b', 'c'], 1);
    assert_eq!(b, vec![vec!['a', 'b', 'c']]);
}

#[test]
fn batches_join_back_to_the_items() {
    let items: Vec<u64> = (0..1000).map(|x| x * 7).collect();
    let b = split_into_batches(items.clone(), 7);
    let joined: Vec<u64> = b.concat();
    assert_eq!(joined, items);
    assert!(b.iter().all(|x| x.len() <= 142 && !x.is_empty()));
}

#[test]
fn enqueue_keeps_order_behind_existing() {
    let mut q: VecDeque<Vec<u8>> = VecDeque::new();
    q.push_back(vec![9]);
    enqueue_batches(&mut q, vec![vec![1, 2], vec![3]]);
    assert_eq!(q.pop_front(), Some(vec![9]));
    assert_eq!(q.pop_front(), Some(vec![1, 2]));
    assert_eq!(q.pop_front(), Some(vec![3]));
    assert_eq!(q.pop_front(), None);
}
