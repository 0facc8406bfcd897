use badger_snake::fixed_vec_deque::FixedVecDeque;

fn filled<const N: usize>(items: &[i32]) -> FixedVecDeque<i32, N> {
    let mut deque = FixedVecDeque::<i32, N>::new();
    for item in items {
        deque.push_back(*item);
    }
    deque
}

fn drained<const N: usize>(mut deque: FixedVecDeque<i32, N>) -> Vec<i32> {
    let mut items = Vec::new();
    while let Some(item) = deque.pop_front() {
        items.push(item);
    }
    items
}

fn walked<const N: usize>(deque: &FixedVecDeque<i32, N>) -> Vec<i32> {
    let mut items = Vec::new();
    let mut iter = deque.iter();
    while let Some(item) = iter.next() {
        items.push(*item);
    }
    items
}

#[test]
fn test_push_front() {
    let mut deque = FixedVecDeque::<i32, 3>::new();
    deque.push_front(1);
    deque.push_front(2);
    deque.push_front(3);
    assert_eq!(deque.front(), Some(&3));
    assert_eq!(deque.len(), 3);
}

#[test]
fn test_push_back() {
    let mut deque = FixedVecDeque::<i32, 3>::new();
    deque.push_back(1);
    deque.push_back(2);
    deque.push_back(3);
    assert_eq!(deque.front(), Some(&1));
    assert_eq!(deque.len(), 3);
}

#[test]
fn test_pop_front() {
    let mut deque = FixedVecDeque::<i32, 3>::new();
    deque.push_back(1);
    deque.push_back(2);
    deque.push_back(3);
    assert_eq!(deque.pop_front(), Some(1));
    assert_eq!(deque.pop_front(), Some(2));
}

#[test]
fn test_pop_back() {
    let mut deque = FixedVecDeque::<i32, 3>::new();
    deque.push_back(1);
    deque.push_back(2);
    deque.push_back(3);
    assert_eq!(deque.pop_back(), Some(3));
    assert_eq!(deque.pop_back(), Some(2));
}

#[test]
fn test_contains() {
    let mut deque = FixedVecDeque::<i32, 3>::new();
    deque.push_back(1);
    deque.push_back(2);
    deque.push_back(3);
    assert!(deque.contains(&1));
    assert!(deque.contains(&2));
    assert!(deque.contains(&3));
    assert!(!deque.contains(&4));
}

#[test]
fn test_iter() {
    let mut deque = FixedVecDeque::<i32, 3>::new();
    deque.push_back(1);
    deque.push_back(2);
    deque.push_back(3);
    let mut iter = deque.iter();
    assert_eq!(iter.next(), Some(&1));
    assert_eq!(iter.next(), Some(&2));
}

#[test]
fn new_deque_is_empty() {
    let mut deque = FixedVecDeque::<i32, 3>::new();
    assert!(deque.is_empty());
    assert_eq!(deque.len(), 0);
    assert_eq!(deque.front(), None);
    assert_eq!(deque.pop_front(), None);
    assert_eq!(deque.pop_back(), None);
    assert!(!deque.contains(&0));
    assert_eq!(deque.iter().next(), None);
}

#[test]
fn default_deque_is_empty() {
    let deque: FixedVecDeque<i32, 3> = Default::default();
    assert!(deque.is_empty());
    assert_eq!(deque.len(), 0);
}

#[test]
fn push_front_on_full_drops_the_rear() {
    let mut deque = filled::<3>(&[1, 2, 3]);
    deque.push_front(4);
    assert_eq!(deque.len(), 3);
    assert_eq!(walked(&deque), vec![4, 1, 2]);
    assert!(!deque.contains(&3));
}

#[test]
fn push_back_on_full_drops_the_front() {
    let mut deque = filled::<3>(&[1, 2, 3]);
    deque.push_back(4);
    assert_eq!(deque.len(), 3);
    assert_eq!(walked(&deque), vec![2, 3, 4]);
    assert!(!deque.contains(&1));
}

#[test]
fn len_never_exceeds_capacity() {
    let mut deque = FixedVecDeque::<i32, 4>::new();
    for i in 0..50 {
        if i % 3 == 0 {
            deque.push_front(i);
        } else {
            deque.push_back(i);
        }
        assert!(deque.len() <= 4);
        assert_eq!(deque.len(), std::cmp::min(i as usize + 1, 4));
    }
    assert_eq!(walked(&deque), vec![40, 43, 46, 49]);
}

#[test]
fn capacity_one_keeps_the_last_push() {
    let mut deque = FixedVecDeque::<i32, 1>::new();
    deque.push_back(1);
    deque.push_back(2);
    assert_eq!(walked(&deque), vec![2]);
    deque.push_front(3);
    assert_eq!(walked(&deque), vec![3]);
    assert_eq!(deque.pop_back(), Some(3));
    assert!(deque.is_empty());
}

#[test]
fn capacity_zero_stays_empty() {
    let mut deque = FixedVecDeque::<i32, 0>::new();
    deque.push_back(1);
    deque.push_front(2);
    assert!(deque.is_empty());
    assert_eq!(deque.len(), 0);
    assert_eq!(deque.front(), None);
    assert_eq!(deque.pop_front(), None);
    assert_eq!(deque.pop_back(), None);
    assert!(!deque.contains(&1));
    assert_eq!(deque.iter().next(), None);
}

#[test]
fn iter_matches_repeated_pop_front() {
    let mut deque = FixedVecDeque::<i32, 5>::new();
    deque.push_back(3);
    deque.push_back(4);
    deque.push_front(2);
    deque.push_front(1);
    deque.push_back(5);
    deque.push_back(6);
    let seen = walked(&deque);
    assert_eq!(seen.len(), deque.len());
    assert_eq!(seen, vec![2, 3, 4, 5, 6]);
    assert_eq!(walked(&deque), seen);
    assert_eq!(drained(deque), seen);
}

#[test]
fn iter_ends_and_stays_ended() {
    let deque = filled::<3>(&[7, 8]);
    let mut iter = deque.iter();
    assert_eq!(iter.next(), Some(&7));
    assert_eq!(iter.next(), Some(&8));
    assert_eq!(iter.next(), None);
    assert_eq!(iter.next(), None);
    assert_eq!(deque.len(), 2);
}

#[test]
fn pops_wrap_round_the_ring() {
    let mut deque = FixedVecDeque::<i32, 3>::new();
    for round in 0..10 {
        deque.push_back(round);
        deque.push_back(round + 100);
        assert_eq!(deque.pop_front(), Some(round));
        assert_eq!(deque.front(), Some(&(round + 100)));
        assert_eq!(deque.pop_back(), Some(round + 100));
        assert!(deque.is_empty());
        assert_eq!(deque.front(), None);
    }
}

#[test]
fn contains_after_pop_is_false() {
    let mut deque = filled::<3>(&[1, 2, 3]);
    assert_eq!(deque.pop_front(), Some(1));
    assert!(!deque.contains(&1));
    assert!(deque.contains(&2));
    assert_eq!(deque.pop_back(), Some(3));
    assert!(!deque.contains(&3));
    assert_eq!(deque.len(), 1);
}
