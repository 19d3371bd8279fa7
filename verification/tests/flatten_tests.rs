use flatten::flatten::flatten;
use flatten::sources::{AscendingRanges, IntRange};
use flatten::{collect_back, collect_front, count, BidiProducer, Flatten, IteratorExt, Producer};

#[test]
fn empty_flatten() {
    let it = flatten(Vec::<Vec<()>>::new());
    assert_eq!(count(it), 0);
}

#[test]
fn empty_wide() {
    let it = flatten(vec![Vec::<()>::new(), vec![], vec![]]);
    assert_eq!(count(it), 0);
}

#[test]
fn one_item() {
    let it = flatten(vec![vec![()]]);
    let it_ = flatten(vec![vec![()]]);

    assert_eq!(count(it), 1);
    assert_eq!(count(it_), 1);
}

#[test]
fn two_items() {
    let it = flatten(vec![vec![()], vec![()]]);
    let it_ = flatten(vec![vec!["a", "b", "c"]]);

    assert_eq!(count(it), 2);
    assert_eq!(count(it_), 3);
}

#[test]
fn reverse_wide() {
    assert_eq!(collect_back(flatten(vec![vec![()], vec![()]])).len(), 2);
    assert_eq!(collect_back(flatten(vec![vec!["a"], vec!["b"]])), vec!["b", "a"]);
}

#[test]
fn test_flatten() {
    let v = vec![vec![1, 2, 3], vec![4, 5, 6], vec![7, 8, 9]];
    let mut iter = flatten(v);
    assert_eq!(iter.pull_front(), Some(1));
    assert_eq!(iter.pull_front(), Some(2));
    assert_eq!(iter.pull_front(), Some(3));
    assert_eq!(iter.pull_front(), Some(4));
    assert_eq!(iter.pull_front(), Some(5));
    assert_eq!(iter.pull_front(), Some(6));
    assert_eq!(iter.pull_front(), Some(7));
    assert_eq!(iter.pull_front(), Some(8));
    assert_eq!(iter.pull_front(), Some(9));
    assert_eq!(iter.pull_front(), None);
}

#[test]
fn reverse_test_flatten() {
    let v = vec![vec![1, 2, 3], vec![4, 5, 6], vec![7, 8, 9]];
    let mut iter = flatten(v);
    assert_eq!(iter.pull_back(), Some(9));
    assert_eq!(iter.pull_back(), Some(8));
    assert_eq!(iter.pull_back(), Some(7));
    assert_eq!(iter.pull_back(), Some(6));
    assert_eq!(iter.pull_back(), Some(5));
    assert_eq!(iter.pull_back(), Some(4));
    assert_eq!(iter.pull_back(), Some(3));
    assert_eq!(iter.pull_back(), Some(2));
    assert_eq!(iter.pull_back(), Some(1));
    assert_eq!(iter.pull_back(), None);
}

#[test]
fn both_ends() {
    let mut iter = flatten(vec![vec!["a1", "a2", "a3"], vec!["b1", "b2", "b3"]]);
    assert_eq!(iter.pull_front(), Some("a1"));
    assert_eq!(iter.pull_back(), Some("b3"));
    assert_eq!(iter.pull_front(), Some("a2"));
    assert_eq!(iter.pull_back(), Some("b2"));
    assert_eq!(iter.pull_front(), Some("a3"));
    assert_eq!(iter.pull_back(), Some("b1"));
    assert_eq!(iter.pull_front(), None);
    assert_eq!(iter.pull_back(), None);
}

#[test]
fn both_ends_first_back_bug() {
    let mut iter = vec![vec!["a1", "a2", "a3"], vec!["b1", "b2", "b3"]].our_flatten();
    assert_eq!(iter.pull_back(), Some("b3"));
    assert_eq!(iter.pull_front(), Some("a1"));
    assert_eq!(iter.pull_front(), Some("a2"));
    assert_eq!(iter.pull_front(), Some("a3"));
    assert_eq!(iter.pull_front(), Some("b1"));
    assert_eq!(iter.pull_back(), Some("b2"));
    assert_eq!(iter.pull_front(), None);
    assert_eq!(iter.pull_back(), None);
}

#[test]
fn both_ends_first_front_bug() {
    let mut iter = flatten(vec![vec!["a1", "a2", "a3"], vec!["b1", "b2", "b3"]]);
    assert_eq!(iter.pull_front(), Some("a1"));
    assert_eq!(iter.pull_back(), Some("b3"));
    assert_eq!(iter.pull_back(), Some("b2"));
    assert_eq!(iter.pull_back(), Some("b1"));
    assert_eq!(iter.pull_back(), Some("a3"));
    assert_eq!(iter.pull_front(), Some("a2"));
    assert_eq!(iter.pull_front(), None);
    assert_eq!(iter.pull_back(), None);
}

#[test]
fn deep() {
    let count_ = count(
        vec![vec![vec![1, 2, 3], vec![4, 5, 6]], vec![vec![7, 8, 9]]].our_flatten().our_flatten(),
    );
    assert_eq!(count_, 9);
}

#[test]
fn deep_order() {
    let v = collect_front(
        vec![vec![vec![1, 2, 3], vec![4, 5, 6]], vec![vec![7, 8, 9]]].our_flatten().our_flatten(),
    );
    assert_eq!(v, vec![1, 2, 3, 4, 5, 6, 7, 8, 9]);
}

#[test]
fn count_matches_total_of_inner_lengths() {
    let it = flatten(vec![vec![1, 2], vec![], vec![3, 4, 5]]);
    assert_eq!(count(it), 5);
}

#[test]
fn forward_order_collected() {
    let v = collect_front(flatten(vec![vec![1, 2, 3], vec![4, 5, 6], vec![7, 8, 9]]));
    assert_eq!(v, vec![1, 2, 3, 4, 5, 6, 7, 8, 9]);
}

#[test]
fn backward_order_collected() {
    let v = collect_back(flatten(vec![vec![1, 2, 3], vec![4, 5, 6], vec![7, 8, 9]]));
    assert_eq!(v, vec![9, 8, 7, 6, 5, 4, 3, 2, 1]);
}

#[test]
fn terminal_stays_terminal() {
    let mut it = flatten(vec![vec![1], vec![2]]);
    assert_eq!(it.pull_front(), Some(1));
    assert_eq!(it.pull_front(), Some(2));
    assert_eq!(it.pull_front(), None);
    assert_eq!(it.pull_front(), None);
    assert_eq!(it.pull_back(), None);
    assert_eq!(it.pull_front(), None);
}

#[test]
fn skips_empty_inner_sequences() {
    let mut it = flatten(vec![vec![], vec![1], vec![], vec![2], vec![]]);
    assert_eq!(it.pull_front(), Some(1));
    assert_eq!(it.pull_back(), Some(2));
    assert_eq!(it.pull_front(), None);
    assert_eq!(it.pull_back(), None);
}

#[test]
fn constructor_equals_free_function() {
    let mut a = Flatten::new(vec![vec![1, 2]]);
    let mut b = flatten(vec![vec![1, 2]]);
    assert_eq!(a.pull_front(), b.pull_front());
    assert_eq!(a.pull_back(), b.pull_back());
    assert_eq!(a.pull_front(), b.pull_front());
}

#[test]
fn inf() {
    // The ladder of ranges [0, k): k = 0 gives nothing, k = 1 gives 0,
    // k = 2 gives 0, 1, and so on.
    let mut iter = flatten(AscendingRanges::new());
    assert_eq!(iter.pull_front(), Some(0));
    assert_eq!(iter.pull_front(), Some(0));
    assert_eq!(iter.pull_front(), Some(1));
    assert_eq!(iter.pull_front(), Some(0));
    assert_eq!(iter.pull_front(), Some(1));
    assert_eq!(iter.pull_front(), Some(2));
    assert_eq!(iter.pull_front(), Some(0));
    assert_eq!(iter.pull_front(), Some(1));
    assert_eq!(iter.pull_front(), Some(2));
    assert_eq!(iter.pull_front(), Some(3));
}

#[test]
fn int_range_pulls_from_both_ends() {
    let mut r = IntRange::new(2, 6);
    assert_eq!(r.pull_front(), Some(2));
    assert_eq!(r.pull_back(), Some(5));
    assert_eq!(r.pull_back(), Some(4));
    assert_eq!(r.pull_front(), Some(3));
    assert_eq!(r.pull_front(), None);
    assert_eq!(r.pull_back(), None);
}

#[test]
fn flatten_of_ranges_collects_in_order() {
    let v = collect_front(flatten(vec![IntRange::new(0, 3), IntRange::new(7, 9)]));
    assert_eq!(v, vec![0, 1, 2, 7, 8]);
}

#[test]
fn vec_is_a_bidirectional_producer() {
    let mut v = vec![1, 2, 3];
    assert_eq!(v.pull_front(), Some(1));
    assert_eq!(v.pull_back(), Some(3));
    assert_eq!(v.pull_front(), Some(2));
    assert_eq!(v.pull_front(), None);
    assert_eq!(v.pull_back(), None);
}
