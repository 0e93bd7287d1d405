//! The sample consumer: sorting and merging sequences while threading a
//! named comparator through the types, so that sequences sorted under
//! different comparators cannot be merged. It exercises the naming facility
//! from outside, as downstream code would.

use std::cmp::Ordering;
use std::marker::PhantomData;

use dependent_ghost::named::{name, Named};

pub struct SortedBy<Comp, A> {
    value: A,
    _phantom: PhantomData<Comp>,
}

impl<Comp, A> SortedBy<Comp, A> {
    pub fn new(x: A) -> Self {
        SortedBy { value: x, _phantom: PhantomData }
    }

    pub fn out(self) -> A {
        self.value
    }
}

pub fn sort_by<F, T, C, Comp>(mut v: Vec<T>, cmp: &C) -> SortedBy<Comp, Vec<T>>
where
    F: Fn(&T, &T) -> Ordering,
    C: Named<F, Name = Comp>,
{
    v.sort_by(cmp.out_ref());
    SortedBy::new(v)
}

pub fn merge_by<F, T, C, Comp>(
    xs: SortedBy<Comp, Vec<T>>,
    ys: SortedBy<Comp, Vec<T>>,
    cmp: &C,
) -> SortedBy<Comp, Vec<T>>
where
    F: Fn(&T, &T) -> Ordering,
    C: Named<F, Name = Comp>,
{
    let mut result = Vec::new();
    let mut xs = xs.out().into_iter().peekable();
    let mut ys = ys.out().into_iter().peekable();
    let cmp = cmp.out_ref();

    loop {
        let which = match (xs.peek(), ys.peek()) {
            (Some(x), Some(y)) => Some(cmp(x, y)),
            (Some(_), None) => Some(Ordering::Less),
            (None, Some(_)) => Some(Ordering::Greater),
            (None, None) => None,
        };

        match which {
            None => break,
            Some(Ordering::Less) | Some(Ordering::Equal) => {
                result.push(xs.next().unwrap())
            }
            Some(Ordering::Greater) => result.push(ys.next().unwrap()),
        };
    }

    SortedBy::new(result)
}

#[test]
fn run_sort() {
    let comparator = name(i32::cmp);
    let xs: Vec<i32> = vec![1, 5, 3];
    let ys: Vec<i32> = vec![6, 2, 4];
    let xs = sort_by(xs, &comparator);
    let ys = sort_by(ys, &comparator);

    let zs = merge_by(xs, ys, &comparator);

    assert_eq!(zs.out(), vec![1, 2, 3, 4, 5, 6]);
}

#[test]
fn sort_ascending() {
    let comparator = name(i32::cmp);
    let v: Vec<i32> = vec![3, 1, 2];
    assert_eq!(sort_by(v, &comparator).out(), vec![1, 2, 3]);
}

#[test]
fn merge_empty_left() {
    let comparator = name(i32::cmp);
    let empty: Vec<i32> = vec![];
    let full: Vec<i32> = vec![1, 2, 3];
    let empty = sort_by(empty, &comparator);
    let full = sort_by(full, &comparator);
    assert_eq!(merge_by(empty, full, &comparator).out(), vec![1, 2, 3]);
}

#[test]
fn merge_empty_right() {
    let comparator = name(i32::cmp);
    let empty: Vec<i32> = vec![];
    let full: Vec<i32> = vec![1, 2, 3];
    let empty = sort_by(empty, &comparator);
    let full = sort_by(full, &comparator);
    assert_eq!(merge_by(full, empty, &comparator).out(), vec![1, 2, 3]);
}

fn fst_cmp(a: &(i32, i32), b: &(i32, i32)) -> Ordering {
    i32::cmp(&a.0, &b.0)
}

#[test]
fn merge_is_stable() {
    // On elements the comparator calls equal, the left sequence's element
    // comes out first; the second component records the provenance.
    let comparator = name(fst_cmp);
    let xs: Vec<(i32, i32)> = vec![(1, 10), (2, 10)];
    let ys: Vec<(i32, i32)> = vec![(1, 20), (2, 20)];
    let xs = sort_by(xs, &comparator);
    let ys = sort_by(ys, &comparator);
    let zs = merge_by(xs, ys, &comparator);
    assert_eq!(zs.out(), vec![(1, 10), (1, 20), (2, 10), (2, 20)]);
}
