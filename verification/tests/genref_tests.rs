use genref::genref::GenRef;
use genref::index::IndexGen;
use genref::mode::{Exclusive, Mutability, Shared};
use genref::opt::OptionExt;
use genref::slice::{IterGen, SliceExt};

fn drain_front<M: Mutability>(it: &mut IterGen<M, i32>) -> Vec<i32> {
    let mut out: Vec<i32> = Vec::new();
    while let Some(g) = it.next() {
        out.push(g.into_inner());
    }
    out
}

#[test]
fn slice_iter_gen() {
    let a = vec![1, 2, 3, 4];

    let b = GenRef::from_shared(a.clone());
    assert_eq!(*b.index_at(2), 3);

    let mut iter = GenRef::from_shared(a.clone()).iter_gen();
    assert_eq!(iter.next().map(|g| g.into_inner()), Some(1));
    assert_eq!(drain_front(&mut iter), vec![2, 3, 4]);

    let mut b = GenRef::from_exclusive(a.clone());
    assert_eq!(*b.index_at(2), 3);
    *b.index_at_mut(0) = 11;

    let mut iter = b.iter_gen();
    assert_eq!(iter.next().map(|g| g.into_inner()), Some(11));
    assert_eq!(drain_front(&mut iter), vec![2, 3, 4]);
}

#[test]
fn front_iteration_in_order_with_exact_lengths() {
    let src = vec![5, 6, 7];

    let mut it = GenRef::from_shared(src.clone()).iter_gen();
    assert_eq!(it.len(), 3);
    assert_eq!(it.next().map(|g| g.into_inner()), Some(5));
    assert_eq!(it.len(), 2);
    assert_eq!(it.next().map(|g| g.into_inner()), Some(6));
    assert_eq!(it.len(), 1);
    assert_eq!(it.next().map(|g| g.into_inner()), Some(7));
    assert_eq!(it.len(), 0);
    assert!(it.next().is_none());

    let mut it = GenRef::from_exclusive(src.clone()).iter_gen();
    assert_eq!(drain_front(&mut it), vec![5, 6, 7]);
    assert_eq!(it.len(), 0);
}

#[test]
fn alternating_front_and_back_productions() {
    let src = vec![1, 2, 3, 4];

    let mut it = GenRef::from_shared(src.clone()).iter_gen();
    assert_eq!(it.next().map(|g| g.into_inner()), Some(1));
    assert_eq!(it.next_back().map(|g| g.into_inner()), Some(4));
    assert_eq!(it.next().map(|g| g.into_inner()), Some(2));
    assert_eq!(it.next_back().map(|g| g.into_inner()), Some(3));
    assert_eq!(it.len(), 0);
    assert!(it.next().is_none());
    assert!(it.next_back().is_none());

    let mut it = GenRef::from_exclusive(src.clone()).iter_gen();
    assert_eq!(it.next_back().map(|g| g.into_inner()), Some(4));
    assert_eq!(it.next().map(|g| g.into_inner()), Some(1));
    assert_eq!(it.next_back().map(|g| g.into_inner()), Some(3));
    assert_eq!(it.next().map(|g| g.into_inner()), Some(2));
    assert_eq!(it.len(), 0);
    assert!(it.next_back().is_none());
}

#[test]
fn peek_twice_sees_identical_content() {
    let mut it = GenRef::from_shared(vec![8, 9, 10]).iter_gen();
    it.next();
    let first: Vec<i32> = it.as_slice().to_vec();
    let second: Vec<i32> = it.as_slice().to_vec();
    assert_eq!(first, second);
    assert_eq!(first, vec![9, 10]);

    let it = GenRef::from_exclusive(vec![8, 9]).iter_gen();
    assert_eq!(it.as_slice(), it.as_slice());
}

#[test]
fn into_slice_returns_the_unproduced_tail() {
    let mut it = GenRef::from_shared(vec![1, 2, 3, 4]).iter_gen();
    it.next();
    it.next();
    let rest = it.into_slice();
    assert_eq!(rest.into_inner(), vec![3, 4]);

    let mut it = GenRef::from_exclusive(vec![1, 2, 3, 4]).iter_gen();
    it.next();
    let rest = it.into_slice();
    assert_eq!(rest.into_inner(), vec![2, 3, 4]);
}

#[test]
fn index_adapter_projects_the_ith_element() {
    let g = GenRef::from_shared(vec![10, 20, 30]);
    assert_eq!(g.index_gen(0).into_inner(), 10);
    let g = GenRef::from_shared(vec![10, 20, 30]);
    assert_eq!(g.index_gen(2).into_inner(), 30);

    let mut g = GenRef::from_exclusive(vec![10, 20, 30]);
    *g.index_at_mut(1) = 22;
    assert_eq!(*g.index_at(1), 22);
    assert_eq!(g.index_gen(1).into_inner(), 22);
}

#[test]
fn option_adapter_present_and_absent() {
    let present = GenRef::from_shared(Some(7)).as_ref_gen();
    assert_eq!(present.map(|g| g.into_inner()), Some(7));

    let absent = GenRef::from_shared(None::<i32>).as_ref_gen();
    assert!(absent.is_none());

    let present = GenRef::from_exclusive(Some(41)).as_ref_gen();
    assert_eq!(present.map(|g| g.into_inner()), Some(41));

    let absent = GenRef::from_exclusive(None::<i32>).as_ref_gen();
    assert!(absent.is_none());
}

#[test]
fn concrete_shared_and_exclusive_scenario() {
    let mut it = GenRef::from_shared(vec![1, 2, 3, 4]).iter_gen();
    assert_eq!(it.next().map(|g| g.into_inner()), Some(1));
    assert_eq!(drain_front(&mut it), vec![2, 3, 4]);

    let mut g = GenRef::from_exclusive(vec![1, 2, 3, 4]);
    *g.index_at_mut(0) = 11;
    let mut it = g.iter_gen();
    assert_eq!(it.as_slice(), &[11, 2, 3, 4]);
    assert_eq!(it.next().map(|g| g.into_inner()), Some(11));
    assert_eq!(drain_front(&mut it), vec![2, 3, 4]);
}

#[test]
fn default_iterator_is_born_exhausted() {
    let mut it: IterGen<Shared, i32> = IterGen::default();
    assert_eq!(it.len(), 0);
    assert!(it.next().is_none());
    assert!(it.next_back().is_none());
    assert!(it.as_slice().is_empty());

    let mut it: IterGen<Exclusive, i32> = IterGen::default();
    assert_eq!(it.len(), 0);
    assert!(it.next().is_none());
}

#[test]
fn exhausted_iterator_stays_exhausted() {
    let mut it = GenRef::from_shared(vec![1]).iter_gen();
    assert_eq!(it.next().map(|g| g.into_inner()), Some(1));
    assert!(it.next().is_none());
    assert!(it.next().is_none());
    assert!(it.next_back().is_none());
    assert_eq!(it.len(), 0);
}

#[test]
fn handle_read_write_and_conversion() {
    let g = GenRef::from_shared(9);
    assert_eq!(*g.get(), 9);
    let twin = g.duplicate();
    assert_eq!(twin.into_inner(), 9);
    assert_eq!(g.into_inner(), 9);

    let mut g = GenRef::from_exclusive(1);
    g.set(2);
    assert_eq!(*g.get(), 2);
    *g.get_mut() = 3;
    assert_eq!(g.into_inner(), 3);
}
