use spinlock::sections::run_increments;
use spinlock::sections::run_sections;
use spinlock::Spinlock;

#[test]
fn two_sections_one_order() {
    let mut l = Spinlock::new(Vec::new());
    let sections = vec![vec![1u64], vec![2, 2]];
    run_sections(&mut l, &sections);
    let g = l.lock();
    assert_eq!(*g.get(), vec![1, 2, 2]);
    l.unlock(g);
}

#[test]
fn two_sections_other_order() {
    let mut l = Spinlock::new(Vec::new());
    let sections = vec![vec![2u64, 2], vec![1]];
    run_sections(&mut l, &sections);
    let g = l.lock();
    assert_eq!(*g.get(), vec![2, 2, 1]);
    l.unlock(g);
}

#[test]
fn uniform_load_loses_nothing() {
    // Four sections of three pushes each: twelve values survive.
    let mut l = Spinlock::new(Vec::new());
    let sections = vec![
        vec![1u64, 2, 3],
        vec![4, 5, 6],
        vec![7, 8, 9],
        vec![10, 11, 12],
    ];
    run_sections(&mut l, &sections);
    let g = l.lock();
    assert_eq!(g.get().len(), 12);
    assert_eq!(*g.get(), vec![1, 2, 3, 4, 5, 6, 7, 8, 9, 10, 11, 12]);
    l.unlock(g);
}

#[test]
fn sections_stay_contiguous_and_ordered() {
    let mut l = Spinlock::new(Vec::new());
    let sections = vec![vec![5u64, 6, 7], vec![8, 9]];
    run_sections(&mut l, &sections);
    let g = l.lock();
    let result = g.get().clone();
    l.unlock(g);
    // Each section is a contiguous block, in submission order.
    assert_eq!(result[0..3], [5, 6, 7]);
    assert_eq!(result[3..5], [8, 9]);
}

#[test]
fn no_sections_change_nothing() {
    let mut l = Spinlock::new(vec![3u64]);
    let sections: Vec<Vec<u64>> = Vec::new();
    run_sections(&mut l, &sections);
    let g = l.lock();
    assert_eq!(*g.get(), vec![3]);
    l.unlock(g);
}

#[test]
fn empty_section_pushes_nothing() {
    let mut l = Spinlock::new(Vec::new());
    let sections = vec![vec![], vec![4u64], vec![]];
    run_sections(&mut l, &sections);
    let g = l.lock();
    assert_eq!(*g.get(), vec![4]);
    l.unlock(g);
}

#[test]
fn increments_are_never_lost() {
    let mut l = Spinlock::new(0u64);
    run_increments(&mut l, 10);
    let g = l.lock();
    assert_eq!(*g.get(), 10);
    l.unlock(g);
}

#[test]
fn increment_runs_accumulate() {
    let mut l = Spinlock::new(5u64);
    run_increments(&mut l, 3);
    run_increments(&mut l, 0);
    run_increments(&mut l, 4);
    let g = l.lock();
    assert_eq!(*g.get(), 12);
    l.unlock(g);
}
