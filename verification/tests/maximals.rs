use itertools::Itertools;
use txt_timer::maximals::{Keyed, Maximals};

#[test]
fn maximals_int() {
    let mut m: Maximals<u8> = Maximals::new(4);
    itertools::assert_equal(m.iter().iter(), vec![].iter());

    m.insert(1);
    itertools::assert_equal(m.iter().iter(), (vec![1]).iter());
    m.insert(2);
    m.insert(3);
    m.insert(7);
    itertools::assert_equal(m.iter().iter(), vec![7, 3, 2, 1].iter());
    m.insert(9);
    itertools::assert_equal(m.iter().iter(), vec![9, 7, 3, 2].iter());
    m.insert(3);
    itertools::assert_equal(m.iter().iter(), vec![9, 7, 3, 3].iter());
    m.insert(8);
    itertools::assert_equal(m.iter().iter(), vec![9, 8, 7, 3].iter());
    m.insert(8);
    m.insert(8);
    m.insert(8);
    m.insert(8);
    m.insert(8);
    m.insert(8);
    m.insert(7);
    itertools::assert_equal(m.iter().iter(), vec![9, 8, 8, 8].iter());

    for v in vec![1, 2, 7, 7, 8, 1, 2].into_iter().permutations(7) {
        m = Maximals::new(5);
        for e in v {
            m.insert(e);
        }
        itertools::assert_equal(m.iter().iter(), vec![8, 7, 7, 2, 2].iter());
    }
}

#[test]
fn maximals_struct() {
    let mut m: Maximals<Keyed> = Maximals::new(4);
    itertools::assert_equal(m.iter().iter(), vec![].iter());
    let t_1_2 = Keyed { cmp: 1, data: 2 };
    let t_3_1 = Keyed { cmp: 3, data: 1 };
    let t_1_3 = Keyed { cmp: 1, data: 3 };
    m.insert(t_1_2);
    m.insert(t_3_1);
    m.insert(t_1_3);

    itertools::assert_equal(m.iter().iter(), vec![t_3_1, t_1_3, t_1_2].iter());

    m.clear();
    m.insert(t_3_1);
    m.insert(t_1_3);
    m.insert(t_1_2);
    itertools::assert_equal(m.iter().iter(), vec![t_3_1, t_1_3, t_1_2].iter());
}

#[test]
fn keyed_ties_break_by_data() {
    let mut m: Maximals<Keyed> = Maximals::new(2);
    let low = Keyed { cmp: 5, data: 1 };
    let high = Keyed { cmp: 5, data: 2 };
    m.insert(low);
    m.insert(high);
    assert_eq!(m.iter()[0], high);
    assert_eq!(m.iter()[1], low);
}

#[test]
fn full_structure_rejects_smaller() {
    let mut m: Maximals<u8> = Maximals::new(3);
    m.insert(9);
    m.insert(7);
    m.insert(8);
    let r = m.insert(5);
    assert!(r.is_none());
    itertools::assert_equal(m.iter().iter(), vec![9, 8, 7].iter());
    let r = m.insert(7);
    assert_eq!(r, Some(2));
    itertools::assert_equal(m.iter().iter(), vec![9, 8, 7].iter());
}

#[test]
fn zero_capacity_rejects_everything() {
    let mut m: Maximals<u8> = Maximals::new(0);
    assert!(m.insert(1).is_none());
    assert!(m.insert(0).is_none());
    assert!(m.iter().is_empty());
}

#[test]
fn insert_reports_position() {
    let mut m: Maximals<u8> = Maximals::new(3);
    assert_eq!(m.insert(5), Some(0));
    assert_eq!(m.insert(9), Some(0));
    assert_eq!(m.insert(7), Some(1));
    // A value above the retained minimum evicts it, even with the structure full.
    assert_eq!(m.insert(6), Some(2));
    itertools::assert_equal(m.iter().iter(), vec![9, 7, 6].iter());
    // A value below every retained one is rejected.
    assert_eq!(m.insert(5), None);
    itertools::assert_equal(m.iter().iter(), vec![9, 7, 6].iter());
}
