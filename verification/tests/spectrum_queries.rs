use vis_core::analyzer::average_spectrum;
use vis_core::analyzer::Spectrum;

#[test]
fn slice_selects_buckets_by_frequency() {
    // Four buckets at frequencies 0, 10, 20, 30.
    let sp = Spectrum::new(vec![5, 3, 9, 1], 0, 30);
    assert_eq!(sp.slice(0, 30).len(), 4);
    assert_eq!(sp.slice(10, 20).len(), 2);
    assert_eq!(sp.slice(10, 20).max(), 9);
    assert_eq!(sp.slice(0, 9).max(), 5);
    assert_eq!(sp.slice(25, 30).max(), 1);
}

#[test]
fn slice_outside_bounds_is_empty_with_zero_max() {
    let sp = Spectrum::new(vec![5, 3, 9, 1], 0, 30);
    let v = sp.slice(40, 50);
    assert_eq!(v.len(), 0);
    assert_eq!(v.max(), 0);
    let below = sp.slice(0, 0);
    assert_eq!(below.max(), 5);
}

#[test]
fn slice_max_grows_as_range_widens() {
    let sp = Spectrum::new(vec![2, 8, 1, 6, 4], 100, 200);
    let mut prev = 0u64;
    for widen in 0..=50u64 {
        let m = sp.slice(150 - widen, 150 + widen).max();
        assert!(m >= prev);
        prev = m;
    }
    assert_eq!(prev, sp.slice(100, 200).max());
}

#[test]
fn average_of_identical_spectra_is_identity() {
    let a = Spectrum::new(vec![7, 0, 12, 3], 0, 100);
    let b = Spectrum::new(vec![7, 0, 12, 3], 0, 100);
    let mut dest = Spectrum::new(vec![0, 0, 0, 0], 0, 100);
    average_spectrum(&mut dest, &vec![a, b]);
    for (i, want) in [7u64, 0, 12, 3].iter().enumerate() {
        assert_eq!(dest.get(i), *want);
    }
}

#[test]
fn average_is_element_wise_mean() {
    let a = Spectrum::new(vec![2, 4], 0, 10);
    let b = Spectrum::new(vec![4, 8], 0, 10);
    let mut dest = Spectrum::new(vec![0, 0], 0, 10);
    average_spectrum(&mut dest, &vec![a, b]);
    assert_eq!(dest.get(0), 3);
    assert_eq!(dest.get(1), 6);
    assert_eq!(dest.len(), 2);
}
