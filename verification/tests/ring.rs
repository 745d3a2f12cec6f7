use vis_core::analyzer::SampleBuffer;

fn filled(total: usize) -> Vec<i16> {
    (0..total).map(|j| (j % 20000) as i16).collect()
}

#[test]
fn ring_keeps_last_samples_under_wraparound() {
    let mut buf = SampleBuffer::new(8, 1000, 1);
    buf.push(&[1, 2, 3, 4, 5]);
    buf.push(&[6, 7, 8, 9, 10, 11]);
    assert_eq!(buf.read(0, 8), vec![4, 5, 6, 7, 8, 9, 10, 11]);
    assert_eq!(buf.read(0, 3), vec![9, 10, 11]);
}

#[test]
fn read_clamps_to_capacity_and_written() {
    let mut buf = SampleBuffer::new(4, 1000, 1);
    buf.push(&[1, 2]);
    // Only two samples ever written: a larger request returns just those.
    assert_eq!(buf.read(0, 100), vec![1, 2]);
    assert_eq!(buf.read(0, 0), Vec::<i16>::new());
}

#[test]
fn capacity_16000_returns_only_what_was_written() {
    // Capacity 16000 at rate 8000, fed 14000 samples in two pushes: a full
    // read returns exactly those 14000 (not 16000), oldest to newest --
    // never garbage for never-written slots.
    let mut buf = SampleBuffer::new(16000, 8000, 1);
    let all = filled(14000);
    buf.push(&all[0..4000]);
    buf.push(&all[4000..14000]);
    let got = buf.read(0, 16000);
    assert_eq!(got.len(), 14000);
    assert_eq!(&got[..], &all[..]);
}

#[test]
fn capacity_16000_three_pushes_then_large_push() {
    // Capacity 16000 at rate 8000; three pushes of 4000 and one of 10000
    // push 22000 samples in all, so the ring keeps exactly the most recent
    // 16000, oldest to newest.
    let mut buf = SampleBuffer::new(16000, 8000, 1);
    let all = filled(22000);
    buf.push(&all[0..4000]);
    buf.push(&all[4000..8000]);
    buf.push(&all[8000..12000]);
    buf.push(&all[12000..22000]);
    let got = buf.read(0, 16000);
    assert_eq!(got.len(), 16000);
    assert_eq!(&got[..], &all[6000..22000]);
}

#[test]
fn two_channels_deinterleave() {
    let mut buf = SampleBuffer::new(4, 1000, 2);
    buf.push(&[1, -1, 2, -2, 3, -3]);
    assert_eq!(buf.read(0, 4), vec![1, 2, 3]);
    assert_eq!(buf.read(1, 4), vec![-1, -2, -3]);
}

#[test]
fn volume_is_peak_over_window() {
    let mut buf = SampleBuffer::new(8, 1000, 1);
    buf.push(&[100, -200, 50]);
    // 3000 ms at 1000 samples/s covers everything pushed.
    assert_eq!(buf.volume(3000), 200);
    // 1 ms at 1000 samples/s covers only the last sample.
    assert_eq!(buf.volume(1), 50);
    // An empty window has zero volume.
    assert_eq!(buf.volume(0), 0);
}

#[test]
fn volume_covers_all_channels() {
    let mut buf = SampleBuffer::new(8, 1000, 2);
    buf.push(&[10, -300, 20, 5]);
    assert_eq!(buf.volume(10000), 300);
}
