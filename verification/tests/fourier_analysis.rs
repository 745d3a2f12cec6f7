use vis_core::analyzer::window;
use vis_core::analyzer::FourierBuilder;
use vis_core::analyzer::SampleBuffer;
use vis_core::analyzer::Spectrum;
use vis_core::analyzer::Window;

fn sine_chunk(len: usize, cycles: usize, amp: f64) -> Vec<i16> {
    (0..len)
        .map(|j| {
            let phase = 2.0 * std::f64::consts::PI * (cycles as f64) * (j as f64) / (len as f64);
            (phase.sin() * amp).round() as i16
        })
        .collect()
}

fn out_spectra(buckets: usize, channels: usize) -> Vec<Spectrum> {
    (0..channels).map(|_| Spectrum::new(vec![0; buckets], 0, 1000)).collect()
}

#[test]
fn plan_derives_buckets_and_defaults_to_rectangular() {
    let analyzer = FourierBuilder::new().length(512).plan();
    assert_eq!(analyzer.length, 512);
    assert_eq!(analyzer.buckets, 256);
    assert_eq!(analyzer.window, Window::Rectangular);
    let hann = FourierBuilder::new().length(64).window(Window::Hann).plan();
    assert_eq!(hann.window, Window::Hann);
    assert_eq!(hann.buckets, 32);
}

#[test]
fn aligned_sine_peaks_in_one_bucket() {
    // A pure sine at exactly bucket 8 of a 512-point rectangular transform:
    // one dominant peak there, near-zero magnitude everywhere else.
    let analyzer = FourierBuilder::new().length(512).window(Window::Rectangular).plan();
    let mut buf = SampleBuffer::new(512, 8000, 1);
    buf.push(&sine_chunk(512, 8, 16384.0));
    let mut out = out_spectra(analyzer.buckets, 1);
    analyzer.analyze(&buf, &mut out);
    let peak = out[0].get(8);
    // Amplitude 16384 gives a scaled magnitude near 8192.
    assert!(peak > 7500, "peak too small: {peak}");
    for k in 0..analyzer.buckets {
        if k != 8 {
            let v = out[0].get(k);
            assert!(v < peak / 20, "bucket {k} not near zero: {v} (peak {peak})");
        }
    }
}

#[test]
fn analyze_is_deterministic() {
    let mut buf = SampleBuffer::new(256, 8000, 1);
    buf.push(&sine_chunk(300, 5, 9000.0));
    let a1 = FourierBuilder::new().length(256).window(Window::Nuttall).plan();
    let a2 = FourierBuilder::new().length(256).window(Window::Nuttall).plan();
    let mut out1 = out_spectra(a1.buckets, 1);
    let mut out2 = out_spectra(a2.buckets, 1);
    a1.analyze(&buf, &mut out1);
    a2.analyze(&buf, &mut out2);
    for k in 0..a1.buckets {
        assert_eq!(out1[0].get(k), out2[0].get(k));
    }
    // And a second run of the same analyzer repeats the result bit for bit.
    let mut out3 = out_spectra(a1.buckets, 1);
    a1.analyze(&buf, &mut out3);
    for k in 0..a1.buckets {
        assert_eq!(out1[0].get(k), out3[0].get(k));
    }
}

#[test]
fn analyze_zero_pads_short_streams() {
    // Nothing pushed yet: the transform input is all zeros, so every bucket
    // is exactly zero.
    let analyzer = FourierBuilder::new().length(128).plan();
    let buf = SampleBuffer::new(1024, 8000, 1);
    let mut out = out_spectra(analyzer.buckets, 1);
    analyzer.analyze(&buf, &mut out);
    for k in 0..analyzer.buckets {
        assert_eq!(out[0].get(k), 0);
    }
}

#[test]
fn analyze_handles_two_channels_independently() {
    let analyzer = FourierBuilder::new().length(64).plan();
    let mut buf = SampleBuffer::new(64, 8000, 2);
    // Channel 0 carries a strong sine at bucket 4; channel 1 stays silent.
    let tone = sine_chunk(64, 4, 12000.0);
    let interleaved: Vec<i16> = tone.iter().flat_map(|s| [*s, 0]).collect();
    buf.push(&interleaved);
    let mut out = out_spectra(analyzer.buckets, 2);
    analyzer.analyze(&buf, &mut out);
    assert!(out[0].get(4) > 5000);
    for k in 0..analyzer.buckets {
        assert_eq!(out[1].get(k), 0);
    }
    // The spectra keep their frequency bounds.
    assert_eq!(out[0].min_freq, 0);
    assert_eq!(out[0].max_freq, 1000);
}

#[test]
fn window_weights_match_their_shapes() {
    // Rectangular: always full scale.
    assert_eq!(window::weight(Window::Rectangular, 0, 512), 32768);
    assert_eq!(window::weight(Window::Rectangular, 511, 512), 32768);
    // Hann: near zero at the edges, full scale in the middle.
    assert!(window::weight(Window::Hann, 0, 513) <= 4);
    let mid = window::weight(Window::Hann, 256, 513);
    assert!((32700..=32768).contains(&mid), "hann midpoint: {mid}");
    // Nuttall: near zero at the edges, near full scale in the middle.
    let edge = window::weight(Window::Nuttall, 0, 513);
    assert!(edge < 50, "nuttall edge: {edge}");
    let nmid = window::weight(Window::Nuttall, 256, 513);
    assert!(nmid > 32000, "nuttall midpoint: {nmid}");
}

#[test]
fn sine_table_hits_cardinal_points() {
    // Zero crossings are exact; the extrema carry the polynomial's small
    // truncation error.
    assert_eq!(window::sin_cycle(0, 512), 0);
    assert_eq!(window::sin_cycle(256, 512), 0);
    assert!((window::sin_cycle(128, 512) - 32768).abs() <= 8);
    assert!((window::sin_cycle(384, 512) + 32768).abs() <= 8);
    assert!((window::cos_cycle(0, 512) - 32768).abs() <= 8);
    assert!((window::cos_cycle(256, 512) + 32768).abs() <= 8);
}
