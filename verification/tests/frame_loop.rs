use vis_core::analyzer::SampleBuffer;
use vis_core::recorder::CPalBuilder;
use vis_core::recorder::PulseBuilder;
use vis_core::AnalysisStep;
use vis_core::Visualizer;

struct CountSteps;

impl AnalysisStep<u64> for CountSteps {
    // Ghost item of the trait; outside verified code only the signature
    // matters and the body never runs.
    fn step_post(_: Self, _: u64, _: Self, _: u64, _: SampleBuffer) -> bool {
        true
    }

    fn step(&mut self, info: &mut u64, _samples: &SampleBuffer) {
        *info += 1;
    }
}

struct TrackVolume;

impl AnalysisStep<u32> for TrackVolume {
    fn step_post(_: Self, _: u32, _: Self, _: u32, _: SampleBuffer) -> bool {
        true
    }

    fn step(&mut self, info: &mut u32, samples: &SampleBuffer) {
        *info = samples.volume(10000);
    }
}

#[test]
fn builder_resolves_defaults() {
    let rec = CPalBuilder::new().create();
    assert_eq!(rec.rate, 8000);
    assert_eq!(rec.read_size, 256);
    assert_eq!(rec.buffer.capacity, 16000);
    assert_eq!(rec.buffer.channels, 2);
}

#[test]
fn builder_overrides_stick() {
    let rec = CPalBuilder::new()
        .rate(44100)
        .read_size(64)
        .buffer_size(16000)
        .channels(1)
        .create();
    assert_eq!(rec.rate, 44100);
    assert_eq!(rec.read_size, 64);
    assert_eq!(rec.buffer.capacity, 16000);
    assert_eq!(rec.buffer.channels, 1);
}

#[test]
fn pulse_builder_mirrors_the_host_backend() {
    let rec = PulseBuilder::new().rate(8000).read_size(64).buffer_size(16000).create();
    assert_eq!(rec.rate, 8000);
    assert_eq!(rec.read_size, 64);
    assert_eq!(rec.buffer.capacity, 16000);
    let recorder = PulseBuilder::new().channels(1).rate(1000).buffer_size(8).build();
    let mut frames = Visualizer::new(0u32, TrackVolume).recorder(recorder).frames();
    frames.push_samples(&[7, -9]);
    frames.poll();
    assert_eq!(frames.lock_info(|v| *v), 9);
}

#[test]
fn ten_polls_expose_info_ten() {
    // A step that increments the info by one each cycle: after ten polls the
    // published frame must read exactly 10, under the scoped accessor.
    let recorder = CPalBuilder::new().rate(8000).read_size(64).buffer_size(16000).build();
    let mut frames = Visualizer::new(0u64, CountSteps).recorder(recorder).frames();
    for _ in 0..10 {
        frames.poll();
    }
    assert_eq!(frames.lock_info(|info| *info), 10);
    let frame = frames.frame();
    assert_eq!(frame.stamp, 10);
    assert_eq!(frame.lock_info(|info| *info), 10);
    // The next poll supersedes the frame with the 11th value, never a torn one.
    frames.poll();
    assert_eq!(frames.lock_info(|info| *info), 11);
    assert_eq!(frames.frame().stamp, 11);
}

#[test]
fn loop_reads_samples_fed_into_the_recorder() {
    let recorder = CPalBuilder::new().rate(1000).channels(1).buffer_size(64).build();
    let mut frames = Visualizer::new(0u32, TrackVolume).recorder(recorder).frames();
    frames.poll();
    assert_eq!(frames.lock_info(|v| *v), 0);
    frames.push_samples(&[120, -500, 80]);
    frames.poll();
    assert_eq!(frames.lock_info(|v| *v), 500);
}
