// The sample-rate converter pair at the worker's boundary: host rate in,
// model rate through a pass-through processing stage, host rate back out.
// A known sinusoid must survive the round trip within the resampling
// method's amplitude and phase tolerance. The converters work on numeric
// samples, so this scenario lives here rather than inside the library.

use deepfilter_vst::{Frame, WindowAccumulator};
use rubato::{FftFixedIn, FftFixedOut, Resampler};

const HOST_RATE: usize = 44100;
const MODEL_RATE: usize = 48000;
const HOP_SIZE: usize = 960;
const FREQ: f64 = 440.0;
const AMP: f64 = 0.5;

fn sine_sample(n: f64) -> f64 {
    AMP * (2.0 * std::f64::consts::PI * FREQ * n / (HOST_RATE as f64)).sin()
}

#[test]
fn sinusoid_survives_rate_round_trip() {
    let mut to_model =
        FftFixedOut::<f32>::new(HOST_RATE, MODEL_RATE, HOP_SIZE, 1, 2).expect("input converter");
    let mut to_host =
        FftFixedIn::<f32>::new(MODEL_RATE, HOST_RATE, HOP_SIZE, 1, 2).expect("output converter");

    // The accumulator enforces the exact input length each conversion step
    // demands, exactly as the worker loop does.
    let mut acc = WindowAccumulator::new(to_model.input_frames_next().max(1));

    let mut produced: Vec<f32> = Vec::new();
    let mut fed: usize = 0;
    let total_in = 2 * HOST_RATE;

    while fed < total_in {
        let x = sine_sample(fed as f64) as f32;
        let window = acc.push(Frame::new(x.to_bits(), x.to_bits()));
        fed += 1;
        let Some(window) = window else { continue };

        // One full conversion window: host rate -> model rate.
        let chunk: Vec<Vec<f32>> = vec![
            window.iter().map(|f| f32::from_bits(f.left)).collect(),
            window.iter().map(|f| f32::from_bits(f.right)).collect(),
        ];
        let mut hop = to_model.output_buffer_allocate(true);
        let (_, hop_len) = to_model
            .process_into_buffer(&chunk, &mut hop, None)
            .expect("input conversion");
        assert_eq!(hop_len, HOP_SIZE, "one window must yield exactly one hop");
        for ch in hop.iter_mut() {
            ch.truncate(hop_len);
        }

        // The inference stage is a pass-through here; convert straight back.
        assert_eq!(to_host.input_frames_next(), HOP_SIZE);
        let mut back = to_host.output_buffer_allocate(true);
        let (_, written) = to_host
            .process_into_buffer(&hop, &mut back, None)
            .expect("output conversion");
        produced.extend_from_slice(&back[0][..written]);

        // The next window must again be exactly what the converter asks for.
        acc.set_target(to_model.input_frames_next().max(1));
    }

    // Both converters report their group delay exactly; convert the first
    // stage's delay (in model-rate samples) into host-rate samples.
    let delay = (to_model.output_delay() as f64) * (HOST_RATE as f64) / (MODEL_RATE as f64)
        + (to_host.output_delay() as f64);

    // Skip the start-up transient, then demand close agreement.
    let skip = 8 * HOP_SIZE;
    let end = produced.len().min(HOST_RATE);
    assert!(end > skip + HOST_RATE / 10, "round trip produced too little output");
    let mut worst: f64 = 0.0;
    for n in skip..end {
        let expected = sine_sample(n as f64 - delay);
        let got = produced[n] as f64;
        worst = worst.max((got - expected).abs());
    }
    assert!(worst < 0.05, "round-trip error too large: {}", worst);
}
