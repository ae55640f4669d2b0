//! Runs the bookkeeping of a stream against the stretcher itself.

use buzz::playback_speed::{latency_samples, PlaybackSpeedProcessor, ProcessStep};

const SAMPLE_RATE: u32 = 24_000;

struct Stretcher {
    speed: f32,
    processor: PlaybackSpeedProcessor,
    stretch: ssstretch::Stretch,
}

impl Stretcher {
    fn new(speed: f32) -> Stretcher {
        let mut stretch = ssstretch::Stretch::new();
        stretch.preset_default(1, SAMPLE_RATE as f32);
        Stretcher {
            speed,
            processor: PlaybackSpeedProcessor::new(speed.to_bits()).expect("processor"),
            stretch,
        }
    }

    fn process(&mut self, input: &[f32]) -> Vec<f32> {
        assert_eq!(self.processor.process(input.len()), ProcessStep::Stretch);
        let target = (self.processor.input_samples as f64 / self.speed as f64).round() as usize;
        let request = self.processor.stretch(input.len(), target).expect("request");
        let mut outputs = [Vec::with_capacity(request.output_len as usize)];
        let inputs = [input.to_vec()];
        self.stretch.process_vec(&inputs, request.input_len, &mut outputs, request.output_len);
        std::mem::take(&mut outputs[0])
    }

    fn drain(&mut self) -> Vec<f32> {
        assert!(self.processor.drain());
        let input_latency = self.stretch.input_latency();
        let drain_output =
            (latency_samples(input_latency) as f64 / self.speed as f64).ceil() as usize;
        let (request, flush) = PlaybackSpeedProcessor::drain_requests(
            input_latency,
            self.stretch.output_latency(),
            drain_output,
        )
        .expect("requests");
        let inputs = [vec![0.0; request.input_len as usize]];
        let mut processed = [Vec::with_capacity(drain_output)];
        self.stretch.process_vec(&inputs, request.input_len, &mut processed, request.output_len);
        let mut flushed = [Vec::with_capacity(flush as usize)];
        self.stretch.flush_vec(&mut flushed, flush);
        processed[0].extend_from_slice(&flushed[0]);
        std::mem::take(&mut processed[0])
    }

    fn process_complete_chunk(&mut self, input: &[f32]) -> Vec<f32> {
        let expected = (input.len() as f64 / self.speed as f64).round() as usize;
        let latency = self.processor.output_latency(self.stretch.output_latency());
        let mut output = self.process(input);
        output.extend(self.drain());
        let (from, to) =
            self.processor.process_complete_chunk(output.len(), latency, expected)
                .expect("complete output");
        output[from..to].to_vec()
    }
}

fn zero_crossing_frequency(samples: &[f32], sample_rate: u32) -> f32 {
    let crossings = samples
        .windows(2)
        .filter(|pair| pair[0] <= 0.0 && pair[1] > 0.0)
        .count();
    crossings as f32 * sample_rate as f32 / samples.len() as f32
}

#[test]
fn chunked_processing_preserves_length_pitch_and_order() {
    let input: Vec<f32> = (0..24_000)
        .map(|sample| {
            let frequency = if sample < 12_000 { 220.0 } else { 440.0 };
            (2.0 * std::f32::consts::PI * frequency * sample as f32 / SAMPLE_RATE as f32).sin()
        })
        .collect();
    let output = Stretcher::new(1.25).process_complete_chunk(&input);

    assert_eq!(output.len(), 19_200);
    let first_frequency = zero_crossing_frequency(&output[2_000..7_000], SAMPLE_RATE);
    let second_frequency = zero_crossing_frequency(&output[12_000..17_000], SAMPLE_RATE);
    assert!(
        (first_frequency - 220.0).abs() < 8.0,
        "first segment measured {first_frequency} Hz"
    );
    assert!(
        (second_frequency - 440.0).abs() <= 10.0,
        "second segment measured {second_frequency} Hz"
    );
}

#[test]
fn processor_preserves_sine_pitch() {
    let frequency = 220.0_f32;
    let input: Vec<f32> = (0..SAMPLE_RATE * 2)
        .map(|sample| {
            (2.0 * std::f32::consts::PI * frequency * sample as f32 / SAMPLE_RATE as f32).sin()
        })
        .collect();
    let output = Stretcher::new(1.5).process_complete_chunk(&input);
    let measured = zero_crossing_frequency(&output[2_000..], SAMPLE_RATE);
    assert!(
        (measured - frequency).abs() < 3.0,
        "expected {frequency} Hz, measured {measured} Hz"
    );
}

#[test]
fn non_unity_latency_stays_below_75_ms() {
    let stretcher = Stretcher::new(1.25);
    let latency = stretcher
        .processor
        .output_latency(stretcher.stretch.output_latency());
    let latency_ms = latency as f64 * 1_000.0 / SAMPLE_RATE as f64;
    assert!(latency_ms <= 75.0, "algorithmic latency was {latency_ms}ms");
}
