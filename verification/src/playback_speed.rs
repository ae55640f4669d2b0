//! Pitch-preserving playback speed for generated speech.
//!
//! A speed is held as the bit pattern of an IEEE 754 single-precision number.
//! Positive numbers are ordered as their bit patterns are, so bounds on speeds
//! are bounds on patterns. The adapter owns the samples and the stretcher; this
//! module owns the setting and the bookkeeping of a stream.

use vstd::prelude::*;
use vstd::string::*;

use crate::text;

verus! {

/// Slowest supported generated-speech playback speed: 0.75.
pub const MIN_PLAYBACK_SPEED: u32 = 0x3f40_0000;

/// Fastest supported generated-speech playback speed: 1.5.
pub const MAX_PLAYBACK_SPEED: u32 = 0x3fc0_0000;

/// Default generated-speech playback speed: 1.
pub const DEFAULT_PLAYBACK_SPEED: u32 = 0x3f80_0000;

/// The slowest speed that is within 0.0001 of 1.
pub const MIN_UNITY_SPEED: u32 = 0x3f7f_f973;

/// The fastest speed that is within 0.0001 of 1.
pub const MAX_UNITY_SPEED: u32 = 0x3f80_0346;

/// File that the playback speed is stored in.
pub const SETTINGS_FILE: &'static str = "tts-playback-settings.json";

/// What is said of a speed that is not supported.
pub const SPEED_ERROR: &'static str = "Speech playback speed must be between 0.75 and 1.5";

/// Whether a speed is supported.
pub open spec fn is_supported(speed: u32) -> bool {
    MIN_PLAYBACK_SPEED <= speed <= MAX_PLAYBACK_SPEED
}

/// Whether a speed is close enough to 1 to leave speech as it is.
pub open spec fn is_unity(speed: u32) -> bool {
    MIN_UNITY_SPEED <= speed <= MAX_UNITY_SPEED
}

/// Speeds from 0.75 to 1.5, in their bit patterns, are supported, both included,
/// and no others; those within 0.0001 of 1 leave speech as it is.
pub proof fn supported_speeds_are_bounded(speed: u32)
    ensures
        is_supported(speed) <==> 0x3f40_0000 <= speed <= 0x3fc0_0000,
        is_unity(speed) <==> 0x3f7f_f973 <= speed <= 0x3f80_0346,
{
}

/// The speed of a control after an attempt to change it.
pub open spec fn speed_after(before: u32, speed: u32) -> u32 {
    if is_supported(speed) {
        speed
    } else {
        before
    }
}

/// A speed from 0.75 to 1.5 takes effect, and any other leaves the one before.
pub proof fn supported_speeds_take_effect(before: u32, speed: u32)
    ensures
        0x3f40_0000 <= speed <= 0x3fc0_0000 ==> speed_after(before, speed) == speed,
        !(0x3f40_0000 <= speed <= 0x3fc0_0000) ==> speed_after(before, speed) == before,
{
}

/// Validates a generated-speech playback speed.
pub fn validate_speed(speed: u32) -> (result: Result<(), String>)
    ensures
        match result {
            Ok(_) => is_supported(speed),
            Err(error) => !is_supported(speed) && error@ == SPEED_ERROR@,
        },
{
    if MIN_PLAYBACK_SPEED <= speed && speed <= MAX_PLAYBACK_SPEED {
        Ok(())
    } else {
        Err(SPEED_ERROR.to_owned())
    }
}

/// The current playback speed, read before each synthesis chunk.
#[derive(Debug)]
pub struct PlaybackSpeedControl {
    speed: u32,
}

impl PlaybackSpeedControl {
    /// The current playback speed.
    pub closed spec fn speed(&self) -> u32 {
        self.speed
    }

    #[verifier::type_invariant]
    spec fn supported(self) -> bool {
        is_supported(self.speed)
    }

    /// Returns the current generated-speech playback speed, which is a
    /// supported one.
    pub fn get(&self) -> (speed: u32)
        ensures
            speed == self.speed(),
            is_supported(speed),
    {
        proof {
            use_type_invariant(&*self);
        }
        self.speed
    }

    /// Updates the speed after validation. A speed that is not supported
    /// changes nothing.
    pub fn set(&mut self, speed: u32) -> (result: Result<(), String>)
        ensures
            final(self).speed() == speed_after(old(self).speed(), speed),
            match result {
                Ok(_) => is_supported(speed) && final(self).speed() == speed,
                Err(error) => !is_supported(speed) && error@ == SPEED_ERROR@ && final(self).speed()
                    == old(self).speed(),
            },
    {
        match validate_speed(speed) {
            Ok(_) => {
                self.speed = speed;
                Ok(())
            },
            Err(error) => Err(error),
        }
    }
}

impl PlaybackSpeedControl {
    /// Applies a speed that was to be stored first. One that is not supported,
    /// or that could not be stored, changes nothing.
    pub fn set_tts_playback_speed(&mut self, speed: u32, saved: Result<(), String>) -> (result: Result<
        (),
        String,
    >)
        ensures
            final(self).speed() == if saved is Ok {
                speed_after(old(self).speed(), speed)
            } else {
                old(self).speed()
            },
            if !is_supported(speed) {
                &&& result matches Err(error)
                &&& error@ == SPEED_ERROR@
                &&& final(self).speed() == old(self).speed()
            } else {
                match saved {
                    Ok(_) => result is Ok && final(self).speed() == speed,
                    Err(error) => result == Err::<(), String>(error) && final(self).speed()
                        == old(self).speed(),
                }
            },
    {
        match validate_speed(speed) {
            Ok(_) => {},
            Err(error) => {
                return Err(error);
            },
        }
        match saved {
            Ok(_) => self.set(speed),
            Err(error) => Err(error),
        }
    }
}

impl Default for PlaybackSpeedControl {
    /// Speech is played as fast as it was generated.
    fn default() -> (control: PlaybackSpeedControl)
        ensures
            control.speed() == DEFAULT_PLAYBACK_SPEED,
    {
        PlaybackSpeedControl { speed: DEFAULT_PLAYBACK_SPEED }
    }
}

/// What a stored playback speed turned out to be.
#[derive(Debug, Clone, PartialEq, Eq)]
pub enum StoredSpeed {
    /// There is none.
    Missing,
    /// It could not be read.
    Unreadable(String),
    /// It could not be parsed.
    Malformed(String),
    /// It was read.
    Speed(u32),
}

/// The playback speed to begin with, or why the stored one does not do.
pub open spec fn stored_speed(stored: StoredSpeed, path: Seq<char>) -> Result<u32, Seq<char>> {
    match stored {
        StoredSpeed::Missing => Ok(DEFAULT_PLAYBACK_SPEED),
        StoredSpeed::Unreadable(error) => Err("read "@ + path + ": "@ + error@),
        StoredSpeed::Malformed(error) => Err("parse "@ + path + ": "@ + error@),
        StoredSpeed::Speed(speed) => if is_supported(speed) {
            Ok(speed)
        } else {
            Err(SPEED_ERROR@)
        },
    }
}

/// A stored speed is begun with if it is supported, and speech as it was generated
/// if none is stored; a speed that cannot be read or parsed is told with its place,
/// and one that is not supported is refused.
pub proof fn stored_speeds_are_begun_with(speed: u32, error: String, path: Seq<char>)
    ensures
        stored_speed(StoredSpeed::Missing, path) == Ok::<u32, Seq<char>>(0x3f80_0000),
        0x3f40_0000 <= speed <= 0x3fc0_0000 ==> stored_speed(StoredSpeed::Speed(speed), path)
            == Ok::<u32, Seq<char>>(speed),
        !(0x3f40_0000 <= speed <= 0x3fc0_0000) ==> stored_speed(StoredSpeed::Speed(speed), path)
            == Err::<u32, Seq<char>>("Speech playback speed must be between 0.75 and 1.5"@),
        stored_speed(StoredSpeed::Unreadable(error), path) == Err::<u32, Seq<char>>(
            "read "@ + path + ": "@ + error@,
        ),
        stored_speed(StoredSpeed::Malformed(error), path) == Err::<u32, Seq<char>>(
            "parse "@ + path + ": "@ + error@,
        ),
{
}

/// The playback speed to begin with.
pub fn load_playback_speed(stored: StoredSpeed, path: &str) -> (speed: Result<u32, String>)
    ensures
        match speed {
            Ok(speed) => stored_speed(stored, path@) == Ok::<u32, Seq<char>>(speed),
            Err(error) => stored_speed(stored, path@) == Err::<u32, Seq<char>>(error@),
        },
        speed matches Ok(speed) ==> is_supported(speed),
{
    match stored {
        StoredSpeed::Missing => Ok(DEFAULT_PLAYBACK_SPEED),
        StoredSpeed::Unreadable(error) => {
            let mut message = text::join3("read ", path, ": ");
            message.append(error.as_str());
            Err(message)
        },
        StoredSpeed::Malformed(error) => {
            let mut message = text::join3("parse ", path, ": ");
            message.append(error.as_str());
            Err(message)
        },
        StoredSpeed::Speed(speed) => match validate_speed(speed) {
            Ok(_) => Ok(speed),
            Err(error) => Err(error),
        },
    }
}

/// How speech is processed.
#[derive(Clone, Copy, Debug, PartialEq, Eq)]
pub enum ProcessorKind {
    /// It is left as it is.
    Bypass,
    /// It is stretched.
    Signalsmith,
}

/// What to do with a piece of speech.
#[derive(Clone, Copy, Debug, PartialEq, Eq)]
pub enum ProcessStep {
    /// There is no output.
    Nothing,
    /// The output is the input.
    Copy,
    /// Stretch it, after finding how long all output should be by now.
    Stretch,
}

/// What to ask of the stretcher.
#[derive(Clone, Copy, Debug, PartialEq, Eq)]
pub struct StretchRequest {
    /// Samples that go in.
    pub input_len: i32,
    /// Samples that come out.
    pub output_len: i32,
}

/// What is said of a chunk that the stretcher cannot take.
pub const TOO_LARGE: &'static str = "audio chunk is too large to process";

/// The length of a chunk as the stretcher counts it.
pub fn i32_len(length: usize) -> (result: Result<i32, String>)
    ensures
        match result {
            Ok(len) => len == length,
            Err(error) => length > i32::MAX && error@ == TOO_LARGE@,
        },
{
    if length > 0x7fff_ffff {
        return Err(TOO_LARGE.to_owned());
    }
    Ok(length as i32)
}

/// A latency as the stretcher reports it, in samples.
pub fn latency_samples(reported: i32) -> (samples: usize)
    ensures
        samples == if reported < 0 {
            0
        } else {
            reported as int
        },
{
    if reported < 0 {
        0
    } else {
        reported as usize
    }
}

/// A reported latency in samples: none where it is negative.
pub open spec fn latency_of(reported: i32) -> nat {
    if reported < 0 {
        0
    } else {
        reported as nat
    }
}

/// Whether `requests` are what the stretcher is asked for its tail.
pub open spec fn drained_by(
    input_latency: i32,
    output_latency: i32,
    drain_output: usize,
    requests: Result<(StretchRequest, i32), String>,
) -> bool {
    if drain_output > i32::MAX {
        &&& requests matches Err(error)
        &&& error@ == TOO_LARGE@
    } else {
        &&& requests matches Ok((request, flush))
        &&& request.input_len == latency_of(input_latency)
        &&& request.output_len == drain_output
        &&& flush == latency_of(output_latency)
    }
}

/// A tail is drained whenever its length can be counted: the pre-roll of the input
/// goes in for all of the output that is asked for, and the pre-roll of the output
/// is flushed after it. A stretcher that reports less than none has none.
pub proof fn tails_are_drained_whole(
    input_latency: i32,
    output_latency: i32,
    drain_output: usize,
    requests: Result<(StretchRequest, i32), String>,
)
    requires
        drained_by(input_latency, output_latency, drain_output, requests),
    ensures
        requests is Ok <==> drain_output <= 0x7fff_ffff,
        requests matches Ok((request, flush)) ==> {
            &&& request.output_len == drain_output
            &&& input_latency >= 0 ==> request.input_len == input_latency
            &&& output_latency >= 0 ==> flush == output_latency
            &&& input_latency < 0 ==> request.input_len == 0
            &&& output_latency < 0 ==> flush == 0
        },
        requests matches Err(error) ==> error@ == "audio chunk is too large to process"@,
{
}

/// The sum of two lengths, as far as it can be counted.
pub open spec fn saturating_sum(a: usize, b: usize) -> usize {
    if a + b > usize::MAX {
        usize::MAX
    } else {
        (a + b) as usize
    }
}

/// The samples that are missing from `done` to `target`.
pub open spec fn missing_samples(target: usize, done: usize) -> usize {
    if target > done {
        (target - done) as usize
    } else {
        0
    }
}

/// What is missing makes up the target, and nothing is where it is reached; sums
/// are exact where they can be counted, and never less than their parts.
pub proof fn missing_samples_make_up_the_target(target: usize, done: usize)
    ensures
        target >= done ==> done + missing_samples(target, done) == target,
        target <= done ==> missing_samples(target, done) == 0,
        target + done <= usize::MAX ==> saturating_sum(target, done) == target + done,
        target + done > usize::MAX ==> saturating_sum(target, done) == usize::MAX,
{
}

/// The bookkeeping of a stream of speech at one speed.
#[derive(Clone, Copy, Debug, PartialEq, Eq)]
pub struct PlaybackSpeedProcessor {
    /// How the speech is processed.
    pub kind: ProcessorKind,
    /// The speed.
    pub speed: u32,
    /// Samples that went in.
    pub input_samples: usize,
    /// Samples that came out.
    pub output_samples: usize,
    /// Whether the stream was cancelled.
    pub cancelled: bool,
}

impl PlaybackSpeedProcessor {
    /// What is done with `input_len` samples.
    pub open spec fn step_for(self, input_len: usize) -> ProcessStep {
        if input_len == 0 || self.cancelled {
            ProcessStep::Nothing
        } else if self.kind is Bypass {
            ProcessStep::Copy
        } else {
            ProcessStep::Stretch
        }
    }

    /// The bookkeeping after `input_len` samples went in. What is stretched
    /// counts as input.
    pub open spec fn taken_in(self, input_len: usize) -> PlaybackSpeedProcessor {
        PlaybackSpeedProcessor {
            input_samples: if self.step_for(input_len) is Stretch {
                saturating_sum(self.input_samples, input_len)
            } else {
                self.input_samples
            },
            ..self
        }
    }

    /// Whether the stretcher can be asked for the output that is missing to
    /// `target`, for `input_len` samples.
    pub open spec fn can_stretch(self, input_len: usize, target: usize) -> bool {
        input_len <= i32::MAX && missing_samples(target, self.output_samples) <= i32::MAX
    }

    /// What goes in while the stream is not cancelled comes out: as it is, where
    /// speech is left as it is, and stretched otherwise, for which it is counted.
    /// Empty pieces and cancelled streams give nothing and count for nothing.
    pub proof fn what_goes_in_is_processed(self, input_len: usize)
        ensures
            self.step_for(input_len) is Nothing <==> input_len == 0 || self.cancelled,
            self.step_for(input_len) is Copy <==> input_len > 0 && !self.cancelled && self.kind
                is Bypass,
            self.step_for(input_len) is Stretch <==> input_len > 0 && !self.cancelled && self.kind
                is Signalsmith,
            self.taken_in(input_len).output_samples == self.output_samples,
            self.taken_in(input_len).kind == self.kind,
            self.taken_in(input_len).speed == self.speed,
            self.taken_in(input_len).cancelled == self.cancelled,
            input_len > 0 && !self.cancelled && self.kind is Signalsmith && self.input_samples
                + input_len <= usize::MAX ==> self.taken_in(input_len).input_samples
                == self.input_samples + input_len,
            self.step_for(input_len) !is Stretch ==> self.taken_in(input_len) == self,
    {
    }

    /// The bookkeeping of a stream at `speed`, for speeds that are supported.
    pub open spec fn begun(speed: u32) -> Option<PlaybackSpeedProcessor> {
        if is_supported(speed) {
            Some(
                PlaybackSpeedProcessor {
                    kind: if is_unity(speed) {
                        ProcessorKind::Bypass
                    } else {
                        ProcessorKind::Signalsmith
                    },
                    speed,
                    input_samples: 0,
                    output_samples: 0,
                    cancelled: false,
                },
            )
        } else {
            None
        }
    }

    /// A stream begins at every supported speed, with nothing in and nothing out,
    /// and is stretched unless its speed is within 0.0001 of 1.
    pub proof fn streams_begin_at_supported_speeds(speed: u32)
        ensures
            Self::begun(speed) is Some <==> 0x3f40_0000 <= speed <= 0x3fc0_0000,
            Self::begun(speed) matches Some(processor) ==> {
                &&& processor.speed == speed
                &&& processor.kind is Bypass <==> 0x3f7f_f973 <= speed <= 0x3f80_0346
                &&& processor.input_samples == 0 && processor.output_samples == 0
                &&& !processor.cancelled
            },
    {
    }

    /// Whether asking the stretcher turned `self` into `after` and gave `request`.
    pub open spec fn stretched(
        self,
        input_len: usize,
        target_output: usize,
        after: PlaybackSpeedProcessor,
        request: Result<StretchRequest, String>,
    ) -> bool {
        if self.can_stretch(input_len, target_output) {
            &&& request matches Ok(request)
            &&& request.input_len == input_len
            &&& request.output_len == missing_samples(target_output, self.output_samples)
            &&& after == (PlaybackSpeedProcessor { output_samples: target_output, ..self })
        } else {
            &&& request matches Err(error)
            &&& error@ == TOO_LARGE@
            &&& after == self
        }
    }

    /// The stretcher is asked for all of a piece and for as much output as makes up
    /// the target, whenever it can count both; what it is asked for counts as
    /// output. A piece that it cannot count changes nothing.
    pub proof fn stretching_makes_up_the_target(
        self,
        input_len: usize,
        target_output: usize,
        after: PlaybackSpeedProcessor,
        request: Result<StretchRequest, String>,
    )
        requires
            self.stretched(input_len, target_output, after, request),
            target_output >= self.output_samples,
        ensures
            request is Ok <==> input_len <= 0x7fff_ffff && target_output - self.output_samples
                <= 0x7fff_ffff,
            request matches Ok(request) ==> {
                &&& request.input_len == input_len
                &&& self.output_samples + request.output_len == target_output
                &&& after.output_samples == target_output
                &&& after.input_samples == self.input_samples
            },
            request matches Err(error) ==> error@ == "audio chunk is too large to process"@ && after
                == self,
    {
    }

    /// The samples of the output of a complete chunk that are the chunk, or why
    /// there are too few.
    pub open spec fn chunk_range(self, produced: usize, latency: usize, expected: usize) -> Result<
        (usize, usize),
        Seq<char>,
    > {
        let end = saturating_sum(latency, expected);
        if self.kind is Bypass {
            Ok((0, produced))
        } else if produced < end {
            Err(
                "time stretcher produced "@ + text::decimal(produced as nat) + " samples, need "@
                    + text::decimal(end as nat),
            )
        } else {
            Ok((latency, end))
        }
    }

    /// Speech that is left as it is is kept whole. Of what is stretched, the
    /// pre-roll is cut off and exactly as much is kept as is expected, whenever
    /// that much was produced.
    pub proof fn chunks_have_the_expected_length(
        self,
        produced: usize,
        latency: usize,
        expected: usize,
    )
        requires
            latency + expected <= usize::MAX,
        ensures
            self.kind is Bypass ==> self.chunk_range(produced, latency, expected) == Ok::<
                (usize, usize),
                Seq<char>,
            >((0, produced)),
            self.kind is Signalsmith ==> {
                let range = self.chunk_range(produced, latency, expected);
                &&& range is Ok <==> latency + expected <= produced
                &&& range matches Ok((from, to)) ==> from == latency && to - from == expected && to
                    <= produced
                &&& range matches Err(error) ==> error == "time stretcher produced "@
                    + text::decimal(produced as nat) + " samples, need "@ + text::decimal(
                    (latency + expected) as nat,
                )
            },
    {
    }

    /// Selects bypass at a speed of 1 or stretching at another.
    pub fn new(speed: u32) -> (processor: Result<PlaybackSpeedProcessor, String>)
        ensures
            match processor {
                Ok(processor) => Self::begun(speed) == Some(processor),
                Err(_) => Self::begun(speed) is None,
            },
            match processor {
                Ok(processor) => is_supported(speed) && processor == (PlaybackSpeedProcessor {
                    kind: if is_unity(speed) {
                        ProcessorKind::Bypass
                    } else {
                        ProcessorKind::Signalsmith
                    },
                    speed,
                    input_samples: 0,
                    output_samples: 0,
                    cancelled: false,
                }),
                Err(error) => !is_supported(speed) && error@ == SPEED_ERROR@,
            },
    {
        match validate_speed(speed) {
            Ok(_) => {},
            Err(error) => {
                return Err(error);
            },
        }
        let kind = if MIN_UNITY_SPEED <= speed && speed <= MAX_UNITY_SPEED {
            ProcessorKind::Bypass
        } else {
            ProcessorKind::Signalsmith
        };
        Ok(
            PlaybackSpeedProcessor {
                kind,
                speed,
                input_samples: 0,
                output_samples: 0,
                cancelled: false,
            },
        )
    }

    /// One-time output-side algorithmic latency in samples, where the stretcher
    /// reports `reported`.
    pub fn output_latency(&self, reported: i32) -> (samples: usize)
        ensures
            samples == if self.kind is Bypass || reported < 0 {
                0
            } else {
                reported as int
            },
    {
        match self.kind {
            ProcessorKind::Bypass => 0,
            ProcessorKind::Signalsmith => latency_samples(reported),
        }
    }

    /// Takes in `input_len` samples, and tells what to do with them. What is
    /// stretched counts as input.
    pub fn process(&mut self, input_len: usize) -> (step: ProcessStep)
        ensures
            step == old(self).step_for(input_len),
            *final(self) == old(self).taken_in(input_len),
    {
        if input_len == 0 || self.cancelled {
            return ProcessStep::Nothing;
        }
        match self.kind {
            ProcessorKind::Bypass => ProcessStep::Copy,
            ProcessorKind::Signalsmith => {
                self.input_samples = self.input_samples.saturating_add(input_len);
                ProcessStep::Stretch
            },
        }
    }

    /// What to ask of the stretcher for `input_len` samples, when all output
    /// should be `target_output` samples long by now.
    ///
    /// Output that is asked for counts as output.
    pub fn stretch(&mut self, input_len: usize, target_output: usize) -> (request: Result<
        StretchRequest,
        String,
    >)
        ensures
            old(self).stretched(input_len, target_output, *final(self), request),
            match request {
                Ok(request) => {
                    &&& old(self).can_stretch(input_len, target_output)
                    &&& request.input_len == input_len
                    &&& request.output_len == missing_samples(
                        target_output,
                        old(self).output_samples,
                    )
                    &&& *final(self) == (PlaybackSpeedProcessor {
                        output_samples: target_output,
                        ..*old(self)
                    })
                },
                Err(error) => {
                    &&& error@ == TOO_LARGE@
                    &&& *final(self) == *old(self)
                    &&& !old(self).can_stretch(input_len, target_output)
                },
            },
    {
        let missing: usize = if target_output > self.output_samples {
            target_output - self.output_samples
        } else {
            0
        };
        let input_len = match i32_len(input_len) {
            Ok(len) => len,
            Err(error) => {
                return Err(error);
            },
        };
        let output_len = match i32_len(missing) {
            Ok(len) => len,
            Err(error) => {
                return Err(error);
            },
        };
        self.output_samples = target_output;
        Ok(StretchRequest { input_len, output_len })
    }

    /// Which samples of the output of a complete chunk are the chunk: all of
    /// them where speech is left as it is, and otherwise those after the
    /// stretcher's pre-roll, as many as are expected.
    pub fn process_complete_chunk(&self, produced: usize, latency: usize, expected: usize) -> (range:
        Result<(usize, usize), String>)
        ensures
            match range {
                Ok(range) => self.chunk_range(produced, latency, expected) == Ok::<
                    (usize, usize),
                    Seq<char>,
                >(range),
                Err(error) => self.chunk_range(produced, latency, expected) == Err::<
                    (usize, usize),
                    Seq<char>,
                >(error@),
            },
            self.kind is Bypass ==> range == Ok::<(usize, usize), String>((0, produced)),
            self.kind is Signalsmith ==> match range {
                Ok(range) => {
                    &&& range == (latency, saturating_sum(latency, expected))
                    &&& range.0 <= range.1 <= produced
                    &&& latency + expected <= usize::MAX ==> range.1 - range.0 == expected
                },
                Err(error) => {
                    &&& produced < saturating_sum(latency, expected)
                    &&& error@ == "time stretcher produced "@ + text::decimal(produced as nat)
                        + " samples, need "@ + text::decimal(
                        saturating_sum(latency, expected) as nat,
                    )
                },
            },
    {
        match self.kind {
            ProcessorKind::Bypass => {
                return Ok((0, produced));
            },
            ProcessorKind::Signalsmith => {},
        }
        let end: usize = latency.saturating_add(expected);
        if produced < end {
            let mut message = text::join3(
                "time stretcher produced ",
                text::decimal_text(produced as u64).as_str(),
                " samples, need ",
            );
            message.append(text::decimal_text(end as u64).as_str());
            return Err(message);
        }
        Ok((latency, end))
    }

    /// Discards all pending processor output after barge-in.
    pub fn cancel(&mut self)
        ensures
            *final(self) == (PlaybackSpeedProcessor { cancelled: true, ..*old(self) }),
    {
        self.cancelled = true;
    }

    /// Whether there is a tail to drain from the stretcher.
    pub fn drain(&self) -> (tail: bool)
        ensures
            tail == (!self.cancelled && self.kind is Signalsmith),
    {
        match self.kind {
            ProcessorKind::Bypass => false,
            ProcessorKind::Signalsmith => !self.cancelled,
        }
    }

    /// What to ask of the stretcher for its tail, which takes `drain_output`
    /// samples for the pre-roll of the input, and the pre-roll of the output
    /// after that.
    pub fn drain_requests(input_latency: i32, output_latency: i32, drain_output: usize) -> (requests:
        Result<(StretchRequest, i32), String>)
        ensures
            drained_by(input_latency, output_latency, drain_output, requests),
            match requests {
                Ok((request, flush)) => {
                    &&& request.input_len == if input_latency < 0 {
                        0int
                    } else {
                        input_latency as int
                    }
                    &&& request.output_len == drain_output
                    &&& flush == if output_latency < 0 {
                        0int
                    } else {
                        output_latency as int
                    }
                },
                Err(error) => drain_output > i32::MAX && error@ == TOO_LARGE@,
            },
    {
        let input_len = match i32_len(latency_samples(input_latency)) {
            Ok(len) => len,
            Err(error) => {
                return Err(error);
            },
        };
        let output_len = match i32_len(drain_output) {
            Ok(len) => len,
            Err(error) => {
                return Err(error);
            },
        };
        match i32_len(latency_samples(output_latency)) {
            Ok(flush) => Ok((StretchRequest { input_len, output_len }, flush)),
            Err(error) => Err(error),
        }
    }
}

/// Speeds that are close enough to 1 are supported, and the default is one of
/// them.
pub proof fn unity_speeds_are_supported(speed: u32)
    ensures
        is_unity(speed) ==> is_supported(speed),
        is_unity(DEFAULT_PLAYBACK_SPEED),
        !is_unity(MIN_PLAYBACK_SPEED) && !is_unity(MAX_PLAYBACK_SPEED),
{
}

/// The length of a list of pieces.
pub open spec fn total_len(pieces: Seq<usize>) -> nat
    decreases pieces.len(),
{
    if pieces.len() == 0 {
        0
    } else {
        total_len(pieces.drop_last()) + pieces.last() as nat
    }
}

/// The bookkeeping after a stream of pieces, and how many samples came out,
/// where `target` tells how long all output should be for an input length.
pub open spec fn streamed(
    start: PlaybackSpeedProcessor,
    pieces: Seq<usize>,
    target: spec_fn(usize) -> usize,
) -> (PlaybackSpeedProcessor, nat)
    decreases pieces.len(),
{
    if pieces.len() == 0 {
        (start, 0)
    } else {
        let (before, produced) = streamed(start, pieces.drop_last(), target);
        let taken = before.taken_in(pieces.last());
        let goal = target(taken.input_samples);
        match before.step_for(pieces.last()) {
            ProcessStep::Nothing => (taken, produced),
            ProcessStep::Copy => (taken, produced + pieces.last() as nat),
            ProcessStep::Stretch => if taken.can_stretch(pieces.last(), goal) {
                (
                    PlaybackSpeedProcessor { output_samples: goal, ..taken },
                    produced + missing_samples(goal, taken.output_samples) as nat,
                )
            } else {
                (taken, produced)
            },
        }
    }
}

/// Whether the stretcher can take every piece of a stream.
pub open spec fn can_stream(
    start: PlaybackSpeedProcessor,
    pieces: Seq<usize>,
    target: spec_fn(usize) -> usize,
) -> bool
    decreases pieces.len(),
{
    pieces.len() == 0 || {
        let before = streamed(start, pieces.drop_last(), target).0;
        let taken = before.taken_in(pieces.last());
        &&& can_stream(start, pieces.drop_last(), target)
        &&& before.step_for(pieces.last()) is Stretch ==> taken.can_stretch(
            pieces.last(),
            target(taken.input_samples),
        )
    }
}

/// However speech is cut into pieces that the stretcher can take, empty ones
/// among them, what comes out is as long as it should be for the whole, for any
/// target that rises with the input.
pub proof fn cutting_changes_no_length(
    start: PlaybackSpeedProcessor,
    pieces: Seq<usize>,
    target: spec_fn(usize) -> usize,
)
    requires
        start.kind is Signalsmith,
        !start.cancelled,
        start.input_samples == 0,
        start.output_samples == 0,
        target(0) == 0,
        forall|a: usize, b: usize| a <= b ==> #[trigger] target(a) <= #[trigger] target(b),
        total_len(pieces) <= usize::MAX,
        can_stream(start, pieces, target),
    ensures
        streamed(start, pieces, target) == (
            PlaybackSpeedProcessor {
                input_samples: total_len(pieces) as usize,
                output_samples: target(total_len(pieces) as usize),
                ..start
            },
            target(total_len(pieces) as usize) as nat,
        ),
    decreases pieces.len(),
{
    if pieces.len() > 0 {
        let earlier = pieces.drop_last();
        assert(total_len(earlier) <= total_len(pieces));
        cutting_changes_no_length(start, earlier, target);
        assert(target(total_len(earlier) as usize) <= target(total_len(pieces) as usize));
    }
}

/// A stream that is not stretched comes out as it goes in, and one that was
/// cancelled gives nothing more.
pub proof fn bypass_and_cancel_keep_the_stream(
    start: PlaybackSpeedProcessor,
    pieces: Seq<usize>,
    target: spec_fn(usize) -> usize,
)
    ensures
        start.cancelled ==> streamed(start, pieces, target) == (start, 0nat),
        !start.cancelled && start.kind is Bypass ==> streamed(start, pieces, target) == (
            start,
            total_len(pieces),
        ),
    decreases pieces.len(),
{
    if pieces.len() > 0 {
        bypass_and_cancel_keep_the_stream(start, pieces.drop_last(), target);
    }
}

}
