use buzz::pipeline::{
    construction_failed, events_url, Hotstart, HotstartAction, HotstartEvent, HotstartStage, Huddle,
    HuddlePhase, PostAction, PostConnect, PostConnectAction, PostConnectEvent, PostConnectOutcome,
    PostEvent, PostStage, Posting, SttAttempt, SttClaim, TranscriptAction, TranscriptionTask,
    VoiceInputMode,
};
use buzz::playback_speed::{
    i32_len, latency_samples, load_playback_speed, validate_speed, PlaybackSpeedControl,
    PlaybackSpeedProcessor, ProcessStep, ProcessorKind, StoredSpeed, StretchRequest,
};

const SPEED_ERROR: &str = "Speech playback speed must be between 0.75 and 1.5";

fn names(list: &[&str]) -> Vec<String> {
    list.iter().map(|name| name.to_string()).collect()
}

fn huddle() -> Huddle {
    Huddle {
        phase: HuddlePhase::Connected,
        ephemeral_channel_id: Some("channel".to_string()),
        huddle_generation: 4,
        session_generation: 7,
        transcription_enabled: true,
        tts_enabled: true,
        voice_input_mode: VoiceInputMode::PushToTalk,
        stt_pipeline: None,
        stt_starting: false,
        tts_pipeline: None,
        tts_starting: false,
        agent_pubkeys: names(&["agent"]),
        participants: names(&["me"]),
        last_agent_refresh: None,
    }
}

#[test]
fn speech_to_text_is_started_where_it_is_wanted() {
    let start = |huddle: &Huddle, model: Option<bool>, uuid: Result<u128, String>| {
        huddle.maybe_start_stt_pipeline("channel", model, uuid)
    };
    assert_eq!(
        start(&huddle(), Some(true), Ok(1)),
        SttAttempt::Claim {
            huddle_generation: 4
        }
    );
    assert_eq!(start(&huddle(), None, Ok(1)), SttAttempt::NotNow);
    assert_eq!(
        start(&huddle(), Some(false), Ok(1)),
        SttAttempt::Fail("STT model directory not found".to_string())
    );
    assert_eq!(
        start(&huddle(), Some(true), Err("bad uuid".to_string())),
        SttAttempt::Fail("bad uuid".to_string())
    );
    let mut other = huddle();
    other.transcription_enabled = false;
    assert_eq!(start(&other, Some(true), Ok(1)), SttAttempt::NotNow);
    let mut other = huddle();
    other.phase = HuddlePhase::Inactive;
    assert_eq!(start(&other, Some(true), Ok(1)), SttAttempt::NotNow);
    let mut other = huddle();
    other.ephemeral_channel_id = Some("elsewhere".to_string());
    assert_eq!(start(&other, Some(true), Ok(1)), SttAttempt::NotNow);
}

#[test]
fn speech_to_text_constructions_exclude_each_other() {
    let mut huddle = huddle();
    huddle.stt_pipeline = Some(70);
    assert_eq!(huddle.claim_stt(false), None);
    assert_eq!(
        huddle.claim_stt(true),
        Some(SttClaim {
            expected_generation: 8,
            replaced: Some(70),
            push_to_talk: true
        })
    );
    assert_eq!(huddle.stt_pipeline, None);
    assert_eq!(huddle.claim_stt(true), None);
    assert!(huddle.install_stt(true, 71));
    assert_eq!(huddle.stt_pipeline, Some(71));

    let claim = huddle.claim_stt(true).expect("the construction is over");
    assert_eq!(claim.expected_generation, 9);
    huddle.abandon_stt();
    assert!(!huddle.stt_starting);
    assert!(huddle.claim_stt(true).is_some());
    assert!(!huddle.install_stt(false, 72));
    assert_eq!(huddle.stt_pipeline, None);
    assert_eq!(construction_failed("panicked"), "spawn_blocking failed: panicked");
}

#[test]
fn text_to_speech_is_constructed_once() {
    let mut huddle = huddle();
    assert!(!huddle.maybe_start_tts_pipeline(false));
    assert!(huddle.maybe_start_tts_pipeline(true));
    assert!(!huddle.maybe_start_tts_pipeline(true));
    assert!(huddle.install_tts(5));
    assert_eq!(huddle.tts_pipeline, Some(5));
    assert!(!huddle.maybe_start_tts_pipeline(true));
    assert!(!huddle.install_tts(6));
    assert_eq!(huddle.tts_pipeline, Some(5));

    huddle.tts_pipeline = None;
    assert!(huddle.maybe_start_tts_pipeline(true));
    huddle.abandon_tts();
    assert!(huddle.maybe_start_tts_pipeline(true));
    huddle.phase = HuddlePhase::Inactive;
    assert!(!huddle.install_tts(6));
    huddle.tts_enabled = false;
    assert!(!huddle.maybe_start_tts_pipeline(true));
}

#[test]
fn a_hot_start_restarts_what_has_ended_speech_output_first() {
    let mut huddle = huddle();
    huddle.stt_pipeline = Some(1);
    huddle.tts_pipeline = Some(2);
    let mut hotstart = Hotstart::begin();
    let mut step = |huddle: &mut Huddle, event: HotstartEvent| {
        hotstart.check_pipeline_hotstart(huddle, event)
    };
    assert_eq!(
        step(
            &mut huddle,
            HotstartEvent::Inspected {
                stt_finished: true,
                tts_finished: true
            }
        ),
        HotstartAction::AskModels
    );
    assert_eq!((huddle.stt_pipeline, huddle.tts_pipeline), (None, None));
    assert_eq!(
        step(
            &mut huddle,
            HotstartEvent::Models {
                stt_ready: true,
                tts_ready: true
            }
        ),
        HotstartAction::StartTts
    );
    assert_eq!(
        step(&mut huddle, HotstartEvent::Attempted),
        HotstartAction::StartStt
    );
    assert_eq!(
        step(&mut huddle, HotstartEvent::Attempted),
        HotstartAction::AskTime
    );
    assert_eq!(
        step(&mut huddle, HotstartEvent::Time(5)),
        HotstartAction::FetchMembership
    );
    assert_eq!(
        step(
            &mut huddle,
            HotstartEvent::Membership {
                is_current: true,
                agents: Some(vec![]),
                members: None,
                now: 6
            }
        ),
        HotstartAction::AskTranscription
    );
    assert!(huddle.agent_pubkeys.is_empty());
    assert_eq!(huddle.participants, names(&["me"]));
    assert_eq!(huddle.last_agent_refresh, Some(6));
    assert_eq!(
        step(&mut huddle, HotstartEvent::TranscriptionSwitched(true)),
        HotstartAction::StartTranscription
    );
}

#[test]
fn membership_is_refreshed_every_fifteen_seconds() {
    for (now, action) in [
        (15_999, HotstartAction::Finish),
        (16_000, HotstartAction::FetchMembership),
    ] {
        let mut huddle = huddle();
        huddle.last_agent_refresh = Some(1_000);
        let mut hotstart = Hotstart::begin();
        hotstart.stage = HotstartStage::AskingTime;
        assert_eq!(
            hotstart.check_pipeline_hotstart(&mut huddle, HotstartEvent::Time(now)),
            action
        );
    }
}

#[test]
fn a_failed_or_late_refresh_changes_nothing() {
    for (is_current, agents) in [(true, None), (false, Some(names(&["new"])))] {
        let mut huddle = huddle();
        let mut hotstart = Hotstart::begin();
        hotstart.stage = HotstartStage::Fetching;
        let event = HotstartEvent::Membership {
            is_current,
            agents,
            members: None,
            now: 9,
        };
        assert_eq!(
            hotstart.check_pipeline_hotstart(&mut huddle, event),
            HotstartAction::Finish
        );
        assert_eq!(huddle.agent_pubkeys, names(&["agent"]));
        assert_eq!(huddle.last_agent_refresh, None);
    }
}

#[test]
fn nothing_is_started_for_a_huddle_that_is_not_connected() {
    let mut huddle = huddle();
    huddle.phase = HuddlePhase::Inactive;
    huddle.tts_pipeline = Some(1);
    let mut hotstart = Hotstart::begin();
    let event = HotstartEvent::Inspected {
        stt_finished: true,
        tts_finished: true,
    };
    assert_eq!(
        hotstart.check_pipeline_hotstart(&mut huddle, event),
        HotstartAction::Finish
    );
    assert_eq!(huddle.tts_pipeline, Some(1));
}

#[test]
fn a_setup_runs_from_membership_to_pipelines() {
    let mut huddle = huddle();
    let mut setup = PostConnect::begin();
    let course = vec![
        (PostConnectEvent::Checked(true), PostConnectAction::FetchMembership),
        (
            PostConnectEvent::Membership {
                is_current: true,
                agents: Some(names(&["a", "b"])),
                members: Some(vec![]),
            },
            PostConnectAction::AskTranscription,
        ),
        (
            PostConnectEvent::TranscriptionSwitched(true),
            PostConnectAction::PrepareModels {
                announce: true,
                stt: true,
            },
        ),
        (
            PostConnectEvent::Prepared { is_current: true },
            PostConnectAction::ConnectAudio,
        ),
        (
            PostConnectEvent::Audio {
                is_current: true,
                connection: Ok(3),
            },
            PostConnectAction::KeepAudio(3),
        ),
        (PostConnectEvent::Checked(true), PostConnectAction::StartTts),
        (PostConnectEvent::Attempted, PostConnectAction::StartStt),
        (
            PostConnectEvent::Attempted,
            PostConnectAction::Finish(PostConnectOutcome::Ready),
        ),
    ];
    for (event, action) in course {
        assert_eq!(setup.post_connect_setup(&mut huddle, event), action);
    }
    assert_eq!(huddle.agent_pubkeys, names(&["a", "b"]));
    assert_eq!(huddle.participants, names(&["me"]));
}

#[test]
fn a_setup_ends_when_the_huddle_is_another() {
    let stale = PostConnectAction::Finish(PostConnectOutcome::Stale);
    let mut huddle = huddle();
    let mut setup = PostConnect::begin();
    assert_eq!(
        setup.post_connect_setup(&mut huddle, PostConnectEvent::Checked(false)),
        stale
    );

    let mut setup = PostConnect::begin();
    setup.post_connect_setup(&mut huddle, PostConnectEvent::Checked(true));
    let late = PostConnectEvent::Membership {
        is_current: false,
        agents: Some(names(&["x"])),
        members: None,
    };
    assert_eq!(setup.post_connect_setup(&mut huddle, late), stale);
    assert_eq!(huddle.agent_pubkeys, names(&["agent"]));

    let audio = |huddle: &mut Huddle, is_current: bool, connection: Result<u64, String>| {
        let mut setup = PostConnect {
            stage: buzz::pipeline::PostConnectStage::ConnectingAudio,
        };
        setup.post_connect_setup(
            huddle,
            PostConnectEvent::Audio {
                is_current,
                connection,
            },
        )
    };
    assert_eq!(audio(&mut huddle, false, Ok(3)), PostConnectAction::DropAudio(3));
    assert_eq!(audio(&mut huddle, false, Err("e".to_string())), stale);
    assert_eq!(
        audio(&mut huddle, true, Err("e".to_string())),
        PostConnectAction::Fail("e".to_string())
    );
}

#[test]
fn stale_transcription_tasks_post_nothing() {
    let task = TranscriptionTask::spawn_transcription_task(7);
    let agents = names(&["agent"]);
    assert_eq!(
        task.on_transcript(Some("hello".to_string()), 7, &agents),
        TranscriptAction::Post {
            content: "hello".to_string(),
            mentions: names(&["agent"]),
        }
    );
    assert_eq!(
        task.on_transcript(Some(String::new()), 8, &agents),
        TranscriptAction::Skip
    );
    assert_eq!(
        task.on_transcript(Some("hello".to_string()), 8, &agents),
        TranscriptAction::End
    );
    assert_eq!(task.on_transcript(None, 7, &agents), TranscriptAction::End);
    assert_eq!(events_url("https://relay"), "https://relay/events");
}

#[test]
fn selects_bypass_only_at_unity() {
    assert_eq!(
        PlaybackSpeedProcessor::new(1.0_f32.to_bits())
            .expect("bypass")
            .kind,
        ProcessorKind::Bypass
    );
    assert_eq!(
        PlaybackSpeedProcessor::new(1.25_f32.to_bits())
            .expect("stretcher")
            .kind,
        ProcessorKind::Signalsmith
    );
}

#[test]
fn speed_patterns_stand_for_their_numbers() {
    let unity_epsilon = 0.000_1_f32;
    let around = |center: f32| (center.to_bits() - 2_000)..=(center.to_bits() + 2_000);
    for bits in around(0.75).chain(around(1.0)).chain(around(1.5)) {
        let speed = f32::from_bits(bits);
        let supported = speed.is_finite() && (0.75..=1.5).contains(&speed);
        assert_eq!(validate_speed(bits).is_ok(), supported);
        if supported {
            let unity = (speed - 1.0).abs() <= unity_epsilon;
            let kind = PlaybackSpeedProcessor::new(bits).expect("supported").kind;
            assert_eq!(kind == ProcessorKind::Bypass, unity);
        }
    }
    for speed in [
        0.0,
        -0.0,
        -1.0,
        0.5,
        2.0,
        f32::MIN_POSITIVE,
        f32::INFINITY,
        f32::NEG_INFINITY,
        f32::NAN,
        -f32::NAN,
    ] {
        assert_eq!(validate_speed(speed.to_bits()), Err(SPEED_ERROR.to_string()));
    }
}

#[test]
fn the_speed_is_one_until_it_is_set() {
    let mut control = PlaybackSpeedControl::default();
    assert_eq!(f32::from_bits(control.get()), 1.0);
    assert_eq!(control.set(1.25_f32.to_bits()), Ok(()));
    assert_eq!(f32::from_bits(control.get()), 1.25);
    assert_eq!(control.set(2.0_f32.to_bits()), Err(SPEED_ERROR.to_string()));
    assert_eq!(f32::from_bits(control.get()), 1.25);
    assert_eq!(
        control.set_tts_playback_speed(1.5_f32.to_bits(), Err("disk full".to_string())),
        Err("disk full".to_string())
    );
    assert_eq!(f32::from_bits(control.get()), 1.25);
    assert_eq!(control.set_tts_playback_speed(1.5_f32.to_bits(), Ok(())), Ok(()));
    assert_eq!(f32::from_bits(control.get()), 1.5);
}

#[test]
fn persisted_speed_round_trips_and_rejects_invalid_values() {
    let load = |stored: StoredSpeed| load_playback_speed(stored, "/s.json");
    assert_eq!(
        load(StoredSpeed::Speed(1.25_f32.to_bits())),
        Ok(1.25_f32.to_bits())
    );
    assert!(load(StoredSpeed::Speed(2.0_f32.to_bits())).is_err());
    assert_eq!(load(StoredSpeed::Missing), Ok(1.0_f32.to_bits()));
    assert_eq!(
        load(StoredSpeed::Unreadable("denied".to_string())),
        Err("read /s.json: denied".to_string())
    );
    assert_eq!(
        load(StoredSpeed::Malformed("bad".to_string())),
        Err("parse /s.json: bad".to_string())
    );
}

#[test]
fn chunk_lengths_follow_the_speed() {
    let speed = 1.25_f32;
    let mut processor = PlaybackSpeedProcessor::new(speed.to_bits()).expect("processor");
    let mut asked = 0;
    for _ in 0..3 {
        assert_eq!(processor.process(8_000), ProcessStep::Stretch);
        let target = (processor.input_samples as f64 / speed as f64).round() as usize;
        let request = processor.stretch(8_000, target).expect("request");
        assert_eq!(request.input_len, 8_000);
        asked += request.output_len;
    }
    assert_eq!(asked, 19_200);
    assert_eq!(processor.output_samples, 19_200);
    assert_eq!(
        processor.process_complete_chunk(20_000, 500, 19_200),
        Ok((500, 19_700))
    );
    assert_eq!(
        processor.process_complete_chunk(19_000, 500, 19_200),
        Err("time stretcher produced 19000 samples, need 19700".to_string())
    );
}

#[test]
fn a_bypassed_chunk_is_not_cut() {
    let processor = PlaybackSpeedProcessor::new(1.0_f32.to_bits()).expect("processor");
    assert_eq!(processor.process_complete_chunk(100, 500, 19_200), Ok((0, 100)));
    assert_eq!(processor.process_complete_chunk(0, 0, 0), Ok((0, 0)));
}

#[test]
fn cutting_changes_no_length() {
    let speed = 1.3_f32;
    let expected = (24_001_f64 / speed as f64).round() as usize;
    for pieces in [
        vec![24_001],
        vec![1, 0, 24_000],
        vec![7_999, 8_001, 0, 0, 8_001],
    ] {
        let mut processor = PlaybackSpeedProcessor::new(speed.to_bits()).expect("processor");
        let mut asked = 0;
        for piece in pieces {
            if processor.process(piece) == ProcessStep::Stretch {
                let target = (processor.input_samples as f64 / speed as f64).round() as usize;
                asked += processor.stretch(piece, target).expect("request").output_len as usize;
            }
        }
        assert_eq!(asked, expected);
        assert_eq!(processor.output_samples, expected);
    }
}

#[test]
fn cancellation_discards_subsequent_chunks_and_tail() {
    let mut processor = PlaybackSpeedProcessor::new(1.25_f32.to_bits()).expect("processor");
    assert_eq!(processor.process(4_800), ProcessStep::Stretch);
    assert!(processor.stretch(4_800, 3_840).expect("first chunk").output_len > 0);
    assert!(processor.drain());
    processor.cancel();
    assert_eq!(processor.process(4_800), ProcessStep::Nothing);
    assert!(!processor.drain());
}

#[test]
fn bypassed_speech_is_copied() {
    let mut processor = PlaybackSpeedProcessor::new(1.0_f32.to_bits()).expect("processor");
    assert_eq!(processor.process(0), ProcessStep::Nothing);
    assert_eq!(processor.process(100), ProcessStep::Copy);
    assert_eq!(processor.input_samples, 0);
    assert!(!processor.drain());
    assert_eq!(processor.output_latency(600), 0);
}

#[test]
fn lengths_fit_the_stretcher() {
    assert_eq!(i32_len(7), Ok(7));
    assert_eq!(
        i32_len(0x8000_0000),
        Err("audio chunk is too large to process".to_string())
    );
    assert_eq!(latency_samples(-1), 0);
    assert_eq!(latency_samples(720), 720);
    assert_eq!(
        PlaybackSpeedProcessor::drain_requests(-3, 40, 9),
        Ok((
            StretchRequest {
                input_len: 0,
                output_len: 9
            },
            40
        ))
    );
    let processor = PlaybackSpeedProcessor::new(1.5_f32.to_bits()).expect("processor");
    assert_eq!(processor.output_latency(720), 720);
    assert_eq!(processor.output_latency(-720), 0);
}

#[test]
fn posts_are_signed_after_the_wait() {
    let url = || "https://relay.test/events".to_string();
    let mut posting = Posting::begin("https://relay.test");
    assert_eq!(posting.url, url());
    assert_eq!(posting.go_on(PostEvent::Built(true)), PostAction::Wait);
    assert_eq!(posting.go_on(PostEvent::Waited), PostAction::Sign);
    assert_eq!(
        posting.go_on(PostEvent::Signed(Ok("{\"content\":\"h\u{e9}\"}".to_string()))),
        PostAction::Authorize {
            url: url(),
            body: "{\"content\":\"h\u{e9}\"}".as_bytes().to_vec(),
        }
    );
    assert_eq!(
        posting.go_on(PostEvent::Authorized(Ok("Nostr abc".to_string()))),
        PostAction::Send {
            url: url(),
            authorization: "Nostr abc".to_string(),
            body: "{\"content\":\"h\u{e9}\"}".as_bytes().to_vec(),
        }
    );
    assert_eq!(posting.go_on(PostEvent::Sent), PostAction::Next);
    assert_eq!(posting.stage, PostStage::Done);
}

#[test]
fn transcripts_that_cannot_be_posted_are_passed_over() {
    let mut posting = Posting::begin("");
    assert_eq!(posting.go_on(PostEvent::Built(false)), PostAction::Next);

    let mut posting = Posting::begin("");
    posting.go_on(PostEvent::Built(true));
    posting.go_on(PostEvent::Waited);
    assert_eq!(
        posting.go_on(PostEvent::Signed(Err("no key".to_string()))),
        PostAction::Next
    );

    let mut posting = Posting::begin("");
    posting.go_on(PostEvent::Built(true));
    posting.go_on(PostEvent::Waited);
    posting.go_on(PostEvent::Signed(Ok("{}".to_string())));
    assert_eq!(
        posting.go_on(PostEvent::Authorized(Err("no key".to_string()))),
        PostAction::Next
    );
    assert_eq!(posting.stage, PostStage::Done);
}
