//! Lifecycle of the speech pipelines of a huddle.
//!
//! A huddle has at most one speech-to-text and one text-to-speech pipeline.
//! Constructing one is expensive and happens outside the huddle's lock: a
//! construction is claimed first, and the pipeline is installed afterwards if
//! the huddle still wants it. The adapter owns the lock, the models, the relay
//! and the pipelines themselves, which are known here by a number.

use vstd::prelude::*;
use vstd::string::*;
use vstd::utf8::*;

use crate::text;

verus! {

/// Milliseconds between two refreshes of a huddle's membership.
pub const AGENT_REFRESH_MILLIS: u64 = 15_000;

/// How far a huddle has come.
#[derive(Debug, Clone, Copy, PartialEq, Eq)]
pub enum HuddlePhase {
    /// Connected.
    Connected,
    /// In conversation.
    Active,
    /// Not connected, or not any more.
    Inactive,
}

/// How the user's voice is taken in.
#[derive(Debug, Clone, Copy, PartialEq, Eq)]
pub enum VoiceInputMode {
    /// While a key is held.
    PushToTalk,
    /// All the time.
    Open,
}

/// What the pipelines share of a huddle.
#[derive(Debug)]
pub struct Huddle {
    /// How far the huddle has come.
    pub phase: HuddlePhase,
    /// The huddle's own channel.
    pub ephemeral_channel_id: Option<String>,
    /// Number of this huddle.
    pub huddle_generation: u64,
    /// Number of the current transcription task.
    pub session_generation: u64,
    /// Whether speech is transcribed.
    pub transcription_enabled: bool,
    /// Whether agents are spoken.
    pub tts_enabled: bool,
    /// How the user's voice is taken in.
    pub voice_input_mode: VoiceInputMode,
    /// The speech-to-text pipeline.
    pub stt_pipeline: Option<u64>,
    /// Whether one is being constructed.
    pub stt_starting: bool,
    /// The text-to-speech pipeline.
    pub tts_pipeline: Option<u64>,
    /// Whether one is being constructed.
    pub tts_starting: bool,
    /// Agents, whose keys transcripts mention.
    pub agent_pubkeys: Vec<String>,
    /// All participants.
    pub participants: Vec<String>,
    /// When the membership was last refreshed, in milliseconds.
    pub last_agent_refresh: Option<u64>,
}

/// The speech-to-text part of a [`Huddle`].
pub struct SttView {
    pub pipeline: Option<u64>,
    pub starting: bool,
    pub session_generation: u64,
}

/// The text-to-speech part of a [`Huddle`].
pub struct TtsView {
    pub pipeline: Option<u64>,
    pub starting: bool,
}

/// The membership of a [`Huddle`].
pub struct MembershipView {
    pub agents: Seq<String>,
    pub participants: Seq<String>,
    pub refreshed: Option<u64>,
}

/// What no pipeline operation changes of a [`Huddle`].
pub struct SettingsView {
    pub phase: HuddlePhase,
    pub channel: Option<String>,
    pub huddle_generation: u64,
    pub transcription_enabled: bool,
    pub tts_enabled: bool,
    pub voice_input_mode: VoiceInputMode,
}

impl Huddle {
    /// The speech-to-text part.
    pub open spec fn stt(&self) -> SttView {
        SttView {
            pipeline: self.stt_pipeline,
            starting: self.stt_starting,
            session_generation: self.session_generation,
        }
    }

    /// The text-to-speech part.
    pub open spec fn tts(&self) -> TtsView {
        TtsView { pipeline: self.tts_pipeline, starting: self.tts_starting }
    }

    /// The membership.
    pub open spec fn membership(&self) -> MembershipView {
        MembershipView {
            agents: self.agent_pubkeys@,
            participants: self.participants@,
            refreshed: self.last_agent_refresh,
        }
    }

    /// What no pipeline operation changes.
    pub open spec fn settings(&self) -> SettingsView {
        SettingsView {
            phase: self.phase,
            channel: self.ephemeral_channel_id,
            huddle_generation: self.huddle_generation,
            transcription_enabled: self.transcription_enabled,
            tts_enabled: self.tts_enabled,
            voice_input_mode: self.voice_input_mode,
        }
    }

    /// Whether the huddle is connected.
    pub open spec fn is_active(&self) -> bool {
        self.phase is Connected || self.phase is Active
    }

    /// Whether the huddle is connected.
    pub fn active(&self) -> (yes: bool)
        ensures
            yes == self.is_active(),
    {
        match self.phase {
            HuddlePhase::Connected => true,
            HuddlePhase::Active => true,
            HuddlePhase::Inactive => false,
        }
    }
}

/// Whether speech-to-text is wanted in `channel`.
pub open spec fn stt_wanted(settings: SettingsView, channel: Seq<char>) -> bool {
    &&& settings.transcription_enabled
    &&& settings.phase is Connected || settings.phase is Active
    &&& settings.channel matches Some(own)
    &&& own@ == channel
}

/// A claimed construction of a speech-to-text pipeline.
#[derive(Debug, Clone, Copy, PartialEq, Eq)]
pub struct SttClaim {
    /// Number of the transcription task that the pipeline will feed.
    pub expected_generation: u64,
    /// The pipeline that it replaces, to be shut down and dropped.
    pub replaced: Option<u64>,
    /// Whether it listens only while a key is held.
    pub push_to_talk: bool,
}

/// The speech-to-text part after a construction was claimed. A task that the
/// replaced pipeline feeds is invalidated.
pub open spec fn stt_claimed(before: SttView) -> SttView {
    SttView {
        pipeline: None,
        starting: true,
        session_generation: if before.pipeline is Some {
            before.session_generation.wrapping_add(1)
        } else {
            before.session_generation
        },
    }
}

/// The speech-to-text part after the construction of `pipeline`.
pub open spec fn stt_installed(before: SttView, pipeline: u64, wanted: bool) -> SttView {
    SttView {
        pipeline: if wanted {
            Some(pipeline)
        } else {
            before.pipeline
        },
        starting: false,
        ..before
    }
}

/// What becomes of an attempt to start speech-to-text, before its construction
/// is claimed.
#[derive(Debug, Clone, PartialEq, Eq)]
pub enum SttAttempt {
    /// It is not wanted, or its models are not there.
    NotNow,
    /// Claim the construction, for the huddle of this number.
    Claim {
        /// Number of the huddle.
        huddle_generation: u64,
    },
    /// It fails.
    Fail(String),
}

/// Whether `attempt` is what becomes of an attempt to start speech-to-text in
/// `channel`.
pub open spec fn stt_attempted(
    settings: SettingsView,
    channel: Seq<char>,
    model: Option<bool>,
    uuid: Result<u128, String>,
    attempt: SttAttempt,
) -> bool {
    if !stt_wanted(settings, channel) || model is None {
        attempt is NotNow
    } else if model == Some(false) {
        &&& attempt matches SttAttempt::Fail(error)
        &&& error@ == "STT model directory not found"@
    } else {
        match uuid {
            Err(error) => attempt == SttAttempt::Fail(error),
            Ok(_) => attempt == (SttAttempt::Claim {
                huddle_generation: settings.huddle_generation,
            }),
        }
    }
}

/// Speech-to-text is started exactly in the channel of a huddle that is
/// connected and has transcription on, once the models are ready and there and
/// the channel can be read. It fails for want of the two last alone; in any other
/// case nothing happens.
pub proof fn stt_is_started_where_it_is_wanted(
    settings: SettingsView,
    channel: Seq<char>,
    model: Option<bool>,
    uuid: Result<u128, String>,
    attempt: SttAttempt,
)
    requires
        stt_attempted(settings, channel, model, uuid, attempt),
    ensures
        ({
            let wanted = settings.transcription_enabled && settings.phase !is Inactive
                && settings.channel is Some && settings.channel->Some_0@ == channel;
            &&& attempt is Claim <==> wanted && model == Some(true) && uuid is Ok
            &&& attempt is Claim ==> attempt->huddle_generation == settings.huddle_generation
            &&& attempt is NotNow <==> !wanted || model is None
            &&& wanted && model == Some(false) ==> {
                &&& attempt matches SttAttempt::Fail(error)
                &&& error@ == "STT model directory not found"@
            }
            &&& wanted && model == Some(true) ==> (uuid matches Err(error) ==> attempt
                == SttAttempt::Fail(error))
        }),
{
    if let Some(found) = model {
        assert(found || !found);
    }
}

/// Whether a claim of the construction of a speech-to-text pipeline turned
/// `before` into `after` and gave `claim`.
pub open spec fn stt_claim_made(
    before: SttView,
    mode: VoiceInputMode,
    is_current: bool,
    after: SttView,
    claim: Option<SttClaim>,
) -> bool {
    if is_current && !before.starting {
        &&& after == stt_claimed(before)
        &&& claim == Some(
            SttClaim {
                expected_generation: after.session_generation,
                replaced: before.pipeline,
                push_to_talk: mode is PushToTalk,
            },
        )
    } else {
        after == before && claim is None
    }
}

/// A construction is claimed for a current huddle without one under way, and for
/// no other, which it leaves as it is. The pipeline that was there is handed out
/// and its transcription task gets a new number; without one the number stays.
pub proof fn stt_claims_replace_what_was_there(
    before: SttView,
    mode: VoiceInputMode,
    is_current: bool,
    after: SttView,
    claim: Option<SttClaim>,
)
    requires
        stt_claim_made(before, mode, is_current, after, claim),
    ensures
        claim is Some <==> is_current && !before.starting,
        claim is None ==> after == before,
        claim matches Some(claim) ==> {
            &&& after.starting
            &&& after.pipeline is None
            &&& claim.replaced == before.pipeline
            &&& claim.expected_generation == after.session_generation
            &&& claim.push_to_talk <==> mode == VoiceInputMode::PushToTalk
            &&& before.pipeline is None ==> after.session_generation == before.session_generation
            &&& before.pipeline is Some ==> {
                ||| after.session_generation == before.session_generation + 1
                ||| before.session_generation == u64::MAX && after.session_generation == 0
            }
        },
{
}

/// A constructed speech-to-text pipeline is there afterwards exactly if it is
/// still wanted; either way no construction is under way, and the number of the
/// transcription task is the one that was claimed.
pub proof fn stt_installations_end_the_construction(before: SttView, pipeline: u64)
    ensures
        stt_installed(before, pipeline, true) == (SttView {
            pipeline: Some(pipeline),
            starting: false,
            session_generation: before.session_generation,
        }),
        stt_installed(before, pipeline, false) == (SttView {
            pipeline: before.pipeline,
            starting: false,
            session_generation: before.session_generation,
        }),
{
}

/// Whether a constructed speech-to-text pipeline is still wanted.
pub open spec fn stt_install_wanted(settings: SettingsView, is_current: bool) -> bool {
    settings.transcription_enabled && is_current
}

/// Whether a constructed text-to-speech pipeline is still wanted.
pub open spec fn tts_install_wanted(settings: SettingsView, before: TtsView) -> bool {
    (settings.phase is Connected || settings.phase is Active) && before.pipeline is None
}

/// A constructed speech-to-text pipeline is kept exactly by the huddle and for the
/// task that it was claimed for, while transcription is on; a text-to-speech
/// pipeline exactly by a connected huddle that has none.
pub proof fn constructed_pipelines_are_kept_where_wanted(
    settings: SettingsView,
    is_current: bool,
    before: SttView,
    speech: TtsView,
    pipeline: u64,
)
    ensures
        is_current && settings.transcription_enabled ==> stt_installed(
            before,
            pipeline,
            stt_install_wanted(settings, is_current),
        ).pipeline == Some(pipeline),
        !is_current || !settings.transcription_enabled ==> stt_installed(
            before,
            pipeline,
            stt_install_wanted(settings, is_current),
        ).pipeline == before.pipeline,
        tts_install_wanted(settings, speech) <==> settings.phase !is Inactive && speech.pipeline
            is None,
{
}

impl Huddle {
    /// Begins an attempt to start speech-to-text in `channel`.
    ///
    /// `model` tells whether its models are ready and, if so, whether their
    /// directory was found; `uuid` is what reading the channel gave.
    pub fn maybe_start_stt_pipeline(
        &self,
        channel: &str,
        model: Option<bool>,
        uuid: Result<u128, String>,
    ) -> (attempt: SttAttempt)
        ensures
            stt_attempted(self.settings(), channel@, model, uuid, attempt),
            if !stt_wanted(self.settings(), channel@) || model is None {
                attempt is NotNow
            } else if model == Some(false) {
                attempt matches SttAttempt::Fail(error) && error@
                    == "STT model directory not found"@
            } else {
                match uuid {
                    Err(error) => attempt == SttAttempt::Fail(error),
                    Ok(_) => attempt == (SttAttempt::Claim {
                        huddle_generation: self.huddle_generation,
                    }),
                }
            },
    {
        if !self.transcription_enabled || !self.active() {
            return SttAttempt::NotNow;
        }
        match &self.ephemeral_channel_id {
            Some(own) => {
                if !text::text_eq(own.as_str(), channel) {
                    return SttAttempt::NotNow;
                }
            },
            None => {
                return SttAttempt::NotNow;
            },
        }
        match model {
            None => SttAttempt::NotNow,
            Some(false) => SttAttempt::Fail("STT model directory not found".to_owned()),
            Some(true) => match uuid {
                Err(error) => SttAttempt::Fail(error),
                Ok(_) => SttAttempt::Claim { huddle_generation: self.huddle_generation },
            },
        }
    }

    /// Claims the construction of a speech-to-text pipeline, unless the huddle
    /// is another by now or a construction is under way.
    pub fn claim_stt(&mut self, is_current: bool) -> (claim: Option<SttClaim>)
        ensures
            final(self).settings() == old(self).settings(),
            final(self).tts() == old(self).tts(),
            final(self).membership() == old(self).membership(),
            stt_claim_made(
                old(self).stt(),
                old(self).voice_input_mode,
                is_current,
                final(self).stt(),
                claim,
            ),
            claim is Some <==> is_current && !old(self).stt_starting,
            claim is None ==> final(self).stt() == old(self).stt(),
            claim matches Some(claim) ==> {
                &&& final(self).stt() == stt_claimed(old(self).stt())
                &&& claim.expected_generation == final(self).session_generation
                &&& claim.replaced == old(self).stt_pipeline
                &&& claim.push_to_talk == (old(self).voice_input_mode is PushToTalk)
            },
    {
        if !is_current || self.stt_starting {
            return None;
        }
        self.stt_starting = true;
        if self.stt_pipeline.is_some() {
            self.session_generation = self.session_generation.wrapping_add(1);
        }
        let replaced = self.stt_pipeline;
        self.stt_pipeline = None;
        let push_to_talk = match self.voice_input_mode {
            VoiceInputMode::PushToTalk => true,
            VoiceInputMode::Open => false,
        };
        Some(
            SttClaim { expected_generation: self.session_generation, replaced, push_to_talk },
        )
    }

    /// Gives a claimed construction up.
    pub fn abandon_stt(&mut self)
        ensures
            final(self).settings() == old(self).settings(),
            final(self).tts() == old(self).tts(),
            final(self).membership() == old(self).membership(),
            final(self).stt() == (SttView { starting: false, ..old(self).stt() }),
    {
        self.stt_starting = false;
    }

    /// Installs a constructed speech-to-text pipeline if it is still wanted.
    /// Returns whether it was installed; if so, its transcription task begins.
    ///
    /// `is_current` tells whether huddle and transcription task still are the
    /// ones that it was claimed for.
    pub fn install_stt(&mut self, is_current: bool, pipeline: u64) -> (installed: bool)
        ensures
            final(self).settings() == old(self).settings(),
            final(self).tts() == old(self).tts(),
            final(self).membership() == old(self).membership(),
            installed == stt_install_wanted(old(self).settings(), is_current),
            installed == (old(self).transcription_enabled && is_current),
            final(self).stt() == stt_installed(old(self).stt(), pipeline, installed),
    {
        self.stt_starting = false;
        if !self.transcription_enabled || !is_current {
            return false;
        }
        self.stt_pipeline = Some(pipeline);
        true
    }
}

/// While one construction of a speech-to-text pipeline is under way, no other
/// is claimed; once it has ended, well or not, the next one can be. A claim
/// invalidates the transcription task of the pipeline that it replaces.
pub proof fn stt_constructions_exclude_each_other(before: SttView, pipeline: u64, wanted: bool)
    ensures
        stt_claimed(before).starting,
        !stt_installed(stt_claimed(before), pipeline, wanted).starting,
        before.pipeline is Some ==> stt_claimed(before).session_generation
            != before.session_generation,
        stt_installed(stt_claimed(before), pipeline, false).pipeline is None,
        stt_installed(stt_claimed(before), pipeline, true).pipeline == Some(pipeline),
{
}

/// What is said of a construction that did not come to an end.
pub fn construction_failed(reason: &str) -> (error: String)
    ensures
        error@ == "spawn_blocking failed: "@ + reason@,
{
    text::join2("spawn_blocking failed: ", reason)
}

/// Whether the construction of a text-to-speech pipeline can be claimed: its
/// models are there, it is switched on, and there is neither a pipeline nor a
/// construction under way.
pub open spec fn tts_claimable(before: TtsView, tts_enabled: bool, model_found: bool) -> bool {
    model_found && before.pipeline is None && tts_enabled && !before.starting
}

/// The text-to-speech part after a construction was claimed.
pub open spec fn tts_claimed(before: TtsView) -> TtsView {
    TtsView { starting: true, ..before }
}

/// The text-to-speech part after a construction was given up.
pub open spec fn tts_abandoned(before: TtsView) -> TtsView {
    TtsView { starting: false, ..before }
}

/// The text-to-speech part after the construction of `pipeline`. A huddle that
/// is not connected any more takes none, and one that has a pipeline keeps it.
pub open spec fn tts_installed(before: TtsView, active: bool, pipeline: u64) -> TtsView {
    TtsView {
        pipeline: if active && before.pipeline is None {
            Some(pipeline)
        } else {
            before.pipeline
        },
        starting: false,
    }
}

/// Text-to-speech is started exactly if it is switched on, its models are there,
/// and neither a pipeline nor a construction is; a claim changes nothing but that
/// a construction is under way, and its end, however it comes, only that none is,
/// but for the pipeline that a connected huddle without one gets.
pub proof fn tts_is_started_where_it_is_missing(
    before: TtsView,
    tts_enabled: bool,
    model_found: bool,
    active: bool,
    pipeline: u64,
)
    ensures
        tts_claimable(before, tts_enabled, model_found) <==> tts_enabled && model_found && before
            == (TtsView { pipeline: None, starting: false }),
        tts_claimed(before) == (TtsView { pipeline: before.pipeline, starting: true }),
        tts_abandoned(before) == (TtsView { pipeline: before.pipeline, starting: false }),
        !tts_installed(before, active, pipeline).starting,
        before.pipeline is Some || !active ==> tts_installed(before, active, pipeline).pipeline
            == before.pipeline,
        before.pipeline is None && active ==> tts_installed(before, active, pipeline).pipeline
            == Some(pipeline),
{
}

/// While one construction of a text-to-speech pipeline is under way, no other
/// is claimed, and none once it is installed. After one that was given up, or
/// that came too late for its huddle, the next can be claimed.
pub proof fn tts_constructions_exclude_each_other(
    before: TtsView,
    tts_enabled: bool,
    model_found: bool,
    pipeline: u64,
)
    requires
        tts_claimable(before, tts_enabled, model_found),
    ensures
        !tts_claimable(tts_claimed(before), tts_enabled, model_found),
        tts_installed(tts_claimed(before), true, pipeline).pipeline == Some(pipeline),
        !tts_claimable(
            tts_installed(tts_claimed(before), true, pipeline),
            tts_enabled,
            model_found,
        ),
        tts_claimable(
            tts_installed(tts_claimed(before), false, pipeline),
            tts_enabled,
            model_found,
        ),
        tts_claimable(tts_abandoned(tts_claimed(before)), tts_enabled, model_found),
{
}

impl Huddle {
    /// Begins an attempt to start text-to-speech: claims the construction of its
    /// pipeline, unless its models are not there, there is one already, it is
    /// switched off, or a construction is under way.
    pub fn maybe_start_tts_pipeline(&mut self, model_found: bool) -> (claimed: bool)
        ensures
            final(self).settings() == old(self).settings(),
            final(self).stt() == old(self).stt(),
            final(self).membership() == old(self).membership(),
            claimed == tts_claimable(old(self).tts(), old(self).tts_enabled, model_found),
            final(self).tts() == if claimed {
                tts_claimed(old(self).tts())
            } else {
                old(self).tts()
            },
    {
        if !model_found {
            return false;
        }
        if self.tts_pipeline.is_some() {
            return false;
        }
        if !self.tts_enabled {
            return false;
        }
        if self.tts_starting {
            return false;
        }
        self.tts_starting = true;
        true
    }

    /// Gives a claimed construction up.
    pub fn abandon_tts(&mut self)
        ensures
            final(self).settings() == old(self).settings(),
            final(self).stt() == old(self).stt(),
            final(self).membership() == old(self).membership(),
            final(self).tts() == tts_abandoned(old(self).tts()),
    {
        self.tts_starting = false;
    }

    /// Installs a constructed text-to-speech pipeline, unless the huddle was
    /// torn down or got one in the meantime. Returns whether it was installed.
    pub fn install_tts(&mut self, pipeline: u64) -> (installed: bool)
        ensures
            final(self).settings() == old(self).settings(),
            final(self).stt() == old(self).stt(),
            final(self).membership() == old(self).membership(),
            installed == tts_install_wanted(old(self).settings(), old(self).tts()),
            installed == (old(self).is_active() && old(self).tts_pipeline is None),
            final(self).tts() == tts_installed(old(self).tts(), old(self).is_active(), pipeline),
    {
        self.tts_starting = false;
        if !self.active() {
            return false;
        }
        if self.tts_pipeline.is_some() {
            return false;
        }
        self.tts_pipeline = Some(pipeline);
        true
    }
}

/// How far a hot start has come.
#[derive(Debug, Clone, Copy, PartialEq, Eq)]
pub enum HotstartStage {
    /// Looks at the huddle.
    Inspecting,
    /// Asks which models are ready.
    AskingModels,
    /// Starts text-to-speech.
    StartingTts,
    /// Starts speech-to-text.
    StartingStt,
    /// Asks for the time.
    AskingTime,
    /// Fetches the membership.
    Fetching,
    /// Starts the transcription that agents have switched on.
    StartingTranscription,
    /// Over.
    Done,
}

/// What happened to a hot start.
#[derive(Debug, Clone, PartialEq, Eq)]
pub enum HotstartEvent {
    /// Whether the workers of the pipelines have ended.
    Inspected {
        /// Speech-to-text.
        stt_finished: bool,
        /// Text-to-speech.
        tts_finished: bool,
    },
    /// Whether the models are ready.
    Models {
        /// Speech-to-text.
        stt_ready: bool,
        /// Text-to-speech.
        tts_ready: bool,
    },
    /// The attempt to start a pipeline is over.
    Attempted,
    /// The time, in milliseconds.
    Time(u64),
    /// The membership was fetched, as far as it could be.
    Membership {
        /// Whether the huddle still is the one that was inspected.
        is_current: bool,
        /// Agents.
        agents: Option<Vec<String>>,
        /// All members.
        members: Option<Vec<String>>,
        /// The time, in milliseconds.
        now: u64,
    },
    /// Whether the agents have switched transcription on.
    TranscriptionSwitched(bool),
}

/// What to do next for a hot start.
#[derive(Debug, Clone, Copy, PartialEq, Eq)]
pub enum HotstartAction {
    /// Ask which models are ready.
    AskModels,
    /// Try to start text-to-speech.
    StartTts,
    /// Try to start speech-to-text.
    StartStt,
    /// Ask for the time.
    AskTime,
    /// Fetch agents and members.
    FetchMembership,
    /// Ask whether the agents have switched transcription on.
    AskTranscription,
    /// Start the transcription that agents have switched on.
    StartTranscription,
    /// The hot start is over.
    Finish,
}

/// A look, from time to time, at whether pipelines can be started now and
/// whether the membership has changed.
#[derive(Debug, Clone, PartialEq, Eq)]
pub struct Hotstart {
    /// How far it has come.
    pub stage: HotstartStage,
    /// The channel of the huddle that was inspected.
    pub channel: Option<String>,
    /// Whether speech-to-text is to be started after text-to-speech.
    pub stt_due: bool,
}

/// Whether a pipeline that has ended is forgotten.
pub open spec fn alive(pipeline: Option<u64>, finished: bool) -> Option<u64> {
    if finished {
        None
    } else {
        pipeline
    }
}

/// Whether the membership is to be refreshed at `now`.
pub open spec fn refresh_due(refreshed: Option<u64>, now: u64) -> bool {
    match refreshed {
        None => true,
        Some(last) => now - last >= AGENT_REFRESH_MILLIS,
    }
}

/// The membership after a fetch. What was fetched replaces what was known, even
/// by nothing; what could not be fetched is kept. The time is noted if anything
/// was fetched, so that a failure is retried at the next opportunity.
pub open spec fn refreshed_membership(
    before: MembershipView,
    agents: Option<Vec<String>>,
    members: Option<Vec<String>>,
    now: u64,
) -> MembershipView {
    MembershipView {
        agents: match agents {
            Some(agents) => agents@,
            None => before.agents,
        },
        participants: match members {
            Some(members) => members@,
            None => before.participants,
        },
        refreshed: if agents is Some || members is Some {
            Some(now)
        } else {
            before.refreshed
        },
    }
}

impl Hotstart {
    /// Whether `event` can happen now.
    pub open spec fn awaits(self, event: HotstartEvent) -> bool {
        match self.stage {
            HotstartStage::Inspecting => event is Inspected,
            HotstartStage::AskingModels => event is Models,
            HotstartStage::StartingTts => event is Attempted,
            HotstartStage::StartingStt => event is Attempted,
            HotstartStage::AskingTime => event is Time,
            HotstartStage::Fetching => event is Membership,
            HotstartStage::StartingTranscription => event is TranscriptionSwitched,
            HotstartStage::Done => false,
        }
    }

    /// What follows the attempts to start pipelines: the membership of the
    /// huddle's channel, if it has one.
    pub open spec fn then_refresh(self) -> (HotstartStage, HotstartAction) {
        if self.channel is Some {
            (HotstartStage::AskingTime, HotstartAction::AskTime)
        } else {
            (HotstartStage::Done, HotstartAction::Finish)
        }
    }

    /// What follows text-to-speech.
    pub open spec fn then_stt(self) -> (HotstartStage, HotstartAction) {
        if self.stt_due {
            (HotstartStage::StartingStt, HotstartAction::StartStt)
        } else {
            self.then_refresh()
        }
    }

    /// Where a hot start goes on `event`, and what is done for `huddle`.
    pub open spec fn step(self, huddle: Huddle, event: HotstartEvent) -> (
        Hotstart,
        HotstartAction,
    ) {
        let done = (Hotstart { stage: HotstartStage::Done, ..self }, HotstartAction::Finish);
        match event {
            HotstartEvent::Inspected { .. } => if !huddle.is_active() {
                done
            } else {
                (
                    Hotstart {
                        stage: HotstartStage::AskingModels,
                        channel: huddle.ephemeral_channel_id,
                        ..self
                    },
                    HotstartAction::AskModels,
                )
            },
            HotstartEvent::Models { stt_ready, tts_ready } => {
                let due = Hotstart {
                    stt_due: stt_ready && huddle.transcription_enabled && huddle.stt_pipeline
                        is None && self.channel is Some,
                    ..self
                };
                if tts_ready && huddle.tts_pipeline is None {
                    (Hotstart { stage: HotstartStage::StartingTts, ..due }, HotstartAction::StartTts)
                } else {
                    (Hotstart { stage: due.then_stt().0, ..due }, due.then_stt().1)
                }
            },
            HotstartEvent::Attempted => if self.stage is StartingTts {
                (Hotstart { stage: self.then_stt().0, ..self }, self.then_stt().1)
            } else {
                (Hotstart { stage: self.then_refresh().0, ..self }, self.then_refresh().1)
            },
            HotstartEvent::Time(now) => if refresh_due(huddle.last_agent_refresh, now) {
                (
                    Hotstart { stage: HotstartStage::Fetching, ..self },
                    HotstartAction::FetchMembership,
                )
            } else {
                done
            },
            HotstartEvent::Membership { is_current, agents, members, .. } => if is_current && (
            agents is Some || members is Some) {
                (
                    Hotstart { stage: HotstartStage::StartingTranscription, ..self },
                    HotstartAction::AskTranscription,
                )
            } else {
                done
            },
            HotstartEvent::TranscriptionSwitched(on) => (
                Hotstart { stage: HotstartStage::Done, ..self },
                if on {
                    HotstartAction::StartTranscription
                } else {
                    HotstartAction::Finish
                },
            ),
        }
    }

    /// Begins a hot start.
    pub fn begin() -> (hotstart: Hotstart)
        ensures
            hotstart.stage is Inspecting,
            hotstart.channel is None,
            !hotstart.stt_due,
    {
        Hotstart { stage: HotstartStage::Inspecting, channel: None, stt_due: false }
    }

    fn move_to(&mut self, stage: HotstartStage, action: HotstartAction) -> (next: HotstartAction)
        ensures
            *final(self) == (Hotstart { stage, ..*old(self) }),
            next == action,
    {
        self.stage = stage;
        action
    }

    fn refresh(&mut self) -> (action: HotstartAction)
        ensures
            *final(self) == (Hotstart { stage: final(self).stage, ..*old(self) }),
            (final(self).stage, action) == old(self).then_refresh(),
    {
        if self.channel.is_some() {
            self.move_to(HotstartStage::AskingTime, HotstartAction::AskTime)
        } else {
            self.move_to(HotstartStage::Done, HotstartAction::Finish)
        }
    }

    /// Goes on after `event`.
    ///
    /// Nothing is done for a huddle that is not connected. Pipelines whose
    /// worker has ended are forgotten, so that they are started again.
    /// Text-to-speech is started before speech-to-text, which listens for it.
    pub fn check_pipeline_hotstart(&mut self, huddle: &mut Huddle, event: HotstartEvent) -> (action:
        HotstartAction)
        requires
            old(self).awaits(event),
        ensures
            (*final(self), action) == old(self).step(*old(huddle), event),
            final(huddle).last_agent_refresh != old(huddle).last_agent_refresh ==> event
                is Membership,
            event matches HotstartEvent::Membership { is_current, agents, members, now } ==> {
                &&& is_current ==> (agents matches Some(list) ==> final(huddle).agent_pubkeys@
                    == list@)
                &&& is_current ==> (members matches Some(list) ==> final(huddle).participants@
                    == list@)
                &&& !is_current || agents is None ==> final(huddle).agent_pubkeys@
                    == old(huddle).agent_pubkeys@
                &&& !is_current || members is None ==> final(huddle).participants@
                    == old(huddle).participants@
                &&& is_current && (agents is Some || members is Some)
                    ==> final(huddle).last_agent_refresh == Some(now)
            },
            final(huddle).settings() == old(huddle).settings(),
            event !is Inspected ==> final(huddle).stt() == old(huddle).stt() && final(huddle).tts()
                == old(huddle).tts(),
            event !is Membership ==> final(huddle).membership() == old(huddle).membership(),
            event !is Models ==> final(self).stt_due == old(self).stt_due,
            event !is Inspected ==> final(self).channel == old(self).channel,
            match event {
                HotstartEvent::Inspected { stt_finished, tts_finished } => if !(old(huddle).phase
                    is Connected || old(huddle).phase is Active) {
                    &&& (final(self).stage, action) == (HotstartStage::Done, HotstartAction::Finish)
                    &&& final(huddle).stt() == old(huddle).stt()
                    &&& final(huddle).tts() == old(huddle).tts()
                } else {
                    &&& (final(self).stage, action) == (
                        HotstartStage::AskingModels,
                        HotstartAction::AskModels,
                    )
                    &&& final(self).channel == old(huddle).ephemeral_channel_id
                    &&& final(huddle).stt() == (SttView {
                        pipeline: alive(old(huddle).stt_pipeline, stt_finished),
                        ..old(huddle).stt()
                    })
                    &&& final(huddle).tts() == (TtsView {
                        pipeline: alive(old(huddle).tts_pipeline, tts_finished),
                        ..old(huddle).tts()
                    })
                },
                HotstartEvent::Models { stt_ready, tts_ready } => {
                    &&& final(self).stt_due == (stt_ready && old(huddle).transcription_enabled
                        && old(huddle).stt_pipeline is None && old(self).channel is Some)
                    &&& (final(self).stage, action) == if tts_ready && old(huddle).tts_pipeline
                        is None {
                        (HotstartStage::StartingTts, HotstartAction::StartTts)
                    } else {
                        (Hotstart { stt_due: final(self).stt_due, ..*old(self) }).then_stt()
                    }
                },
                HotstartEvent::Attempted => (final(self).stage, action) == if old(self).stage
                    is StartingTts {
                    old(self).then_stt()
                } else {
                    old(self).then_refresh()
                },
                HotstartEvent::Time(now) => (final(self).stage, action) == if refresh_due(
                    old(huddle).last_agent_refresh,
                    now,
                ) {
                    (HotstartStage::Fetching, HotstartAction::FetchMembership)
                } else {
                    (HotstartStage::Done, HotstartAction::Finish)
                },
                HotstartEvent::Membership { is_current, agents, members, now } => if is_current
                    && (agents is Some || members is Some) {
                    &&& (final(self).stage, action) == (
                        HotstartStage::StartingTranscription,
                        HotstartAction::AskTranscription,
                    )
                    &&& final(huddle).membership() == refreshed_membership(
                        old(huddle).membership(),
                        agents,
                        members,
                        now,
                    )
                } else {
                    &&& (final(self).stage, action) == (HotstartStage::Done, HotstartAction::Finish)
                    &&& final(huddle).membership() == old(huddle).membership()
                },
                HotstartEvent::TranscriptionSwitched(on) => (final(self).stage, action) == (
                    HotstartStage::Done,
                    if on {
                        HotstartAction::StartTranscription
                    } else {
                        HotstartAction::Finish
                    },
                ),
            },
    {
        match event {
            HotstartEvent::Inspected { stt_finished, tts_finished } => {
                if !huddle.active() {
                    return self.move_to(HotstartStage::Done, HotstartAction::Finish);
                }
                if stt_finished {
                    huddle.stt_pipeline = None;
                }
                if tts_finished {
                    huddle.tts_pipeline = None;
                }
                self.channel = match &huddle.ephemeral_channel_id {
                    Some(channel) => Some(channel.clone()),
                    None => None,
                };
                self.move_to(HotstartStage::AskingModels, HotstartAction::AskModels)
            },
            HotstartEvent::Models { stt_ready, tts_ready } => {
                self.stt_due = stt_ready && huddle.transcription_enabled
                    && huddle.stt_pipeline.is_none() && self.channel.is_some();
                if tts_ready && huddle.tts_pipeline.is_none() {
                    return self.move_to(HotstartStage::StartingTts, HotstartAction::StartTts);
                }
                if self.stt_due {
                    return self.move_to(HotstartStage::StartingStt, HotstartAction::StartStt);
                }
                self.refresh()
            },
            HotstartEvent::Attempted => {
                let after_tts = match self.stage {
                    HotstartStage::StartingTts => true,
                    _ => false,
                };
                if after_tts && self.stt_due {
                    return self.move_to(HotstartStage::StartingStt, HotstartAction::StartStt);
                }
                self.refresh()
            },
            HotstartEvent::Time(now) => {
                let due = match huddle.last_agent_refresh {
                    None => true,
                    Some(last) => now.saturating_sub(last) >= AGENT_REFRESH_MILLIS,
                };
                if due {
                    self.move_to(HotstartStage::Fetching, HotstartAction::FetchMembership)
                } else {
                    self.move_to(HotstartStage::Done, HotstartAction::Finish)
                }
            },
            HotstartEvent::Membership { is_current, agents, members, now } => {
                let fetched = agents.is_some() || members.is_some();
                if !is_current || !fetched {
                    return self.move_to(HotstartStage::Done, HotstartAction::Finish);
                }
                if let Some(agents) = agents {
                    huddle.agent_pubkeys = agents;
                }
                if let Some(members) = members {
                    huddle.participants = members;
                }
                huddle.last_agent_refresh = Some(now);
                self.move_to(
                    HotstartStage::StartingTranscription,
                    HotstartAction::AskTranscription,
                )
            },
            HotstartEvent::TranscriptionSwitched(on) => {
                if on {
                    self.move_to(HotstartStage::Done, HotstartAction::StartTranscription)
                } else {
                    self.move_to(HotstartStage::Done, HotstartAction::Finish)
                }
            },
        }
    }
}

/// How many stages of a hot start come before `stage`.
pub open spec fn hotstart_rank(stage: HotstartStage) -> int {
    match stage {
        HotstartStage::Inspecting => 0,
        HotstartStage::AskingModels => 1,
        HotstartStage::StartingTts => 2,
        HotstartStage::StartingStt => 3,
        HotstartStage::AskingTime => 4,
        HotstartStage::Fetching => 5,
        HotstartStage::StartingTranscription => 6,
        HotstartStage::Done => 7,
    }
}

/// A hot start never goes back: it ends, tries each pipeline at most once, and
/// text-to-speech before speech-to-text. It says what it does next by where it
/// goes, and is over exactly when nothing is left to wait for.
pub proof fn hot_starts_move_forward(hotstart: Hotstart, huddle: Huddle, event: HotstartEvent)
    requires
        hotstart.awaits(event),
    ensures
        ({
            let (next, action) = hotstart.step(huddle, event);
            &&& hotstart_rank(next.stage) > hotstart_rank(hotstart.stage)
            &&& action is AskModels <==> next.stage is AskingModels
            &&& action is StartTts <==> next.stage is StartingTts
            &&& action is StartStt <==> next.stage is StartingStt
            &&& action is AskTime <==> next.stage is AskingTime
            &&& action is FetchMembership <==> next.stage is Fetching
            &&& action is AskTranscription <==> next.stage is StartingTranscription
            &&& action is StartTranscription || action is Finish <==> next.stage is Done
        }),
{
}

/// A hot start of a connected huddle tries each pipeline that is missing and whose
/// models are ready, speech-to-text only with transcription on and a channel, and
/// no other; with a channel it then looks at the membership. A huddle that is not
/// connected is left alone.
pub proof fn hot_starts_start_what_is_missing(
    begun: Hotstart,
    seen: Huddle,
    ready: Huddle,
    later: Huddle,
    latest: Huddle,
    stt_finished: bool,
    tts_finished: bool,
    stt_ready: bool,
    tts_ready: bool,
)
    requires
        begun.stage is Inspecting,
    ensures
        ({
            let (looked, first) = begun.step(
                seen,
                HotstartEvent::Inspected { stt_finished, tts_finished },
            );
            let (asked, second) = looked.step(ready, HotstartEvent::Models { stt_ready, tts_ready });
            let (tried, third) = asked.step(later, HotstartEvent::Attempted);
            let (tried_both, fourth) = tried.step(latest, HotstartEvent::Attempted);
            let tts = tts_ready && ready.tts_pipeline is None;
            let stt = stt_ready && ready.stt_pipeline is None && ready.transcription_enabled
                && seen.ephemeral_channel_id is Some;
            let refresh = if seen.ephemeral_channel_id is Some {
                HotstartAction::AskTime
            } else {
                HotstartAction::Finish
            };
            &&& seen.phase is Inactive ==> first is Finish && looked.stage is Done
            &&& seen.phase !is Inactive ==> {
                &&& first is AskModels
                &&& second is StartTts <==> tts
                &&& second is StartStt <==> !tts && stt
                &&& !tts && !stt ==> second == refresh
                &&& tts && stt ==> third is StartStt && fourth == refresh
                &&& tts != stt ==> third == refresh
            }
        }),
{
}

/// The membership is fetched when it never was, or not for fifteen seconds; what
/// was fetched for the same huddle leads to the question whether its agents have
/// switched transcription on, and their yes to starting it.
pub proof fn memberships_are_refreshed_in_time(
    asked: Hotstart,
    huddle: Huddle,
    now: u64,
    later: Huddle,
    is_current: bool,
    agents: Option<Vec<String>>,
    members: Option<Vec<String>>,
    fetched_at: u64,
    latest: Huddle,
    on: bool,
)
    requires
        asked.stage is AskingTime,
    ensures
        ({
            let (due, first) = asked.step(huddle, HotstartEvent::Time(now));
            let (fetched, second) = due.step(
                later,
                HotstartEvent::Membership { is_current, agents, members, now: fetched_at },
            );
            let (over, third) = fetched.step(latest, HotstartEvent::TranscriptionSwitched(on));
            &&& first is FetchMembership <==> match huddle.last_agent_refresh {
                None => true,
                Some(last) => now >= last + 15_000,
            }
            &&& first !is FetchMembership ==> first is Finish
            &&& second is AskTranscription <==> is_current && (agents is Some || members is Some)
            &&& second !is AskTranscription ==> second is Finish
            &&& third is StartTranscription <==> on
            &&& !on ==> third is Finish
        }),
{
}

/// After a refresh the agents are exactly those that were fetched, and so are the
/// participants, be they none; a list that was not fetched stays as it was. A
/// refresh that fetched anything is good for fifteen seconds, and one that fetched
/// nothing for no longer than the one before.
pub proof fn refreshed_lists_are_the_fetched_ones(
    before: MembershipView,
    agents: Option<Vec<String>>,
    members: Option<Vec<String>>,
    now: u64,
    later: u64,
)
    ensures
        ({
            let after = refreshed_membership(before, agents, members, now);
            &&& agents matches Some(list) ==> after.agents == list@
            &&& members matches Some(list) ==> after.participants == list@
            &&& agents is None ==> after.agents == before.agents
            &&& members is None ==> after.participants == before.participants
            &&& agents is Some || members is Some ==> (refresh_due(after.refreshed, later) <==> later
                >= now + 15_000)
            &&& agents is None && members is None ==> after.refreshed == before.refreshed
        }),
{
}

/// A pipeline whose worker has ended is forgotten, and no other is.
pub proof fn ended_pipelines_are_forgotten(pipeline: Option<u64>)
    ensures
        alive(pipeline, true) is None,
        alive(pipeline, false) == pipeline,
{
}

/// A failed fetch takes no agent away: transcripts keep mentioning the agents
/// that were known.
pub proof fn failed_refresh_keeps_the_agents(before: MembershipView, members: Option<Vec<String>>, now: u64)
    ensures
        refreshed_membership(before, None, members, now).agents == before.agents,
        members is None ==> refreshed_membership(before, None, members, now) == before,
{
}

/// What a setup after connecting came to.
#[derive(Debug, Clone, Copy, PartialEq, Eq)]
pub enum PostConnectOutcome {
    /// The huddle is set up.
    Ready,
    /// The huddle is another by now.
    Stale,
}

/// How far a setup after connecting has come.
#[derive(Debug, Clone, Copy, PartialEq, Eq)]
pub enum PostConnectStage {
    /// Asks whether the huddle is current.
    Checking,
    /// Fetches the membership.
    Fetching,
    /// Asks whether agents have switched transcription on.
    AskingTranscription,
    /// Prepares the models.
    Preparing,
    /// Connects the audio relay.
    ConnectingAudio,
    /// Has audio, asks whether the huddle is current.
    CheckingAgain,
    /// Starts text-to-speech.
    StartingTts,
    /// Starts speech-to-text.
    StartingStt,
    /// Over.
    Done,
}

/// What happened to a setup after connecting.
#[derive(Debug, PartialEq, Eq)]
pub enum PostConnectEvent {
    /// Whether the huddle is current.
    Checked(bool),
    /// The membership was fetched, as far as it could be.
    Membership {
        /// Whether the huddle is current.
        is_current: bool,
        /// Agents.
        agents: Option<Vec<String>>,
        /// All members.
        members: Option<Vec<String>>,
    },
    /// Whether the agents have just switched transcription on.
    TranscriptionSwitched(bool),
    /// The models are being prepared.
    Prepared {
        /// Whether the huddle is current.
        is_current: bool,
    },
    /// The audio relay was connected, or could not be.
    Audio {
        /// Whether the huddle is current.
        is_current: bool,
        /// The connection.
        connection: Result<u64, String>,
    },
    /// The attempt to start a pipeline is over.
    Attempted,
}

/// What to do next for a setup after connecting.
#[derive(Debug, Clone, PartialEq, Eq)]
pub enum PostConnectAction {
    /// Fetch agents and members.
    FetchMembership,
    /// Ask whether the agents have switched transcription on.
    AskTranscription,
    /// Download the models.
    PrepareModels {
        /// Whether to tell the user that transcription is on.
        announce: bool,
        /// Whether speech-to-text models are needed too.
        stt: bool,
    },
    /// Connect the audio relay.
    ConnectAudio,
    /// Keep this audio connection with the huddle, and ask whether it is
    /// current.
    KeepAudio(u64),
    /// Close this audio connection; the huddle is another by now.
    DropAudio(u64),
    /// Try to start text-to-speech.
    StartTts,
    /// Try to start speech-to-text.
    StartStt,
    /// The setup is over.
    Finish(PostConnectOutcome),
    /// The setup has failed.
    Fail(String),
}

/// The setup of a huddle after connecting.
#[derive(Debug, Clone, Copy, PartialEq, Eq)]
pub struct PostConnect {
    /// How far it has come.
    pub stage: PostConnectStage,
}

/// The membership after it was fetched for the first time. It overrides what
/// was guessed, except that an empty list of members tells nothing.
pub open spec fn hydrated_membership(
    before: MembershipView,
    agents: Option<Vec<String>>,
    members: Option<Vec<String>>,
) -> MembershipView {
    MembershipView {
        agents: match agents {
            Some(agents) => agents@,
            None => before.agents,
        },
        participants: match members {
            Some(members) if members@.len() > 0 => members@,
            _ => before.participants,
        },
        refreshed: before.refreshed,
    }
}

impl PostConnect {
    /// Whether `event` can happen now.
    pub open spec fn awaits(self, event: PostConnectEvent) -> bool {
        match self.stage {
            PostConnectStage::Checking => event is Checked,
            PostConnectStage::Fetching => event is Membership,
            PostConnectStage::AskingTranscription => event is TranscriptionSwitched,
            PostConnectStage::Preparing => event is Prepared,
            PostConnectStage::ConnectingAudio => event is Audio,
            PostConnectStage::CheckingAgain => event is Checked,
            PostConnectStage::StartingTts => event is Attempted,
            PostConnectStage::StartingStt => event is Attempted,
            PostConnectStage::Done => false,
        }
    }

    /// Where the setup of a huddle that has, or has not, transcription on goes
    /// on `event`, and what is done.
    ///
    /// The setup ends as soon as the huddle turns out to be another, and an
    /// audio connection that came too late is closed. Without audio there is no
    /// huddle; without pipelines there is.
    pub open spec fn step(self, transcription_enabled: bool, event: PostConnectEvent) -> (
        PostConnectStage,
        PostConnectAction,
    ) {
        let stale = (
            PostConnectStage::Done,
            PostConnectAction::Finish(PostConnectOutcome::Stale),
        );
        match event {
            PostConnectEvent::Checked(is_current) => if !is_current {
                stale
            } else if self.stage is Checking {
                (PostConnectStage::Fetching, PostConnectAction::FetchMembership)
            } else {
                (PostConnectStage::StartingTts, PostConnectAction::StartTts)
            },
            PostConnectEvent::Membership { is_current, .. } => if !is_current {
                stale
            } else {
                (PostConnectStage::AskingTranscription, PostConnectAction::AskTranscription)
            },
            PostConnectEvent::TranscriptionSwitched(on) => (
                PostConnectStage::Preparing,
                PostConnectAction::PrepareModels { announce: on, stt: transcription_enabled },
            ),
            PostConnectEvent::Prepared { is_current } => if !is_current {
                stale
            } else {
                (PostConnectStage::ConnectingAudio, PostConnectAction::ConnectAudio)
            },
            PostConnectEvent::Audio { is_current, connection } => match connection {
                Ok(connection) => if is_current {
                    (PostConnectStage::CheckingAgain, PostConnectAction::KeepAudio(connection))
                } else {
                    (PostConnectStage::Done, PostConnectAction::DropAudio(connection))
                },
                Err(error) => if is_current {
                    (PostConnectStage::Done, PostConnectAction::Fail(error))
                } else {
                    stale
                },
            },
            PostConnectEvent::Attempted => if self.stage is StartingTts {
                (PostConnectStage::StartingStt, PostConnectAction::StartStt)
            } else {
                (
                    PostConnectStage::Done,
                    PostConnectAction::Finish(PostConnectOutcome::Ready),
                )
            },
        }
    }

    /// Begins the setup of a huddle.
    pub fn begin() -> (setup: PostConnect)
        ensures
            setup.stage is Checking,
    {
        PostConnect { stage: PostConnectStage::Checking }
    }

    fn stale(&mut self) -> (action: PostConnectAction)
        ensures
            final(self).stage is Done,
            action == PostConnectAction::Finish(PostConnectOutcome::Stale),
    {
        self.stage = PostConnectStage::Done;
        PostConnectAction::Finish(PostConnectOutcome::Stale)
    }

    /// Goes on after `event`.
    pub fn post_connect_setup(&mut self, huddle: &mut Huddle, event: PostConnectEvent) -> (action:
        PostConnectAction)
        requires
            old(self).awaits(event),
        ensures
            event matches PostConnectEvent::Membership { is_current, agents, members } ==> {
                &&& is_current ==> (agents matches Some(list) ==> final(huddle).agent_pubkeys@
                    == list@)
                &&& is_current ==> (members matches Some(list) ==> list@.len() > 0
                    ==> final(huddle).participants@ == list@)
                &&& !is_current || agents is None ==> final(huddle).agent_pubkeys@
                    == old(huddle).agent_pubkeys@
                &&& !is_current || members is None ==> final(huddle).participants@
                    == old(huddle).participants@
            },
            final(huddle).last_agent_refresh == old(huddle).last_agent_refresh,
            (final(self).stage, action) == old(self).step(
                old(huddle).transcription_enabled,
                event,
            ),
            final(huddle).settings() == old(huddle).settings(),
            final(huddle).stt() == old(huddle).stt(),
            final(huddle).tts() == old(huddle).tts(),
            final(huddle).membership() == match event {
                PostConnectEvent::Membership { is_current, agents, members } if is_current =>
                    hydrated_membership(old(huddle).membership(), agents, members),
                _ => old(huddle).membership(),
            },
    {
        match event {
            PostConnectEvent::Checked(is_current) => {
                if !is_current {
                    return self.stale();
                }
                match self.stage {
                    PostConnectStage::Checking => {
                        self.stage = PostConnectStage::Fetching;
                        PostConnectAction::FetchMembership
                    },
                    _ => {
                        self.stage = PostConnectStage::StartingTts;
                        PostConnectAction::StartTts
                    },
                }
            },
            PostConnectEvent::Membership { is_current, agents, members } => {
                if !is_current {
                    return self.stale();
                }
                if let Some(agents) = agents {
                    huddle.agent_pubkeys = agents;
                }
                if let Some(members) = members {
                    if members.len() > 0 {
                        huddle.participants = members;
                    }
                }
                self.stage = PostConnectStage::AskingTranscription;
                PostConnectAction::AskTranscription
            },
            PostConnectEvent::TranscriptionSwitched(on) => {
                self.stage = PostConnectStage::Preparing;
                PostConnectAction::PrepareModels {
                    announce: on,
                    stt: huddle.transcription_enabled,
                }
            },
            PostConnectEvent::Prepared { is_current } => {
                if !is_current {
                    return self.stale();
                }
                self.stage = PostConnectStage::ConnectingAudio;
                PostConnectAction::ConnectAudio
            },
            PostConnectEvent::Audio { is_current, connection } => match connection {
                Ok(connection) => {
                    if is_current {
                        self.stage = PostConnectStage::CheckingAgain;
                        PostConnectAction::KeepAudio(connection)
                    } else {
                        self.stage = PostConnectStage::Done;
                        PostConnectAction::DropAudio(connection)
                    }
                },
                Err(error) => {
                    if is_current {
                        self.stage = PostConnectStage::Done;
                        PostConnectAction::Fail(error)
                    } else {
                        self.stale()
                    }
                },
            },
            PostConnectEvent::Attempted => match self.stage {
                PostConnectStage::StartingTts => {
                    self.stage = PostConnectStage::StartingStt;
                    PostConnectAction::StartStt
                },
                _ => {
                    self.stage = PostConnectStage::Done;
                    PostConnectAction::Finish(PostConnectOutcome::Ready)
                },
            },
        }
    }
}

/// Whether an event tells that the huddle is another by now.
pub open spec fn tells_stale(event: PostConnectEvent) -> bool {
    match event {
        PostConnectEvent::Checked(is_current) => !is_current,
        PostConnectEvent::Membership { is_current, .. } => !is_current,
        PostConnectEvent::Prepared { is_current } => !is_current,
        PostConnectEvent::Audio { is_current, .. } => !is_current,
        _ => false,
    }
}

/// A setup goes no further once the huddle is another: no pipeline is started,
/// and an audio connection is closed if there is one. A current huddle fails
/// only for want of audio.
pub proof fn stale_setups_end(
    setup: PostConnect,
    transcription_enabled: bool,
    event: PostConnectEvent,
)
    requires
        setup.awaits(event),
    ensures
        tells_stale(event) ==> setup.step(transcription_enabled, event) == (
            PostConnectStage::Done,
            match event {
                PostConnectEvent::Audio { connection: Ok(connection), .. } =>
                    PostConnectAction::DropAudio(connection),
                _ => PostConnectAction::Finish(PostConnectOutcome::Stale),
            },
        ),
        setup.step(transcription_enabled, event).1 is Fail <==> {
            &&& !tells_stale(event)
            &&& event matches PostConnectEvent::Audio { connection, .. }
            &&& connection is Err
        },
        setup.step(transcription_enabled, event).1
            == PostConnectAction::Finish(PostConnectOutcome::Stale) ==> tells_stale(event),
{
}

/// Once fetched, the agents are exactly those that were fetched, be they none, and
/// the participants those that were fetched, if there are any; a list that was not
/// fetched, or is empty of participants, changes nothing. The time of the next
/// refresh is not put off.
pub proof fn hydrated_lists_are_the_fetched_ones(
    before: MembershipView,
    agents: Option<Vec<String>>,
    members: Option<Vec<String>>,
)
    ensures
        ({
            let after = hydrated_membership(before, agents, members);
            &&& agents matches Some(list) ==> after.agents == list@
            &&& agents is None ==> after.agents == before.agents
            &&& members matches Some(list) ==> list@.len() > 0 ==> after.participants == list@
            &&& members matches Some(list) ==> list@.len() == 0 ==> after.participants
                == before.participants
            &&& members is None ==> after.participants == before.participants
            &&& after.refreshed == before.refreshed
        }),
{
}

/// The setup of a huddle that stays current and gets audio goes its whole way:
/// membership, transcription, models, audio, and then the pipelines,
/// text-to-speech first. Models for speech are prepared, and transcription is
/// announced, as it is switched at that moment.
pub proof fn current_setups_become_ready(
    begun: PostConnect,
    agents: Option<Vec<String>>,
    members: Option<Vec<String>>,
    on: bool,
    transcription_enabled: bool,
    connection: u64,
)
    requires
        begun.stage is Checking,
    ensures
        ({
            let checked = begun.step(transcription_enabled, PostConnectEvent::Checked(true));
            let fetched = (PostConnect { stage: checked.0 }).step(
                transcription_enabled,
                PostConnectEvent::Membership { is_current: true, agents, members },
            );
            let asked = (PostConnect { stage: fetched.0 }).step(
                transcription_enabled,
                PostConnectEvent::TranscriptionSwitched(on),
            );
            let prepared = (PostConnect { stage: asked.0 }).step(
                transcription_enabled,
                PostConnectEvent::Prepared { is_current: true },
            );
            let audio = (PostConnect { stage: prepared.0 }).step(
                transcription_enabled,
                PostConnectEvent::Audio { is_current: true, connection: Ok(connection) },
            );
            let kept = (PostConnect { stage: audio.0 }).step(
                transcription_enabled,
                PostConnectEvent::Checked(true),
            );
            let spoken = (PostConnect { stage: kept.0 }).step(
                transcription_enabled,
                PostConnectEvent::Attempted,
            );
            let heard = (PostConnect { stage: spoken.0 }).step(
                transcription_enabled,
                PostConnectEvent::Attempted,
            );
            &&& checked.1 is FetchMembership
            &&& fetched.1 is AskTranscription
            &&& asked.1 == PostConnectAction::PrepareModels {
                announce: on,
                stt: transcription_enabled,
            }
            &&& prepared.1 is ConnectAudio
            &&& audio.1 == PostConnectAction::KeepAudio(connection)
            &&& kept.1 is StartTts
            &&& spoken.1 is StartStt
            &&& heard.1 == PostConnectAction::Finish(PostConnectOutcome::Ready)
            &&& heard.0 is Done
            &&& checked.0 is Fetching
            &&& fetched.0 is AskingTranscription
            &&& asked.0 is Preparing
            &&& prepared.0 is ConnectingAudio
            &&& audio.0 is CheckingAgain
            &&& kept.0 is StartingTts
            &&& spoken.0 is StartingStt
        }),
{
}

/// A setup fails with the error of the audio connection, if the huddle is
/// current.
pub proof fn setups_fail_for_want_of_audio(
    setup: PostConnect,
    transcription_enabled: bool,
    error: String,
)
    requires
        setup.stage is ConnectingAudio,
    ensures
        setup.step(
            transcription_enabled,
            PostConnectEvent::Audio { is_current: true, connection: Err(error) },
        ) == (PostConnectStage::Done, PostConnectAction::Fail(error)),
{
}

/// What to do with a transcript.
#[derive(Debug, Clone, PartialEq, Eq)]
pub enum TranscriptAction {
    /// The task is over.
    End,
    /// Nothing was said.
    Skip,
    /// Post the transcript, mentioning these keys.
    Post {
        /// What was said.
        content: String,
        /// Whom to mention.
        mentions: Vec<String>,
    },
}

/// A task that posts what a speech-to-text pipeline hears.
#[derive(Debug, Clone, Copy, PartialEq, Eq)]
pub struct TranscriptionTask {
    /// Number of the task.
    pub spawned_generation: u64,
}

/// Whether `action` is what a task does with a transcript, among `agents`.
pub open spec fn transcript_handled(
    task: TranscriptionTask,
    transcript: Option<String>,
    session_generation: u64,
    agents: Seq<String>,
    action: TranscriptAction,
) -> bool {
    match transcript {
        None => action is End,
        Some(content) => if content@.len() == 0 {
            action is Skip
        } else if session_generation != task.spawned_generation {
            action is End
        } else {
            &&& action matches TranscriptAction::Post { content: posted, mentions }
            &&& posted == content
            &&& mentions@ == agents
        },
    }
}

/// Whatever is heard is posted, as it was heard and with a mention of all agents
/// of now, by the task of the current number and by no other. A task ends when its
/// pipeline is gone or, having heard something, when its number is not the
/// current one.
pub proof fn what_is_heard_is_posted(
    task: TranscriptionTask,
    transcript: Option<String>,
    session_generation: u64,
    agents: Seq<String>,
    action: TranscriptAction,
)
    requires
        transcript_handled(task, transcript, session_generation, agents, action),
    ensures
        action is Post <==> transcript is Some && transcript->Some_0@.len() > 0
            && session_generation == task.spawned_generation,
        action matches TranscriptAction::Post { content, mentions } ==> {
            &&& transcript == Some(content)
            &&& mentions@ == agents
        },
        action is End <==> transcript is None || (transcript->Some_0@.len() > 0
            && session_generation != task.spawned_generation),
{
}

impl TranscriptionTask {
    /// Begins the task of the current number.
    pub fn spawn_transcription_task(session_generation: u64) -> (task: TranscriptionTask)
        ensures
            task.spawned_generation == session_generation,
    {
        TranscriptionTask { spawned_generation: session_generation }
    }

    /// Decides what to do with a transcript; `None` if the pipeline is gone.
    ///
    /// A task whose number is not the current one any more ends with the next
    /// transcript, and posts nothing. The agents are those of now, not those of
    /// when the task began.
    pub fn on_transcript(
        &self,
        transcript: Option<String>,
        session_generation: u64,
        agent_pubkeys: &Vec<String>,
    ) -> (action: TranscriptAction)
        ensures
            transcript_handled(*self, transcript, session_generation, agent_pubkeys@, action),
            match transcript {
                None => action is End,
                Some(content) => if content@.len() == 0 {
                    action is Skip
                } else if session_generation != self.spawned_generation {
                    action is End
                } else {
                    &&& action matches TranscriptAction::Post { content: posted, mentions }
                    &&& posted == content
                    &&& mentions@ == agent_pubkeys@
                },
            },
    {
        match transcript {
            None => TranscriptAction::End,
            Some(content) => {
                if content.as_str().is_empty() {
                    return TranscriptAction::Skip;
                }
                if session_generation != self.spawned_generation {
                    return TranscriptAction::End;
                }
                TranscriptAction::Post { content, mentions: text::clone_texts(agent_pubkeys) }
            },
        }
    }
}

/// Where transcripts are posted.
pub fn events_url(relay_base_url: &str) -> (url: String)
    ensures
        url@ == relay_base_url@ + "/events"@,
{
    text::join2(relay_base_url, "/events")
}

/// How far the posting of a transcript has come.
#[derive(Debug, Clone, Copy, PartialEq, Eq)]
pub enum PostStage {
    /// The message is being built.
    Building,
    /// It waits until the relay admits requests again.
    Waiting,
    /// It is being signed.
    Signing,
    /// The request is being authorized.
    Authorizing,
    /// The request is being sent.
    Sending,
    /// Over.
    Done,
}

/// What happened to the posting of a transcript.
#[derive(Debug, PartialEq, Eq)]
pub enum PostEvent {
    /// The message was built, or could not be.
    Built(bool),
    /// The relay admits requests.
    Waited,
    /// The message was signed, as JSON, or could not be.
    Signed(Result<String, String>),
    /// The authorization of the request, or why there is none.
    Authorized(Result<String, String>),
    /// The request was answered, or failed.
    Sent,
}

/// What to do next for the posting of a transcript.
#[derive(Debug, Clone, PartialEq, Eq)]
pub enum PostAction {
    /// Wait until the relay admits requests.
    Wait,
    /// Sign the message.
    Sign,
    /// Authorize a request with this body.
    Authorize {
        /// Address.
        url: String,
        /// Body.
        body: Vec<u8>,
    },
    /// Send this request.
    Send {
        /// Address.
        url: String,
        /// Authorization.
        authorization: String,
        /// Body.
        body: Vec<u8>,
    },
    /// Go on with the next transcript.
    Next,
}

/// The value of a [`PostAction`].
pub enum PostActionView {
    Wait,
    Sign,
    Authorize { url: Seq<char>, body: Seq<u8> },
    Send { url: Seq<char>, authorization: Seq<char>, body: Seq<u8> },
    Next,
}

impl View for PostAction {
    type V = PostActionView;

    open spec fn view(&self) -> PostActionView {
        match self {
            PostAction::Wait => PostActionView::Wait,
            PostAction::Sign => PostActionView::Sign,
            PostAction::Authorize { url, body } => PostActionView::Authorize {
                url: url@,
                body: body@,
            },
            PostAction::Send { url, authorization, body } => PostActionView::Send {
                url: url@,
                authorization: authorization@,
                body: body@,
            },
            PostAction::Next => PostActionView::Next,
        }
    }
}

/// The posting of one transcript.
///
/// The relay accepts a signature and an authorization for a short time only,
/// and the wait may be long: both are made after it.
#[derive(Debug)]
pub struct Posting {
    /// Where transcripts are posted.
    pub url: String,
    /// How far the posting has come.
    pub stage: PostStage,
    /// The signed message, once there is one.
    pub body: Vec<u8>,
}

/// The value of a [`Posting`].
pub struct PostingView {
    pub url: Seq<char>,
    pub stage: PostStage,
    pub body: Seq<u8>,
}

impl View for Posting {
    type V = PostingView;

    open spec fn view(&self) -> PostingView {
        PostingView { url: self.url@, stage: self.stage, body: self.body@ }
    }
}

/// A posting at its beginning.
pub open spec fn posting_begun(relay_base_url: Seq<char>) -> PostingView {
    PostingView {
        url: relay_base_url + "/events"@,
        stage: PostStage::Building,
        body: seq![],
    }
}

/// Whether `event` can happen in `stage`.
pub open spec fn post_awaits(stage: PostStage, event: PostEvent) -> bool {
    match stage {
        PostStage::Building => event is Built,
        PostStage::Waiting => event is Waited,
        PostStage::Signing => event is Signed,
        PostStage::Authorizing => event is Authorized,
        PostStage::Sending => event is Sent,
        PostStage::Done => false,
    }
}

/// Where a posting goes on `event`, and what is done. A transcript that cannot
/// be built, signed or authorized is passed over.
pub open spec fn post_step(posting: PostingView, event: PostEvent) -> (PostingView, PostActionView) {
    let done = (PostingView { stage: PostStage::Done, ..posting }, PostActionView::Next);
    match event {
        PostEvent::Built(true) => (
            PostingView { stage: PostStage::Waiting, ..posting },
            PostActionView::Wait,
        ),
        PostEvent::Waited => (
            PostingView { stage: PostStage::Signing, ..posting },
            PostActionView::Sign,
        ),
        PostEvent::Signed(Ok(message)) => {
            let body = encode_utf8(message@);
            (
                PostingView { stage: PostStage::Authorizing, body, ..posting },
                PostActionView::Authorize { url: posting.url, body },
            )
        },
        PostEvent::Authorized(Ok(authorization)) => (
            PostingView { stage: PostStage::Sending, ..posting },
            PostActionView::Send {
                url: posting.url,
                authorization: authorization@,
                body: posting.body,
            },
        ),
        _ => done,
    }
}

impl Posting {
    /// Begins to post a transcript, whose message is to be built first.
    pub fn begin(relay_base_url: &str) -> (posting: Posting)
        ensures
            posting@ == posting_begun(relay_base_url@),
    {
        let posting = Posting {
            url: events_url(relay_base_url),
            stage: PostStage::Building,
            body: Vec::new(),
        };
        assert(posting@.body =~= seq![]);
        posting
    }

    /// Goes on after `event`.
    pub fn go_on(&mut self, event: PostEvent) -> (action: PostAction)
        requires
            post_awaits(old(self).stage, event),
        ensures
            (final(self)@, action@) == post_step(old(self)@, event),
    {
        match event {
            PostEvent::Built(true) => {
                self.stage = PostStage::Waiting;
                PostAction::Wait
            },
            PostEvent::Waited => {
                self.stage = PostStage::Signing;
                PostAction::Sign
            },
            PostEvent::Signed(Ok(message)) => {
                self.stage = PostStage::Authorizing;
                self.body = vstd::slice::slice_to_vec(message.as_str().as_bytes());
                PostAction::Authorize {
                    url: self.url.clone(),
                    body: vstd::slice::slice_to_vec(self.body.as_slice()),
                }
            },
            PostEvent::Authorized(Ok(authorization)) => {
                self.stage = PostStage::Sending;
                PostAction::Send {
                    url: self.url.clone(),
                    authorization,
                    body: vstd::slice::slice_to_vec(self.body.as_slice()),
                }
            },
            _ => {
                self.stage = PostStage::Done;
                PostAction::Next
            },
        }
    }
}

/// A transcript that can be built, signed and authorized is sent: its message, to
/// the events of the relay, after the wait and then signature and authorization.
/// Whatever the answer is, the next transcript follows.
pub proof fn transcripts_are_sent(relay_base_url: Seq<char>, message: String, authorization: String)
    ensures
        ({
            let built = post_step(posting_begun(relay_base_url), PostEvent::Built(true));
            let waited = post_step(built.0, PostEvent::Waited);
            let signed = post_step(waited.0, PostEvent::Signed(Ok(message)));
            let authorized = post_step(signed.0, PostEvent::Authorized(Ok(authorization)));
            let sent = post_step(authorized.0, PostEvent::Sent);
            &&& built.1 is Wait
            &&& built.0.stage is Waiting
            &&& waited.1 is Sign
            &&& waited.0.stage is Signing
            &&& signed.0.stage is Authorizing
            &&& authorized.0.stage is Sending
            &&& signed.1 == PostActionView::Authorize {
                url: relay_base_url + "/events"@,
                body: encode_utf8(message@),
            }
            &&& authorized.1 == PostActionView::Send {
                url: relay_base_url + "/events"@,
                authorization: authorization@,
                body: encode_utf8(message@),
            }
            &&& sent.1 is Next
            &&& sent.0.stage is Done
        }),
{
}

/// A transcript that cannot be built, signed or authorized is passed over: nothing
/// is sent, and the next one follows.
pub proof fn failed_transcripts_are_passed_over(posting: PostingView, error: String)
    ensures
        post_step(posting, PostEvent::Built(false)).1 is Next,
        post_step(posting, PostEvent::Built(false)).0.stage is Done,
        post_step(posting, PostEvent::Signed(Err(error))).1 is Next,
        post_step(posting, PostEvent::Signed(Err(error))).0.stage is Done,
        post_step(posting, PostEvent::Authorized(Err(error))).1 is Next,
        post_step(posting, PostEvent::Authorized(Err(error))).0.stage is Done,
{
}

/// A posting after `events`, and what was done last.
pub open spec fn posting_after(posting: PostingView, events: Seq<PostEvent>) -> (
    PostingView,
    PostActionView,
)
    decreases events.len(),
{
    if events.len() == 0 {
        (posting, PostActionView::Next)
    } else {
        post_step(posting_after(posting, events.drop_last()).0, events.last())
    }
}

/// Whether `events` can happen, one after the other, to a posting.
pub open spec fn posting_allows(posting: PostingView, events: Seq<PostEvent>) -> bool
    decreases events.len(),
{
    events.len() == 0 || {
        &&& posting_allows(posting, events.drop_last())
        &&& post_awaits(posting_after(posting, events.drop_last()).0.stage, events.last())
    }
}

/// What is known of a posting by its stage: which events led to it.
spec fn led_to(events: Seq<PostEvent>, at: PostingView) -> bool {
    match at.stage {
        PostStage::Building => events.len() == 0,
        PostStage::Waiting => events.len() == 1 && events[0] == PostEvent::Built(true),
        PostStage::Signing => {
            &&& events.len() == 2
            &&& events[0] == PostEvent::Built(true)
            &&& events[1] is Waited
        },
        PostStage::Authorizing => {
            &&& events.len() == 3
            &&& events[0] == PostEvent::Built(true)
            &&& events[1] is Waited
            &&& events[2] matches PostEvent::Signed(Ok(message))
            &&& at.body == encode_utf8(message@)
        },
        PostStage::Sending => {
            &&& events.len() == 4
            &&& events[0] == PostEvent::Built(true)
            &&& events[1] is Waited
            &&& events[2] matches PostEvent::Signed(Ok(message))
            &&& at.body == encode_utf8(message@)
            &&& events[3] matches PostEvent::Authorized(Ok(_))
        },
        PostStage::Done => true,
    }
}

proof fn lemma_led_to(relay_base_url: Seq<char>, events: Seq<PostEvent>)
    requires
        posting_allows(posting_begun(relay_base_url), events),
    ensures
        led_to(events, posting_after(posting_begun(relay_base_url), events).0),
        posting_after(posting_begun(relay_base_url), events).0.url == relay_base_url + "/events"@,
    decreases events.len(),
{
    if events.len() > 0 {
        let before = events.drop_last();
        lemma_led_to(relay_base_url, before);
        assert(forall|i: int| 0 <= i < before.len() ==> before[i] == events[i]);
    }
}

/// A transcript is sent only after the wait was over, with a signature and an
/// authorization that were made after it, in this order. What is sent is the
/// signed message, and it is authorized as it is sent.
pub proof fn posts_are_signed_after_the_wait(relay_base_url: Seq<char>, events: Seq<PostEvent>)
    requires
        posting_allows(posting_begun(relay_base_url), events),
        posting_after(posting_begun(relay_base_url), events).1 is Send,
    ensures
        events.len() == 4,
        events[0] == PostEvent::Built(true),
        events[1] is Waited,
        events[2] matches PostEvent::Signed(Ok(_)),
        events[3] matches PostEvent::Authorized(Ok(_)),
        posting_after(posting_begun(relay_base_url), events).1 == (PostActionView::Send {
            url: relay_base_url + "/events"@,
            authorization: events[3]->Authorized_0->Ok_0@,
            body: encode_utf8(events[2]->Signed_0->Ok_0@),
        }),
        posting_after(posting_begun(relay_base_url), events.drop_last()).1 == (
        PostActionView::Authorize {
            url: relay_base_url + "/events"@,
            body: encode_utf8(events[2]->Signed_0->Ok_0@),
        }),
{
    let before = events.drop_last();
    lemma_led_to(relay_base_url, events);
    lemma_led_to(relay_base_url, before);
    lemma_led_to(relay_base_url, before.drop_last());
    assert(before.last() == events[2]);
}

/// A transcription task that was begun before a construction replaced its
/// pipeline is stale afterwards.
pub proof fn replaced_tasks_are_stale(before: SttView, task: TranscriptionTask)
    requires
        before.pipeline is Some,
        task.spawned_generation == before.session_generation,
    ensures
        task.spawned_generation != stt_claimed(before).session_generation,
{
}

}
