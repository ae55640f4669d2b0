//! Owner-authorized, restart-applied configuration overrides.

use vstd::prelude::*;
use vstd::string::*;

use crate::identifiers;
use crate::text;

verus! {

/// Longest system prompt, in bytes.
pub const MAX_PROMPT_BYTES: usize = 65_536;

/// What begins a configuration command.
pub const COMMAND_PREFIX: &'static str = "!config ";

/// File extension under which a configuration is written before it replaces the
/// stored one, so that a restart never observes a part of it.
pub const TEMP_EXTENSION: &'static str = "tmp";

/// Permissions of a stored configuration.
pub const FILE_MODE: u32 = 0o600;

/// Whom an agent responds to.
#[derive(Debug, Clone, PartialEq, Eq)]
pub enum RespondTo {
    /// Its owner.
    OwnerOnly,
    /// The keys of an allowlist.
    Allowlist,
    /// Others, by the name of the mode.
    Other(String),
}

/// The only settings that an owner may change through a signed direct message.
///
/// Credentials, executable paths and environment variables deliberately have no
/// representation here.
#[derive(Debug, Clone, PartialEq, Eq)]
pub struct RemoteConfig {
    /// System prompt.
    pub system_prompt: Option<String>,
    /// Model name.
    pub model: Option<String>,
    /// Whom the agent responds to.
    pub respond_to: Option<RespondTo>,
    /// Keys that the agent responds to, in hexadecimal.
    pub respond_to_allowlist: Option<Vec<String>>,
    /// Channels, as UUIDs.
    pub channels: Option<Vec<String>>,
    /// Number of agents.
    pub agents: Option<u32>,
    /// Seconds without activity that end a turn.
    pub idle_timeout_secs: Option<u64>,
    /// Longest turn, in seconds.
    pub max_turn_duration_secs: Option<u64>,
}

/// Whether `model` is a model name.
pub open spec fn valid_model(model: Seq<char>) -> bool {
    text::utf8_len(model) <= 256 && text::trimmed(model).len() > 0
}

/// Whether `key` is a public key in hexadecimal.
pub open spec fn valid_pubkey(key: Seq<char>) -> bool {
    text::utf8_len(key) == 64 && identifiers::is_hex(key)
}

/// The elements of an optional list.
pub open spec fn entries(list: Option<Vec<String>>) -> Seq<Seq<char>> {
    match list {
        Some(list) => text::texts(list@),
        None => seq![],
    }
}

/// The first channel that is no UUID.
pub open spec fn first_bad_channel(channels: Seq<Seq<char>>) -> Option<Seq<char>>
    decreases channels.len(),
{
    if channels.len() == 0 {
        None
    } else if !identifiers::is_uuid_text(channels[0]) {
        Some(channels[0])
    } else {
        first_bad_channel(channels.drop_first())
    }
}

/// The first entry that is no public key.
pub open spec fn first_bad_pubkey(keys: Seq<Seq<char>>) -> Option<Seq<char>>
    decreases keys.len(),
{
    if keys.len() == 0 {
        None
    } else if !valid_pubkey(keys[0]) {
        Some(keys[0])
    } else {
        first_bad_pubkey(keys.drop_first())
    }
}

/// What is wrong with a configuration, if anything is.
pub open spec fn config_error(config: RemoteConfig) -> Option<Seq<char>> {
    let allowlisted = config.respond_to matches Some(mode) && mode is Allowlist;
    let bad_channel = first_bad_channel(entries(config.channels));
    let bad_pubkey = first_bad_pubkey(entries(config.respond_to_allowlist));
    if config.system_prompt matches Some(prompt) && text::utf8_len(prompt@) > MAX_PROMPT_BYTES {
        Some("system_prompt exceeds "@ + text::decimal(MAX_PROMPT_BYTES as nat) + " bytes"@)
    } else if config.model matches Some(model) && !valid_model(model@) {
        Some("model must be 1 to 256 bytes"@)
    } else if config.agents matches Some(agents) && !(1 <= agents <= 32) {
        Some("agents must be between 1 and 32"@)
    } else if config.idle_timeout_secs == Some(0u64) {
        Some("idle_timeout_secs must be positive"@)
    } else if config.max_turn_duration_secs matches Some(max) && !(60 <= max <= 604_800) {
        Some("max_turn_duration_secs must be between 60 and 604800"@)
    } else if config.idle_timeout_secs matches Some(idle) && config.max_turn_duration_secs matches Some(
        max,
    ) && idle >= max {
        Some("idle_timeout_secs must be less than max_turn_duration_secs"@)
    } else if !allowlisted && config.respond_to_allowlist is Some {
        Some("respond_to_allowlist requires respond_to=allowlist"@)
    } else if allowlisted && entries(config.respond_to_allowlist).len() == 0 {
        Some("respond_to=allowlist requires a non-empty respond_to_allowlist"@)
    } else if bad_channel is Some {
        Some("invalid channel UUID '"@ + bad_channel->Some_0 + "'"@)
    } else if bad_pubkey is Some {
        Some("invalid allowlist pubkey '"@ + bad_pubkey->Some_0 + "'"@)
    } else {
        None
    }
}

proof fn lemma_channels(channels: Seq<Seq<char>>, i: int)
    requires
        first_bad_channel(channels) is None,
        0 <= i < channels.len(),
    ensures
        identifiers::is_uuid_text(channels[i]),
    decreases channels.len(),
{
    if i > 0 {
        lemma_channels(channels.drop_first(), i - 1);
    }
}

proof fn lemma_pubkeys(keys: Seq<Seq<char>>, i: int)
    requires
        first_bad_pubkey(keys) is None,
        0 <= i < keys.len(),
    ensures
        valid_pubkey(keys[i]),
    decreases keys.len(),
{
    if i > 0 {
        lemma_pubkeys(keys.drop_first(), i - 1);
    }
}

/// A configuration that passes keeps every bound: of the prompt, the model, the
/// number of agents and the times. Its channels are UUIDs, and it has an
/// allowlist, of public keys, exactly if it responds to one.
pub proof fn accepted_settings_are_bounded(config: RemoteConfig)
    requires
        config_error(config) is None,
    ensures
        config.system_prompt matches Some(prompt) ==> text::utf8_len(prompt@) <= MAX_PROMPT_BYTES,
        config.model matches Some(model) ==> valid_model(model@),
        config.agents matches Some(agents) ==> 1 <= agents <= 32,
        config.idle_timeout_secs matches Some(idle) ==> idle > 0,
        config.max_turn_duration_secs matches Some(max) ==> 60 <= max <= 604_800,
        config.idle_timeout_secs is Some && config.max_turn_duration_secs is Some
            ==> config.idle_timeout_secs->Some_0 < config.max_turn_duration_secs->Some_0,
        config.respond_to == Some(RespondTo::Allowlist) <==> config.respond_to_allowlist is Some,
        config.respond_to == Some(RespondTo::Allowlist) ==> entries(
            config.respond_to_allowlist,
        ).len() > 0,
        forall|i: int|
            0 <= i < entries(config.channels).len() ==> identifiers::is_uuid_text(
                #[trigger] entries(config.channels)[i],
            ),
        forall|i: int|
            0 <= i < entries(config.respond_to_allowlist).len() ==> valid_pubkey(
                #[trigger] entries(config.respond_to_allowlist)[i],
            ),
{
    assert forall|i: int| 0 <= i < entries(config.channels).len() implies identifiers::is_uuid_text(
        #[trigger] entries(config.channels)[i],
    ) by {
        lemma_channels(entries(config.channels), i);
    }
    assert forall|i: int|
        0 <= i < entries(config.respond_to_allowlist).len() implies valid_pubkey(
        #[trigger] entries(config.respond_to_allowlist)[i],
    ) by {
        lemma_pubkeys(entries(config.respond_to_allowlist), i);
    }
}

/// Whether every setting that is given keeps its own bound, and those that
/// depend on each other agree.
///
/// A prompt has up to 65536 bytes, a model 1 to 256 and not only white space;
/// there are 1 to 32 agents; an idle timeout is positive, a turn lasts from a
/// minute to a week, and an idle timeout is shorter than a turn where both are
/// given. Channels are UUIDs. There is an allowlist, not empty and of public keys
/// of 64 hexadecimal digits, exactly if the mode is to respond to one.
pub open spec fn keeps_its_bounds(config: RemoteConfig) -> bool {
    &&& config.system_prompt matches Some(prompt) ==> text::utf8_len(prompt@) <= 65_536
    &&& config.model matches Some(model) ==> {
        &&& text::utf8_len(model@) <= 256
        &&& exists|k: int| 0 <= k < model@.len() && !text::is_white_space(#[trigger] model@[k])
    }
    &&& config.agents matches Some(agents) ==> 1 <= agents <= 32
    &&& config.idle_timeout_secs matches Some(idle) ==> idle > 0
    &&& config.max_turn_duration_secs matches Some(max) ==> 60 <= max <= 604_800
    &&& config.idle_timeout_secs matches Some(idle) ==> config.max_turn_duration_secs matches Some(
        max,
    ) ==> idle < max
    &&& config.channels matches Some(channels) ==> forall|i: int|
        0 <= i < channels@.len() ==> identifiers::is_uuid_text((#[trigger] channels@[i])@)
    &&& match config.respond_to {
        Some(RespondTo::Allowlist) => {
            &&& config.respond_to_allowlist matches Some(keys)
            &&& keys@.len() > 0
            &&& forall|i: int|
                0 <= i < keys@.len() ==> {
                    &&& text::utf8_len((#[trigger] keys@[i])@) == 64
                    &&& forall|k: int|
                        0 <= k < keys@[i]@.len() ==> text::is_hex_digit(#[trigger] keys@[i]@[k])
                }
        },
        _ => config.respond_to_allowlist is None,
    }
}

/// A configuration is accepted exactly if every setting that is given keeps its
/// bound: nothing else is refused, and nothing else is let through. What is not
/// given is not asked for.
pub proof fn settings_within_bounds_are_accepted(config: RemoteConfig)
    ensures
        config_error(config) is None <==> keeps_its_bounds(config),
{
    if let Some(model) = config.model {
        text::white_space_is_trimmed_away(model@);
    }
    let channels = entries(config.channels);
    let keys = entries(config.respond_to_allowlist);
    lemma_first_bad_channel(channels);
    lemma_first_bad_pubkey(keys);
    if let Some(list) = config.channels {
        assert forall|i: int| 0 <= i < list@.len() implies channels[i] == (
        #[trigger] list@[i])@ by {}
        if keeps_its_bounds(config) {
            assert forall|i: int| 0 <= i < channels.len() implies identifiers::is_uuid_text(
                #[trigger] channels[i],
            ) by {
                assert(identifiers::is_uuid_text(list@[i]@));
            }
        }
        if first_bad_channel(channels) is None {
            assert forall|i: int| 0 <= i < list@.len() implies identifiers::is_uuid_text(
                (#[trigger] list@[i])@,
            ) by {
                assert(identifiers::is_uuid_text(channels[i]));
            }
        }
    }
    if let Some(list) = config.respond_to_allowlist {
        assert forall|i: int| 0 <= i < list@.len() implies keys[i] == (#[trigger] list@[i])@ by {}
        if keeps_its_bounds(config) {
            assert forall|i: int| 0 <= i < keys.len() implies valid_pubkey(
                #[trigger] keys[i],
            ) by {
                assert(text::utf8_len(list@[i]@) == 64);
            }
        }
        if first_bad_pubkey(keys) is None {
            assert forall|i: int| 0 <= i < list@.len() implies valid_pubkey(
                (#[trigger] list@[i])@,
            ) by {
                assert(valid_pubkey(keys[i]));
            }
        }
    }
}

proof fn lemma_first_bad_channel(channels: Seq<Seq<char>>)
    ensures
        first_bad_channel(channels) is None <==> forall|i: int|
            0 <= i < channels.len() ==> identifiers::is_uuid_text(#[trigger] channels[i]),
    decreases channels.len(),
{
    if channels.len() > 0 {
        let rest = channels.drop_first();
        lemma_first_bad_channel(rest);
        assert forall|i: int| 0 < i < channels.len() implies channels[i] == #[trigger] rest[i
            - 1] by {}
        if forall|i: int|
            0 <= i < channels.len() ==> identifiers::is_uuid_text(#[trigger] channels[i]) {
            assert forall|i: int| 0 <= i < rest.len() implies identifiers::is_uuid_text(
                #[trigger] rest[i],
            ) by {
                assert(identifiers::is_uuid_text(channels[i + 1]));
            }
        }
        if first_bad_channel(channels) is None {
            assert forall|i: int| 0 <= i < channels.len() implies identifiers::is_uuid_text(
                #[trigger] channels[i],
            ) by {
                if i > 0 {
                    assert(identifiers::is_uuid_text(rest[i - 1]));
                }
            }
        }
    }
}

proof fn lemma_first_bad_pubkey(keys: Seq<Seq<char>>)
    ensures
        first_bad_pubkey(keys) is None <==> forall|i: int|
            0 <= i < keys.len() ==> valid_pubkey(#[trigger] keys[i]),
    decreases keys.len(),
{
    if keys.len() > 0 {
        let rest = keys.drop_first();
        lemma_first_bad_pubkey(rest);
        if forall|i: int| 0 <= i < keys.len() ==> valid_pubkey(#[trigger] keys[i]) {
            assert forall|i: int| 0 <= i < rest.len() implies valid_pubkey(#[trigger] rest[i]) by {
                assert(valid_pubkey(keys[i + 1]));
            }
        }
        if first_bad_pubkey(keys) is None {
            assert forall|i: int| 0 <= i < keys.len() implies valid_pubkey(#[trigger] keys[i]) by {
                if i > 0 {
                    assert(valid_pubkey(rest[i - 1]));
                }
            }
        }
    }
}

/// A configuration that breaks one bound alone is refused with the message of
/// that bound, with the numbers and the entry that it is about.
pub proof fn refusals_name_the_setting(config: RemoteConfig, fixed: RemoteConfig)
    requires
        !keeps_its_bounds(config),
        keeps_its_bounds(fixed),
    ensures
        fixed == (RemoteConfig { system_prompt: fixed.system_prompt, ..config }) ==> config_error(
            config,
        ) == Some("system_prompt exceeds "@ + text::decimal(65_536) + " bytes"@),
        fixed == (RemoteConfig { model: fixed.model, ..config }) ==> config_error(config) == Some(
            "model must be 1 to 256 bytes"@,
        ),
        fixed == (RemoteConfig { agents: fixed.agents, ..config }) ==> config_error(config) == Some(
            "agents must be between 1 and 32"@,
        ),
        fixed == (RemoteConfig { idle_timeout_secs: fixed.idle_timeout_secs, ..config }) ==> {
            ||| config_error(config) == Some("idle_timeout_secs must be positive"@)
            ||| config_error(config) == Some(
                "idle_timeout_secs must be less than max_turn_duration_secs"@,
            )
        },
        fixed == (RemoteConfig { max_turn_duration_secs: fixed.max_turn_duration_secs, ..config })
            ==> {
            ||| config_error(config) == Some(
                "max_turn_duration_secs must be between 60 and 604800"@,
            )
            ||| config_error(config) == Some(
                "idle_timeout_secs must be less than max_turn_duration_secs"@,
            )
        },
        fixed == (RemoteConfig { channels: fixed.channels, ..config }) ==> exists|i: int|
            {
                &&& 0 <= i < entries(config.channels).len()
                &&& !identifiers::is_uuid_text(#[trigger] entries(config.channels)[i])
                &&& config_error(config) == Some(
                    "invalid channel UUID '"@ + entries(config.channels)[i] + "'"@,
                )
            },
{
    settings_within_bounds_are_accepted(config);
    settings_within_bounds_are_accepted(fixed);
    if first_bad_channel(entries(config.channels)) is Some {
        lemma_bad_channel_is_listed(entries(config.channels));
    }
}

/// Of several broken bounds the first is reported: those of the prompt, the model,
/// the number of agents, the idle timeout, the turn, both times together, the
/// allowlist, the channels and the keys, in this order. Of several channels or
/// keys that are none, the first is named.
pub proof fn the_first_broken_bound_is_reported(config: RemoteConfig)
    ensures
        ({
            let error = config_error(config);
            let prompt = config.system_prompt is None || text::utf8_len(
                config.system_prompt->Some_0@,
            ) <= 65_536;
            let model = config.model is None || (text::utf8_len(config.model->Some_0@) <= 256
                && text::trimmed(config.model->Some_0@).len() > 0);
            let agents = config.agents is None || 1 <= config.agents->Some_0 <= 32;
            let idle = config.idle_timeout_secs is None || config.idle_timeout_secs->Some_0 > 0;
            let turn = config.max_turn_duration_secs is None || 60
                <= config.max_turn_duration_secs->Some_0 <= 604_800;
            let times = config.idle_timeout_secs is None || config.max_turn_duration_secs is None
                || config.idle_timeout_secs->Some_0 < config.max_turn_duration_secs->Some_0;
            let wanted = config.respond_to is Some && config.respond_to->Some_0 is Allowlist;
            let unasked = !wanted && config.respond_to_allowlist is Some;
            let keys = entries(config.respond_to_allowlist);
            let channels = entries(config.channels);
            let single = prompt && model && agents && idle && turn && times;
            &&& !prompt ==> error == Some(
                "system_prompt exceeds "@ + text::decimal(65_536) + " bytes"@,
            )
            &&& prompt && !model ==> error == Some("model must be 1 to 256 bytes"@)
            &&& prompt && model && !agents ==> error == Some("agents must be between 1 and 32"@)
            &&& prompt && model && agents && !idle ==> error == Some(
                "idle_timeout_secs must be positive"@,
            )
            &&& prompt && model && agents && idle && !turn ==> error == Some(
                "max_turn_duration_secs must be between 60 and 604800"@,
            )
            &&& prompt && model && agents && idle && turn && !times ==> error == Some(
                "idle_timeout_secs must be less than max_turn_duration_secs"@,
            )
            &&& single && unasked ==> error == Some(
                "respond_to_allowlist requires respond_to=allowlist"@,
            )
            &&& single && wanted && keys.len() == 0 ==> error == Some(
                "respond_to=allowlist requires a non-empty respond_to_allowlist"@,
            )
            &&& single && !unasked && (wanted ==> keys.len() > 0) ==> {
                &&& forall|i: int|
                    0 <= i < channels.len() && !identifiers::is_uuid_text(#[trigger] channels[i])
                        && (forall|j: int|
                        0 <= j < i ==> identifiers::is_uuid_text(#[trigger] channels[j]))
                        ==> error == Some("invalid channel UUID '"@ + channels[i] + "'"@)
                &&& (forall|j: int|
                    0 <= j < channels.len() ==> identifiers::is_uuid_text(#[trigger] channels[j]))
                    ==> forall|i: int|
                    0 <= i < keys.len() && !valid_pubkey(#[trigger] keys[i]) && (forall|j: int|
                        0 <= j < i ==> valid_pubkey(#[trigger] keys[j])) ==> error == Some(
                        "invalid allowlist pubkey '"@ + keys[i] + "'"@,
                    )
            }
        }),
{
    let keys = entries(config.respond_to_allowlist);
    let channels = entries(config.channels);
    lemma_first_bad_channel(channels);
    assert forall|i: int|
        0 <= i < channels.len() && !identifiers::is_uuid_text(#[trigger] channels[i]) && (forall|
            j: int,
        |
            0 <= j < i ==> identifiers::is_uuid_text(#[trigger] channels[j])) implies first_bad_channel(
        channels,
    ) == Some(channels[i]) by {
        lemma_first_channel(channels, i);
    }
    assert forall|i: int|
        0 <= i < keys.len() && !valid_pubkey(#[trigger] keys[i]) && (forall|j: int|
            0 <= j < i ==> valid_pubkey(#[trigger] keys[j])) implies first_bad_pubkey(keys) == Some(
        keys[i],
    ) by {
        lemma_first_pubkey(keys, i);
    }
}

proof fn lemma_first_channel(channels: Seq<Seq<char>>, i: int)
    requires
        0 <= i < channels.len(),
        !identifiers::is_uuid_text(channels[i]),
        forall|j: int| 0 <= j < i ==> identifiers::is_uuid_text(#[trigger] channels[j]),
    ensures
        first_bad_channel(channels) == Some(channels[i]),
    decreases channels.len(),
{
    if i > 0 {
        let rest = channels.drop_first();
        assert(identifiers::is_uuid_text(channels[0]));
        assert forall|j: int| 0 <= j < i - 1 implies identifiers::is_uuid_text(
            #[trigger] rest[j],
        ) by {
            assert(identifiers::is_uuid_text(channels[j + 1]));
        }
        lemma_first_channel(rest, i - 1);
    }
}

proof fn lemma_first_pubkey(keys: Seq<Seq<char>>, i: int)
    requires
        0 <= i < keys.len(),
        !valid_pubkey(keys[i]),
        forall|j: int| 0 <= j < i ==> valid_pubkey(#[trigger] keys[j]),
    ensures
        first_bad_pubkey(keys) == Some(keys[i]),
    decreases keys.len(),
{
    if i > 0 {
        let rest = keys.drop_first();
        assert(valid_pubkey(keys[0]));
        assert forall|j: int| 0 <= j < i - 1 implies valid_pubkey(#[trigger] rest[j]) by {
            assert(valid_pubkey(keys[j + 1]));
        }
        lemma_first_pubkey(rest, i - 1);
    }
}

proof fn lemma_bad_channel_is_listed(channels: Seq<Seq<char>>) -> (i: int)
    requires
        first_bad_channel(channels) is Some,
    ensures
        0 <= i < channels.len(),
        !identifiers::is_uuid_text(channels[i]),
        first_bad_channel(channels) == Some(channels[i]),
    decreases channels.len(),
{
    if !identifiers::is_uuid_text(channels[0]) {
        0
    } else {
        let i = lemma_bad_channel_is_listed(channels.drop_first());
        assert(channels.drop_first()[i] == channels[i + 1]);
        i + 1
    }
}

fn check_channels(channels: &Vec<String>) -> (result: Result<(), String>)
    ensures
        match result {
            Ok(_) => first_bad_channel(text::texts(channels@)) is None,
            Err(error) => first_bad_channel(text::texts(channels@)) matches Some(channel)
                && error@ == "invalid channel UUID '"@ + channel + "'"@,
        },
{
    let ghost all = text::texts(channels@);
    assert(all.skip(0) =~= all);
    let mut i: usize = 0;
    while i < channels.len()
        invariant
            i <= channels.len(),
            all == text::texts(channels@),
            first_bad_channel(all.skip(i as int)) == first_bad_channel(all),
        decreases channels.len() - i,
    {
        assert(all.skip(i as int)[0] == channels@[i as int]@);
        assert(all.skip(i as int).drop_first() =~= all.skip(i + 1));
        let channel = channels[i].as_str();
        if !identifiers::parses_as_uuid(channel) {
            return Err(text::join3("invalid channel UUID '", channel, "'"));
        }
        i += 1;
    }
    Ok(())
}

fn check_pubkeys(keys: &Vec<String>) -> (result: Result<(), String>)
    ensures
        match result {
            Ok(_) => first_bad_pubkey(text::texts(keys@)) is None,
            Err(error) => first_bad_pubkey(text::texts(keys@)) matches Some(key) && error@
                == "invalid allowlist pubkey '"@ + key + "'"@,
        },
{
    let ghost all = text::texts(keys@);
    assert(all.skip(0) =~= all);
    let mut i: usize = 0;
    while i < keys.len()
        invariant
            i <= keys.len(),
            all == text::texts(keys@),
            first_bad_pubkey(all.skip(i as int)) == first_bad_pubkey(all),
        decreases keys.len() - i,
    {
        assert(all.skip(i as int)[0] == keys@[i as int]@);
        assert(all.skip(i as int).drop_first() =~= all.skip(i + 1));
        let key = keys[i].as_str();
        if text::byte_len(key) != 64 || !text::all_hex_digits(key) {
            return Err(text::join3("invalid allowlist pubkey '", key, "'"));
        }
        i += 1;
    }
    Ok(())
}

impl RemoteConfig {
    /// Checks the bounds of every setting. The first that is violated is
    /// reported.
    pub fn validate(&self) -> (result: Result<(), String>)
        ensures
            match result {
                Ok(_) => config_error(*self) is None,
                Err(error) => config_error(*self) == Some(error@),
            },
    {
        if let Some(prompt) = &self.system_prompt {
            if text::byte_len(prompt.as_str()) > MAX_PROMPT_BYTES {
                let limit = text::decimal_text(MAX_PROMPT_BYTES as u64);
                return Err(text::join3("system_prompt exceeds ", limit.as_str(), " bytes"));
            }
        }
        if let Some(model) = &self.model {
            if text::byte_len(model.as_str()) > 256 || text::trim(model.as_str()).is_empty() {
                return Err("model must be 1 to 256 bytes".to_owned());
            }
        }
        if let Some(agents) = self.agents {
            if agents < 1 || agents > 32 {
                return Err("agents must be between 1 and 32".to_owned());
            }
        }
        if let Some(idle) = self.idle_timeout_secs {
            if idle == 0 {
                return Err("idle_timeout_secs must be positive".to_owned());
            }
        }
        if let Some(max) = self.max_turn_duration_secs {
            if max < 60 || max > 604_800 {
                return Err("max_turn_duration_secs must be between 60 and 604800".to_owned());
            }
            if let Some(idle) = self.idle_timeout_secs {
                if idle >= max {
                    return Err(
                        "idle_timeout_secs must be less than max_turn_duration_secs".to_owned(),
                    );
                }
            }
        }
        let allowlisted = match &self.respond_to {
            Some(RespondTo::Allowlist) => true,
            _ => false,
        };
        if !allowlisted && self.respond_to_allowlist.is_some() {
            return Err("respond_to_allowlist requires respond_to=allowlist".to_owned());
        }
        let listed: usize = match &self.respond_to_allowlist {
            Some(keys) => keys.len(),
            None => 0,
        };
        if allowlisted && listed == 0 {
            return Err(
                "respond_to=allowlist requires a non-empty respond_to_allowlist".to_owned(),
            );
        }
        if let Some(channels) = &self.channels {
            match check_channels(channels) {
                Ok(_) => {},
                Err(error) => {
                    return Err(error);
                },
            }
        }
        if let Some(keys) = &self.respond_to_allowlist {
            match check_pubkeys(keys) {
                Ok(_) => {},
                Err(error) => {
                    return Err(error);
                },
            }
        }
        Ok(())
    }
}

/// What is said of a message that is no configuration command.
pub const NOT_A_COMMAND: &'static str = "expected '!config' followed by a JSON object";

/// The JSON text of a configuration command.
pub open spec fn command_json(content: Seq<char>) -> Option<Seq<char>> {
    let command = text::trimmed(content);
    if text::has_prefix(command, COMMAND_PREFIX@) {
        Some(text::after_prefix(command, COMMAND_PREFIX@))
    } else {
        None
    }
}

/// A command is the prefix, behind which everything up to the white space at the
/// end is the JSON; what does not begin with the prefix is none.
pub proof fn commands_are_the_prefix_and_json(json: Seq<char>, content: Seq<char>)
    ensures
        text::trimmed(json) == json && json.len() > 0 ==> command_json("!config "@ + json) == Some(
            json,
        ),
        command_json(content) matches Some(payload) ==> text::trimmed(content) == "!config "@
            + payload,
        command_json(content) is None ==> forall|payload: Seq<char>|
            text::trimmed(content) != #[trigger] ("!config "@ + payload),
{
    reveal_strlit("!config ");
    let prefix = "!config "@;
    let command = text::trimmed(content);
    if text::has_prefix(command, prefix) {
        assert(command =~= prefix + command.skip(prefix.len() as int));
    } else {
        assert forall|payload: Seq<char>| command != #[trigger] (prefix + payload) by {
            if command == prefix + payload {
                assert(command.take(prefix.len() as int) =~= prefix);
            }
        }
    }
    if text::trimmed(json) == json && json.len() > 0 {
        let all = prefix + json;
        text::trimming_is_idempotent(json);
        assert(all[0] == '!');
        assert(all.last() == json.last());
        assert(!text::is_white_space(all[0]) && !text::is_white_space(all.last()));
        assert(text::trimmed_start(all) == all);
        assert(text::trimmed(all) == all);
        assert(all.take(prefix.len() as int) =~= prefix);
        assert(all.skip(prefix.len() as int) =~= json);
    }
}

/// White space around a command changes nothing: a text and its trimmed form are
/// the same command.
pub proof fn white_space_changes_no_command(content: Seq<char>)
    ensures
        command_json(text::trimmed(content)) == command_json(content),
{
    text::trimming_is_idempotent(content);
}

/// The JSON text of a configuration command.
pub fn command_payload<'a>(content: &'a str) -> (json: Result<&'a str, String>)
    ensures
        match json {
            Ok(json) => command_json(content@) == Some(json@),
            Err(error) => command_json(content@) is None && error@ == NOT_A_COMMAND@,
        },
{
    match text::strip_prefix(text::trim(content), COMMAND_PREFIX) {
        Some(json) => Ok(json),
        None => Err(NOT_A_COMMAND.to_owned()),
    }
}

/// Whether `result` is `decoded` with its bounds checked.
pub open spec fn bounded(
    decoded: Result<RemoteConfig, String>,
    result: Result<RemoteConfig, String>,
) -> bool {
    match decoded {
        Ok(config) => match config_error(config) {
            None => result == Ok::<RemoteConfig, String>(config),
            Some(reason) => result matches Err(error) && error@ == reason,
        },
        Err(error) => result == Err::<RemoteConfig, String>(error),
    }
}

/// A configuration that was decoded and keeps its bounds is accepted as it is, and
/// no other is; what could not be decoded is refused for that reason.
pub proof fn decoded_settings_are_accepted_as_they_are(
    decoded: Result<RemoteConfig, String>,
    result: Result<RemoteConfig, String>,
)
    requires
        bounded(decoded, result),
    ensures
        result is Ok <==> decoded is Ok && keeps_its_bounds(decoded->Ok_0),
        result is Ok ==> result == decoded,
        decoded is Err ==> result == decoded,
        decoded is Ok && result is Err ==> config_error(decoded->Ok_0) == Some(result->Err_0@),
{
    if let Ok(config) = decoded {
        settings_within_bounds_are_accepted(config);
    }
}

/// Accepts a decoded configuration if it keeps its bounds.
pub fn accept_decoded(decoded: Result<RemoteConfig, String>) -> (result: Result<
    RemoteConfig,
    String,
>)
    ensures
        bounded(decoded, result),
{
    match decoded {
        Ok(config) => match config.validate() {
            Ok(_) => Ok(config),
            Err(error) => Err(error),
        },
        Err(error) => Err(error),
    }
}

/// What a stored configuration turned out to be.
#[derive(Debug, PartialEq, Eq)]
pub enum StoredConfig {
    /// There is none.
    Missing,
    /// It could not be read.
    Unreadable(String),
    /// It was read and decoded, or not.
    Read(Result<RemoteConfig, String>),
}

/// Why a stored configuration was not loaded.
#[derive(Debug, PartialEq, Eq)]
pub enum LoadError {
    /// What it says does not do.
    ConfigFile(String),
    /// It could not be read.
    Io(String),
}

/// Whether `result` is what loading a stored configuration gives.
pub open spec fn loaded(
    stored: StoredConfig,
    path: Seq<char>,
    result: Result<Option<RemoteConfig>, LoadError>,
) -> bool {
    match stored {
        StoredConfig::Missing => result == Ok::<Option<RemoteConfig>, LoadError>(None),
        StoredConfig::Unreadable(error) => result == Err::<Option<RemoteConfig>, LoadError>(
            LoadError::Io(error),
        ),
        StoredConfig::Read(Err(reason)) => {
            &&& result matches Err(LoadError::ConfigFile(error))
            &&& error@ == "invalid remote config "@ + path + ": "@ + reason@
        },
        StoredConfig::Read(Ok(config)) => match config_error(config) {
            None => result == Ok::<Option<RemoteConfig>, LoadError>(Some(config)),
            Some(reason) => {
                &&& result matches Err(LoadError::ConfigFile(error))
                &&& error@ == reason
            },
        },
    }
}

/// A stored configuration that keeps its bounds is loaded as it is, and one that
/// is missing as none; one that cannot be read, cannot be decoded or breaks a bound
/// is an error.
pub proof fn stored_settings_are_loaded_as_they_are(
    stored: StoredConfig,
    path: Seq<char>,
    result: Result<Option<RemoteConfig>, LoadError>,
)
    requires
        loaded(stored, path, result),
    ensures
        stored is Missing ==> result == Ok::<Option<RemoteConfig>, LoadError>(None),
        stored matches StoredConfig::Read(Ok(config)) ==> {
            &&& result is Ok <==> keeps_its_bounds(config)
            &&& result is Ok ==> result->Ok_0 == Some(config)
            &&& result is Err ==> result->Err_0 is ConfigFile
        },
        stored matches StoredConfig::Read(Err(reason)) ==> {
            &&& result matches Err(LoadError::ConfigFile(error))
            &&& error@ == "invalid remote config "@ + path + ": "@ + reason@
        },
        stored matches StoredConfig::Read(Ok(config)) ==> !keeps_its_bounds(config) ==> {
            &&& result matches Err(LoadError::ConfigFile(error))
            &&& config_error(config) == Some(error@)
        },
        stored matches StoredConfig::Unreadable(error) ==> result == Err::<
            Option<RemoteConfig>,
            LoadError,
        >(LoadError::Io(error)),
{
    if let StoredConfig::Read(Ok(config)) = stored {
        settings_within_bounds_are_accepted(config);
    }
}

/// Whether `result` is how the storing of `config` begins.
pub open spec fn save_begun(
    config: RemoteConfig,
    has_parent: bool,
    result: Result<(Saving, SaveAction), String>,
) -> bool {
    match result {
        Ok((saving, action)) => {
            &&& config_error(config) is None && has_parent
            &&& saving.stage is CreatingParent
            &&& action == action_of(saving.stage)
        },
        Err(error) => match config_error(config) {
            Some(reason) => error@ == reason,
            None => !has_parent && error@ == "remote config path has no parent directory"@,
        },
    }
}

/// A configuration that keeps its bounds is stored wherever there is a directory,
/// and no other is; the directory is created first.
pub proof fn bounded_settings_are_stored(
    config: RemoteConfig,
    has_parent: bool,
    result: Result<(Saving, SaveAction), String>,
)
    requires
        save_begun(config, has_parent, result),
    ensures
        result is Ok <==> keeps_its_bounds(config) && has_parent,
        result matches Ok((_, action)) ==> action is CreateParent,
        !keeps_its_bounds(config) ==> config_error(config) == Some(result->Err_0@),
        keeps_its_bounds(config) && !has_parent ==> result->Err_0@
            == "remote config path has no parent directory"@,
{
    settings_within_bounds_are_accepted(config);
}

impl RemoteConfig {
    /// Reads an exact `!config {json}` owner command and checks its bounds.
    /// `decode` reads the JSON object.
    pub fn parse_command<F: Fn(&str) -> Result<RemoteConfig, String>>(
        content: &str,
        decode: F,
    ) -> (result: Result<RemoteConfig, String>)
        requires
            forall|json: &str| #[trigger] call_requires(decode, (json,)),
        ensures
            match command_json(content@) {
                None => result matches Err(error) && error@ == NOT_A_COMMAND@,
                Some(payload) => exists|json: &str, decoded: Result<RemoteConfig, String>|
                    json@ == payload && #[trigger] call_ensures(decode, (json,), decoded)
                        && bounded(decoded, result),
            },
    {
        match command_payload(content) {
            Ok(json) => {
                let decoded = decode(json);
                accept_decoded(decoded)
            },
            Err(error) => Err(error),
        }
    }

    /// Loads a stored configuration. None is no error; one that cannot be
    /// decoded is reported with its path.
    pub fn load(stored: StoredConfig, path: &str) -> (result: Result<
        Option<RemoteConfig>,
        LoadError,
    >)
        ensures
            loaded(stored, path@, result),
            match stored {
                StoredConfig::Missing => result == Ok::<Option<RemoteConfig>, LoadError>(None),
                StoredConfig::Unreadable(error) => result == Err::<
                    Option<RemoteConfig>,
                    LoadError,
                >(LoadError::Io(error)),
                StoredConfig::Read(Err(reason)) => {
                    &&& result matches Err(LoadError::ConfigFile(error))
                    &&& error@ == "invalid remote config "@ + path@ + ": "@ + reason@
                },
                StoredConfig::Read(Ok(config)) => match config_error(config) {
                    None => result == Ok::<Option<RemoteConfig>, LoadError>(Some(config)),
                    Some(reason) => {
                        &&& result matches Err(LoadError::ConfigFile(error))
                        &&& error@ == reason
                    },
                },
            },
    {
        match stored {
            StoredConfig::Missing => Ok(None),
            StoredConfig::Unreadable(error) => Err(LoadError::Io(error)),
            StoredConfig::Read(Err(reason)) => {
                let mut error = text::join3("invalid remote config ", path, ": ");
                error.append(reason.as_str());
                Err(LoadError::ConfigFile(error))
            },
            StoredConfig::Read(Ok(config)) => match config.validate() {
                Ok(_) => Ok(Some(config)),
                Err(error) => Err(LoadError::ConfigFile(error)),
            },
        }
    }

    /// Begins to store the configuration: only one that keeps its bounds is
    /// stored, and only under a directory.
    pub fn save(&self, has_parent: bool) -> (result: Result<(Saving, SaveAction), String>)
        ensures
            save_begun(*self, has_parent, result),
            match result {
                Ok((saving, action)) => {
                    &&& config_error(*self) is None && has_parent
                    &&& saving.stage is CreatingParent
                    &&& action == action_of(saving.stage)
                },
                Err(error) => match config_error(*self) {
                    Some(reason) => error@ == reason,
                    None => !has_parent && error@ == "remote config path has no parent directory"@,
                },
            },
    {
        match self.validate() {
            Ok(_) => {},
            Err(error) => {
                return Err(error);
            },
        }
        if !has_parent {
            return Err("remote config path has no parent directory".to_owned());
        }
        Ok((Saving { stage: SaveStage::CreatingParent }, SaveAction::CreateParent))
    }
}

/// How far the storing of a configuration has come.
#[derive(Debug, Clone, Copy, PartialEq, Eq)]
pub enum SaveStage {
    /// The directory is created.
    CreatingParent,
    /// The configuration is written to a temporary file.
    WritingTemp,
    /// The temporary file is made private.
    SettingMode,
    /// The temporary file takes the place of the stored one.
    Renaming,
    /// Over.
    Done,
}

/// What to do next to store a configuration.
#[derive(Debug, PartialEq, Eq)]
pub enum SaveAction {
    /// Create the directory, if there is none.
    CreateParent,
    /// Write the configuration to the temporary file.
    WriteTemp,
    /// Give the temporary file this mode.
    SetMode(u32),
    /// Rename the temporary file to the stored one.
    Rename,
    /// Report this.
    Finish(Result<(), String>),
}

/// The storing of a configuration.
#[derive(Debug, Clone, Copy, PartialEq, Eq)]
pub struct Saving {
    /// How far it has come.
    pub stage: SaveStage,
}

/// What is done at `stage`.
pub open spec fn action_of(stage: SaveStage) -> SaveAction {
    match stage {
        SaveStage::CreatingParent => SaveAction::CreateParent,
        SaveStage::WritingTemp => SaveAction::WriteTemp,
        SaveStage::SettingMode => SaveAction::SetMode(FILE_MODE),
        SaveStage::Renaming => SaveAction::Rename,
        SaveStage::Done => SaveAction::Finish(Ok(())),
    }
}

/// The stage that follows `stage`. A failure ends the storing.
pub open spec fn next_stage(stage: SaveStage, done: bool) -> SaveStage {
    if !done {
        SaveStage::Done
    } else {
        match stage {
            SaveStage::CreatingParent => SaveStage::WritingTemp,
            SaveStage::WritingTemp => SaveStage::SettingMode,
            SaveStage::SettingMode => SaveStage::Renaming,
            SaveStage::Renaming | SaveStage::Done => SaveStage::Done,
        }
    }
}

/// As long as nothing fails, a configuration is written beside the stored one,
/// made readable and writable by its owner alone, and only then put in its place;
/// after that the storing is over. A failure ends it at once.
pub proof fn configurations_are_private_before_they_are_stored(stage: SaveStage)
    ensures
        action_of(SaveStage::CreatingParent) is CreateParent,
        action_of(next_stage(SaveStage::CreatingParent, true)) is WriteTemp,
        action_of(next_stage(SaveStage::WritingTemp, true)) == SaveAction::SetMode(0o600),
        action_of(next_stage(SaveStage::SettingMode, true)) is Rename,
        action_of(next_stage(SaveStage::Renaming, true)) == SaveAction::Finish(Ok(())),
        next_stage(SaveStage::Renaming, true) is Done,
        next_stage(stage, false) is Done,
{
}

impl Saving {
    /// Goes on after the last action was done or failed.
    pub fn on_done(&mut self, done: Result<(), String>) -> (action: SaveAction)
        requires
            old(self).stage !is Done,
        ensures
            final(self).stage == next_stage(old(self).stage, done is Ok),
            action == match done {
                Ok(_) => action_of(final(self).stage),
                Err(error) => SaveAction::Finish(Err(error)),
            },
    {
        match done {
            Err(error) => {
                self.stage = SaveStage::Done;
                SaveAction::Finish(Err(error))
            },
            Ok(_) => match self.stage {
                SaveStage::CreatingParent => {
                    self.stage = SaveStage::WritingTemp;
                    SaveAction::WriteTemp
                },
                SaveStage::WritingTemp => {
                    self.stage = SaveStage::SettingMode;
                    SaveAction::SetMode(FILE_MODE)
                },
                SaveStage::SettingMode => {
                    self.stage = SaveStage::Renaming;
                    SaveAction::Rename
                },
                _ => {
                    self.stage = SaveStage::Done;
                    SaveAction::Finish(Ok(()))
                },
            },
        }
    }
}

/// A file: its contents and its mode.
pub struct FileView {
    pub contents: Seq<u8>,
    pub mode: u32,
}

/// The stored configuration and the temporary file beside it.
pub struct StoredFiles {
    pub target: Option<FileView>,
    pub temp: Option<FileView>,
}

/// Whether an action of storing `contents`, `done` or failed, may leave the
/// files at `after`: only a rename, which a file system does whole or not at
/// all, touches the stored configuration.
pub open spec fn may_leave(
    before: StoredFiles,
    stage: SaveStage,
    contents: Seq<u8>,
    done: bool,
    after: StoredFiles,
) -> bool {
    match stage {
        SaveStage::CreatingParent | SaveStage::Done => after == before,
        SaveStage::WritingTemp => {
            &&& after.target == before.target
            &&& done ==> after.temp is Some && after.temp->Some_0.contents == contents
        },
        SaveStage::SettingMode => {
            &&& after.target == before.target
            &&& done ==> before.temp is Some ==> after.temp == Some(
                FileView { mode: FILE_MODE, ..before.temp->Some_0 },
            )
        },
        SaveStage::Renaming => if done {
            after == (StoredFiles { target: before.temp, temp: None })
        } else {
            after == before
        },
    }
}

/// The end of an action: whether it was done, and how it left the files.
pub struct SaveDone {
    pub done: bool,
    pub after: StoredFiles,
}

/// The stage after the actions of `run`.
pub open spec fn stage_after(run: Seq<SaveDone>) -> SaveStage
    decreases run.len(),
{
    if run.len() == 0 {
        SaveStage::CreatingParent
    } else {
        next_stage(stage_after(run.drop_last()), run.last().done)
    }
}

/// The files after the actions of `run`.
pub open spec fn files_after(before: StoredFiles, run: Seq<SaveDone>) -> StoredFiles {
    if run.len() == 0 {
        before
    } else {
        run.last().after
    }
}

/// Whether storing `contents` can take the course of `run`, as far as it goes.
pub open spec fn can_run(before: StoredFiles, contents: Seq<u8>, run: Seq<SaveDone>) -> bool
    decreases run.len(),
{
    run.len() == 0 || {
        &&& can_run(before, contents, run.drop_last())
        &&& stage_after(run.drop_last()) !is Done
        &&& may_leave(
            files_after(before, run.drop_last()),
            stage_after(run.drop_last()),
            contents,
            run.last().done,
            run.last().after,
        )
    }
}

/// Whatever fails, and wherever the storing is interrupted, the stored
/// configuration is the one before or the new one as a whole, and then private.
/// If nothing fails it is the new one.
pub proof fn stored_configurations_are_whole(
    before: StoredFiles,
    contents: Seq<u8>,
    run: Seq<SaveDone>,
)
    requires
        can_run(before, contents, run),
    ensures
        ({
            let stored = files_after(before, run).target;
            let whole = Some(FileView { contents, mode: FILE_MODE });
            &&& stored == before.target || stored == whole
            &&& run.len() == 4 && run.last().done ==> stored == whole
            &&& stage_after(run) is Done ==> !run.last().done || stored == whole
        }),
{
    lemma_saving(before, contents, run);
}

proof fn lemma_saving(before: StoredFiles, contents: Seq<u8>, run: Seq<SaveDone>)
    requires
        can_run(before, contents, run),
    ensures
        ({
            let files = files_after(before, run);
            let whole = FileView { contents, mode: FILE_MODE };
            match stage_after(run) {
                SaveStage::CreatingParent => run.len() == 0,
                SaveStage::WritingTemp => run.len() == 1 && files.target == before.target,
                SaveStage::SettingMode => {
                    &&& run.len() == 2
                    &&& files.target == before.target
                    &&& files.temp is Some
                    &&& files.temp->Some_0.contents == contents
                },
                SaveStage::Renaming => {
                    &&& run.len() == 3
                    &&& files.target == before.target
                    &&& files.temp == Some(whole)
                },
                SaveStage::Done => {
                    &&& 0 < run.len() <= 4
                    &&& if run.last().done {
                        run.len() == 4 && files.target == Some(whole)
                    } else {
                        files.target == before.target
                    }
                },
            }
        }),
    decreases run.len(),
{
    if run.len() > 0 {
        lemma_saving(before, contents, run.drop_last());
    }
}

impl Default for RemoteConfig {
    /// A configuration that changes nothing.
    fn default() -> (config: RemoteConfig)
        ensures
            config_error(config) is None,
            config.system_prompt is None && config.model is None && config.respond_to is None,
            config.respond_to_allowlist is None && config.channels is None && config.agents is None,
            config.idle_timeout_secs is None && config.max_turn_duration_secs is None,
    {
        RemoteConfig {
            system_prompt: None,
            model: None,
            respond_to: None,
            respond_to_allowlist: None,
            channels: None,
            agents: None,
            idle_timeout_secs: None,
            max_turn_duration_secs: None,
        }
    }
}

}
