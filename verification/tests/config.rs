use buzz::remote_config::{
    accept_decoded, command_payload, LoadError, RemoteConfig, RespondTo, SaveAction, SaveStage, StoredConfig,
};

/// Reads the JSON object of a command; fields that are not settings are errors.
fn decode(json: &str) -> Result<RemoteConfig, String> {
    let value: serde_json::Value =
        serde_json::from_str(json).map_err(|error| error.to_string())?;
    let object = value.as_object().ok_or("expected an object")?;
    let mut config = RemoteConfig::default();
    for (name, value) in object {
        let text = || value.as_str().map(str::to_string).ok_or("expected a string");
        let list = || -> Result<Vec<String>, String> {
            let list = value.as_array().ok_or("expected a list")?;
            let entries = list.iter().map(|entry| entry.as_str().map(str::to_string));
            entries
                .collect::<Option<Vec<String>>>()
                .ok_or("expected strings".to_string())
        };
        let number = || value.as_u64().ok_or("expected a number");
        match name.as_str() {
            "system_prompt" => config.system_prompt = Some(text()?),
            "model" => config.model = Some(text()?),
            "respond_to" => {
                config.respond_to = Some(match text()?.as_str() {
                    "owner-only" => RespondTo::OwnerOnly,
                    "allowlist" => RespondTo::Allowlist,
                    other => RespondTo::Other(other.to_string()),
                })
            }
            "respond_to_allowlist" => config.respond_to_allowlist = Some(list()?),
            "channels" => config.channels = Some(list()?),
            "agents" => config.agents = Some(number()? as u32),
            "idle_timeout_secs" => config.idle_timeout_secs = Some(number()?),
            "max_turn_duration_secs" => config.max_turn_duration_secs = Some(number()?),
            other => return Err(format!("unknown field `{other}`")),
        }
    }
    Ok(config)
}

fn rejected(json: &str) -> String {
    accept_decoded(decode(json)).expect_err("out of bounds")
}

#[test]
fn accepts_a_bounded_config_command() {
    let config = RemoteConfig::parse_command(
        r#"!config {"model":"gpt-5","respond_to":"owner-only","agents":2}"#,
        decode,
    )
    .expect("valid command");
    assert_eq!(config.model.as_deref(), Some("gpt-5"));
}

#[test]
fn rejects_unknown_and_unsafe_fields() {
    assert!(RemoteConfig::parse_command(r#"!config {"env_vars":{"X":"Y"}}"#, decode).is_err());
    assert!(RemoteConfig::parse_command(r#"!config {"agent_command":"sh"}"#, decode).is_err());
}

#[test]
fn commands_begin_with_the_prefix() {
    assert_eq!(command_payload("!config {}"), Ok("{}"));
    assert_eq!(command_payload(" \n!config  {} \u{3000}"), Ok(" {}"));
    for other in ["", "!config", "!config{}", "config {}", "x !config {}"] {
        assert_eq!(
            command_payload(other),
            Err("expected '!config' followed by a JSON object".to_string())
        );
        assert_eq!(
            RemoteConfig::parse_command(other, decode),
            Err("expected '!config' followed by a JSON object".to_string())
        );
    }
    assert!(RemoteConfig::parse_command("!config nonsense", decode).is_err());
}

#[test]
fn white_space_changes_no_command() {
    for content in ["\t!config {\"agents\":2}\u{2003}", " \u{a0} !config x \n", "  config "] {
        assert_eq!(command_payload(content), command_payload(content.trim()));
        assert_eq!(
            RemoteConfig::parse_command(content, decode),
            RemoteConfig::parse_command(content.trim(), decode)
        );
    }
}

#[test]
fn every_bound_has_its_message() {
    assert_eq!(
        rejected(&format!("{{\"system_prompt\":\"{}\"}}", "x".repeat(65_537))),
        "system_prompt exceeds 65536 bytes"
    );
    for model in ["".to_string(), "  \u{3000}".to_string(), "é".repeat(129)] {
        assert_eq!(
            rejected(&format!("{{\"model\":\"{model}\"}}")),
            "model must be 1 to 256 bytes"
        );
    }
    for agents in [0, 33] {
        assert_eq!(
            rejected(&format!("{{\"agents\":{agents}}}")),
            "agents must be between 1 and 32"
        );
    }
    assert_eq!(
        rejected("{\"idle_timeout_secs\":0}"),
        "idle_timeout_secs must be positive"
    );
    for secs in [59, 604_801] {
        assert_eq!(
            rejected(&format!("{{\"max_turn_duration_secs\":{secs}}}")),
            "max_turn_duration_secs must be between 60 and 604800"
        );
    }
    assert_eq!(
        rejected("{\"idle_timeout_secs\":60,\"max_turn_duration_secs\":60}"),
        "idle_timeout_secs must be less than max_turn_duration_secs"
    );
    assert_eq!(
        rejected("{\"respond_to_allowlist\":[]}"),
        "respond_to_allowlist requires respond_to=allowlist"
    );
    assert_eq!(
        rejected("{\"respond_to\":\"allowlist\"}"),
        "respond_to=allowlist requires a non-empty respond_to_allowlist"
    );
    assert_eq!(
        rejected("{\"respond_to\":\"allowlist\",\"respond_to_allowlist\":[]}"),
        "respond_to=allowlist requires a non-empty respond_to_allowlist"
    );
    assert_eq!(
        rejected("{\"channels\":[\"550e8400-e29b-41d4-a716-446655440000\",\"x\"]}"),
        "invalid channel UUID 'x'"
    );
    for key in ["ab", &"g".repeat(64), &"é".repeat(32)] {
        assert_eq!(
            rejected(&format!(
                "{{\"respond_to\":\"allowlist\",\"respond_to_allowlist\":[\"{key}\"]}}"
            )),
            format!("invalid allowlist pubkey '{key}'")
        );
    }
}

#[test]
fn bounds_are_reached() {
    let config = decode(&format!(
        "{{\"system_prompt\":\"{}\",\"model\":\"{}\",\"agents\":32,\
         \"idle_timeout_secs\":604799,\"max_turn_duration_secs\":604800,\
         \"respond_to\":\"allowlist\",\"respond_to_allowlist\":[\"{}\"],\
         \"channels\":[\"550e8400-e29b-41d4-a716-446655440000\",\
         \"550E8400E29B41D4A716446655440000\",\
         \"{{550e8400-e29b-41d4-a716-446655440000}}\",\
         \"URN:uuid:550e8400-e29b-41d4-a716-446655440000\"]}}",
        "x".repeat(65_536),
        "m".repeat(256),
        "aB".repeat(32),
    ))
    .expect("decodes");
    assert_eq!(config.validate(), Ok(()));
    assert_eq!(RemoteConfig::default().validate(), Ok(()));
}

#[test]
fn misshapen_uuids_are_no_channels() {
    for bad in [
        "",
        "550e8400-e29b-41d4-a716-44665544000",
        "550e8400-e29b-41d4-a716-4466554400000",
        "550e8400e-29b-41d4-a716-446655440000",
        "550e8400-e29b-41d4-a716-44665544000g",
        "{550e8400-e29b-41d4-a716-446655440000",
        "(550e8400-e29b-41d4-a716-446655440000)",
        "urn-uuid:550e8400-e29b-41d4-a716-446655440000",
    ] {
        assert_eq!(
            rejected(&format!("{{\"channels\":[\"{bad}\"]}}")),
            format!("invalid channel UUID '{bad}'")
        );
    }
}

#[test]
fn stored_configurations_are_checked_again() {
    let path = "/etc/agent.json";
    assert_eq!(RemoteConfig::load(StoredConfig::Missing, path), Ok(None));
    assert_eq!(
        RemoteConfig::load(StoredConfig::Unreadable("denied".to_string()), path),
        Err(LoadError::Io("denied".to_string()))
    );
    assert_eq!(
        RemoteConfig::load(StoredConfig::Read(Err("bad".to_string())), path),
        Err(LoadError::ConfigFile(
            "invalid remote config /etc/agent.json: bad".to_string()
        ))
    );
    let good = decode("{\"agents\":3}").expect("decodes");
    assert_eq!(
        RemoteConfig::load(StoredConfig::Read(Ok(good.clone())), path),
        Ok(Some(good.clone()))
    );
    let bad = decode("{\"agents\":0}").expect("decodes");
    assert_eq!(
        RemoteConfig::load(StoredConfig::Read(Ok(bad.clone())), path),
        Err(LoadError::ConfigFile(
            "agents must be between 1 and 32".to_string()
        ))
    );
    assert!(good.save(true).is_ok());
    assert_eq!(
        good.save(false),
        Err("remote config path has no parent directory".to_string())
    );
    assert_eq!(
        bad.save(false),
        Err("agents must be between 1 and 32".to_string())
    );
}

#[test]
fn configurations_are_written_aside_and_renamed() {
    let config = decode("{\"agents\":3}").expect("decodes");
    let (mut saving, first) = config.save(true).expect("within bounds");
    assert_eq!(first, SaveAction::CreateParent);
    assert_eq!(saving.on_done(Ok(())), SaveAction::WriteTemp);
    assert_eq!(saving.on_done(Ok(())), SaveAction::SetMode(0o600));
    assert_eq!(saving.on_done(Ok(())), SaveAction::Rename);
    assert_eq!(saving.on_done(Ok(())), SaveAction::Finish(Ok(())));
    assert_eq!(saving.stage, SaveStage::Done);

    for failing in 0..4 {
        let (mut saving, _) = config.save(true).expect("within bounds");
        for _ in 0..failing {
            saving.on_done(Ok(()));
        }
        assert_eq!(
            saving.on_done(Err("disk full".to_string())),
            SaveAction::Finish(Err("disk full".to_string()))
        );
        assert_eq!(saving.stage, SaveStage::Done);
    }
}
