use nextrmm_agent::agent_config::{
    program_dir, system_drive, AgentConfig, MqttConfig, ScriptConfig, AGENT_VERSION,
};
use nextrmm_agent::failure::Failure;
use std::io::{Read, Write};

fn is_uuid(text: &str) -> bool {
    let chars: Vec<char> = text.chars().collect();
    chars.len() == 36
        && chars.iter().enumerate().all(|(i, c)| match i {
            8 | 13 | 18 | 23 => *c == '-',
            _ => c.is_ascii_digit() || ('a'..='f').contains(c),
        })
        && chars[14] == '4'
        && matches!(chars[19], '8' | '9' | 'a' | 'b')
}

fn sample() -> AgentConfig {
    AgentConfig::assemble("agent-1".to_string(), "topic-1", "C:\\agent")
}

#[test]
fn test_config_save_load() {
    let config = AgentConfig::default();
    let mut temp_file = tempfile::NamedTempFile::new().unwrap();

    temp_file.write_all(config.save().as_bytes()).unwrap();

    let mut content = String::new();
    temp_file.reopen().unwrap().read_to_string(&mut content).unwrap();
    let loaded_config = AgentConfig::load(&content, AgentConfig::default()).unwrap();

    assert_eq!(config.agent_id, loaded_config.agent_id);
    assert_eq!(config.agent_version, loaded_config.agent_version);
    assert_eq!(config.mqtt.broker_host, loaded_config.mqtt.broker_host);
    assert_eq!(config.mqtt.broker_port, loaded_config.mqtt.broker_port);
}

#[test]
fn test_default_config() {
    let config = AgentConfig::default();
    assert_eq!(config.mqtt.broker_port, 1883);
    assert_eq!(config.mqtt.keep_alive, 60);
    assert_eq!(config.mqtt.reconnect_interval, 5);
    assert_eq!(config.agent_version, AGENT_VERSION);
}

#[test]
fn a_fresh_configuration_has_two_new_identifiers() {
    let config = AgentConfig::fresh("C:\\agent");
    assert!(is_uuid(&config.agent_id));
    let topic = config.mqtt.command_topic.clone();
    assert!(topic.starts_with("rmm/agent/"));
    assert!(topic.ends_with("/command"));
    let topic_id = &topic["rmm/agent/".len()..topic.len() - "/command".len()];
    assert!(is_uuid(topic_id));
    assert_ne!(topic_id, config.agent_id);
    assert_ne!(AgentConfig::fresh("C:\\agent").agent_id, config.agent_id);
    assert_eq!(config.agent_version, "0.1.0");
    assert_eq!(config.script.program_dir, "C:\\agent");
}

#[test]
fn the_layout_below_the_installation_directory() {
    let c = ScriptConfig::for_install_dir("C:\\Program Files\\nextrmm-agent");
    assert_eq!(c.program_dir, "C:\\Program Files\\nextrmm-agent");
    assert_eq!(c.py_bin, "C:\\Program Files\\nextrmm-agent\\runtime\\python\\python.exe");
    assert_eq!(c.nu_bin, "C:\\Program Files\\nextrmm-agent\\runtime\\nushell\\nu.exe");
    assert_eq!(c.deno_bin, "C:\\Program Files\\nextrmm-agent\\runtime\\deno\\deno.exe");
    assert_eq!(c.win_tmp_dir, "C:\\Program Files\\nextrmm-agent\\temp");
    assert_eq!(c.win_run_as_user_tmp_dir, "C:\\Program Files\\nextrmm-agent\\temp\\user");
    assert_eq!(c.proxy, None);
    let copy = c.duplicate();
    assert_eq!(copy.py_bin, c.py_bin);
    assert_eq!(copy.proxy, c.proxy);
}

#[test]
fn the_broker_settings_of_a_new_agent() {
    let m = MqttConfig::with_topic_id("abc");
    assert_eq!(m.broker_host, "broker.emqx.io");
    assert_eq!(m.broker_port, 1883);
    assert_eq!(m.username, None);
    assert_eq!(m.password, None);
    assert!(!m.use_tls);
    assert_eq!(m.command_topic, "rmm/agent/abc/command");
    assert_eq!(m.keep_alive, 60);
    assert_eq!(m.reconnect_interval, 5);
}

#[test]
fn the_system_drive_is_taken_from_the_first_source_that_has_it() {
    assert_eq!(system_drive(Some("D:".to_string()), Some("E:\\".to_string())), "D:");
    assert_eq!(system_drive(None, Some("E:\\".to_string())), "E:\\");
    assert_eq!(system_drive(None, None), "C:\\");
}

#[test]
fn the_program_directory_is_the_recorded_one_or_the_default() {
    assert_eq!(program_dir(Some("D:\\rmm".to_string()), "C:\\"), "D:\\rmm");
    assert_eq!(program_dir(None, "C:\\"), "C:\\Program Files\\nextrmm-agent");
    assert_eq!(program_dir(None, "D:"), "D:\\Program Files\\nextrmm-agent");
}

#[test]
fn save_writes_one_line_for_each_setting() {
    assert_eq!(
        sample().save(),
        "agent_id = agent-1\n\
         agent_version = 0.1.0\n\
         broker_host = broker.emqx.io\n\
         broker_port = 1883\n\
         use_tls = false\n\
         command_topic = rmm/agent/topic-1/command\n\
         keep_alive = 60\n\
         reconnect_interval = 5\n"
    );
    let mut config = sample();
    config.mqtt.username = Some("user".to_string());
    config.mqtt.password = Some("secret word".to_string());
    config.mqtt.use_tls = true;
    config.mqtt.reconnect_interval = u64::MAX;
    assert_eq!(
        config.save(),
        "agent_id = agent-1\n\
         agent_version = 0.1.0\n\
         broker_host = broker.emqx.io\n\
         broker_port = 1883\n\
         username = user\n\
         password = secret word\n\
         use_tls = true\n\
         command_topic = rmm/agent/topic-1/command\n\
         keep_alive = 60\n\
         reconnect_interval = 18446744073709551615\n"
    );
}

#[test]
fn load_takes_the_settings_in_order() {
    let text = "# the agent\r\n\
                agent_id = first\r\n\
                \r\n\
                broker_host=example.org\n\
                broker_port = 8883\n\
                username = user\n\
                password =\n\
                use_tls = true\n\
                keep_alive = +30\n\
                reconnect_interval = 18446744073709551615\n\
                command_topic = a/b = c\n\
                unknown_key = whatever\n\
                this line says nothing\n\
                agent_id = second";
    let config = AgentConfig::load(text, sample()).unwrap();
    assert_eq!(config.agent_id, "second");
    assert_eq!(config.agent_version, "0.1.0");
    assert_eq!(config.mqtt.broker_host, "example.org");
    assert_eq!(config.mqtt.broker_port, 8883);
    assert_eq!(config.mqtt.username, Some("user".to_string()));
    assert_eq!(config.mqtt.password, Some(String::new()));
    assert!(config.mqtt.use_tls);
    assert_eq!(config.mqtt.keep_alive, 30);
    assert_eq!(config.mqtt.reconnect_interval, u64::MAX);
    assert_eq!(config.mqtt.command_topic, "a/b = c");
    assert_eq!(config.script.py_bin, "C:\\agent\\runtime\\python\\python.exe");
}

#[test]
fn load_of_an_empty_text_gives_the_defaults() {
    let config = AgentConfig::load("", sample()).unwrap();
    assert_eq!(config.agent_id, "agent-1");
    assert_eq!(config.mqtt.broker_port, 1883);
    assert_eq!(config.mqtt.username, None);
}

#[test]
fn load_refuses_values_that_do_not_fit() {
    let cases = [
        ("broker_port = 65536", "Invalid value for broker_port: 65536"),
        ("broker_port = mqtt", "Invalid value for broker_port: mqtt"),
        ("broker_port =", "Invalid value for broker_port: "),
        ("keep_alive = -1", "Invalid value for keep_alive: -1"),
        ("use_tls = yes", "Invalid value for use_tls: yes"),
        (
            "reconnect_interval = 18446744073709551616",
            "Invalid value for reconnect_interval: 18446744073709551616",
        ),
        ("agent_id = x\nuse_tls = TRUE\nbroker_port = bad", "Invalid value for use_tls: TRUE"),
    ];
    for (text, message) in cases {
        match AgentConfig::load(text, sample()) {
            Err(failure) => {
                assert_eq!(failure, Failure::Configuration { message: message.to_string() })
            }
            Ok(config) => panic!("loaded {:?}", config),
        }
    }
}

#[test]
fn set_changes_one_setting() {
    let config = sample().set("keep_alive", "15".to_string()).unwrap();
    assert_eq!(config.mqtt.keep_alive, 15);
    let config = config.set("nothing", "15".to_string()).unwrap();
    assert_eq!(config.mqtt.keep_alive, 15);
    assert_eq!(config.agent_id, "agent-1");
    assert_eq!(
        config.set("keep_alive", "x".to_string()).unwrap_err(),
        Failure::Configuration { message: "Invalid value for keep_alive: x".to_string() }
    );
}

#[test]
fn what_is_saved_is_loaded_again() {
    let mut config = sample();
    config.mqtt.username = Some("user".to_string());
    config.mqtt.password = Some(String::new());
    config.mqtt.use_tls = true;
    config.mqtt.broker_port = 0;
    config.mqtt.keep_alive = 65535;
    let loaded = AgentConfig::load(&config.save(), AgentConfig::fresh("C:\\agent")).unwrap();
    assert_eq!(loaded.agent_id, config.agent_id);
    assert_eq!(loaded.agent_version, config.agent_version);
    assert_eq!(loaded.mqtt.broker_host, config.mqtt.broker_host);
    assert_eq!(loaded.mqtt.broker_port, config.mqtt.broker_port);
    assert_eq!(loaded.mqtt.username, config.mqtt.username);
    assert_eq!(loaded.mqtt.password, config.mqtt.password);
    assert_eq!(loaded.mqtt.use_tls, config.mqtt.use_tls);
    assert_eq!(loaded.mqtt.command_topic, config.mqtt.command_topic);
    assert_eq!(loaded.mqtt.keep_alive, config.mqtt.keep_alive);
    assert_eq!(loaded.mqtt.reconnect_interval, config.mqtt.reconnect_interval);
}

#[test]
fn the_layout_below_an_absolute_directory_is_well_formed() {
    assert!(ScriptConfig::for_install_dir("C:\\Program Files\\nextrmm-agent").is_well_formed());
    assert!(ScriptConfig::for_install_dir("/opt/agent").is_well_formed());
    assert!(!ScriptConfig::for_install_dir("agent").is_well_formed());
    let mut config = ScriptConfig::for_install_dir("C:\\agent");
    config.deno_bin = "deno.exe".to_string();
    assert!(!config.is_well_formed());
}

#[test]
fn the_default_configuration_is_laid_out_on_drive_c() {
    let script = ScriptConfig::default();
    assert_eq!(script.program_dir, "C:\\Program Files\\nextrmm-agent");
    assert_eq!(script.py_bin, "C:\\Program Files\\nextrmm-agent\\runtime\\python\\python.exe");
    assert!(script.is_well_formed());
    let config = AgentConfig::default();
    assert_eq!(config.script.program_dir, script.program_dir);
    assert_eq!(config.script.win_tmp_dir, "C:\\Program Files\\nextrmm-agent\\temp");
    assert!(is_uuid(&config.agent_id));
    assert_ne!(AgentConfig::default().agent_id, config.agent_id);
}
