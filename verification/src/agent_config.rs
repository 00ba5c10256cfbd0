//! The agent's configuration: identity, broker connection, and where the
//! interpreters and working directories live.

use vstd::prelude::*;
use vstd::string::*;
use crate::chance::{is_uuid_text, random_uuid};
use crate::paths::{absolute, is_absolute, join, joined, lemma_join_keeps_absolute};
use crate::text::chain3;

verus! {

/// The version this agent reports.
pub const AGENT_VERSION: &'static str = "0.1.0";

/// Where the agent is installed when neither the registry nor the system
/// says otherwise.
pub const DEFAULT_DRIVE: &'static str = "C:\\";

/// Everything an agent is configured with.
#[derive(Debug, Clone)]
pub struct AgentConfig {
    pub agent_id: String,
    pub agent_version: String,
    pub mqtt: MqttConfig,
    pub script: ScriptConfig,
}

/// How the agent reaches the broker that sends it commands.
#[derive(Debug, Clone)]
pub struct MqttConfig {
    pub broker_host: String,
    pub broker_port: u16,
    pub username: Option<String>,
    pub password: Option<String>,
    pub use_tls: bool,
    /// The topic on which commands arrive.
    pub command_topic: String,
    /// Seconds between heartbeats.
    pub keep_alive: u16,
    /// Seconds to wait before connecting again.
    pub reconnect_interval: u64,
}

/// Where the interpreters and the directories for script files are, and
/// the proxy for downloads where one is used. Every path is meant to be
/// absolute.
#[derive(Debug, Clone)]
pub struct ScriptConfig {
    pub py_bin: String,
    pub nu_bin: String,
    pub deno_bin: String,
    pub program_dir: String,
    pub win_tmp_dir: String,
    pub win_run_as_user_tmp_dir: String,
    pub proxy: Option<String>,
}

/// `ScriptConfig` as contracts see it.
pub struct ScriptConfigView {
    pub py_bin: Seq<char>,
    pub nu_bin: Seq<char>,
    pub deno_bin: Seq<char>,
    pub program_dir: Seq<char>,
    pub win_tmp_dir: Seq<char>,
    pub win_run_as_user_tmp_dir: Seq<char>,
    pub proxy: Option<Seq<char>>,
}

/// `MqttConfig` as contracts see it.
pub struct MqttConfigView {
    pub broker_host: Seq<char>,
    pub broker_port: u16,
    pub username: Option<Seq<char>>,
    pub password: Option<Seq<char>>,
    pub use_tls: bool,
    pub command_topic: Seq<char>,
    pub keep_alive: u16,
    pub reconnect_interval: u64,
}

/// `AgentConfig` as contracts see it.
pub struct AgentConfigView {
    pub agent_id: Seq<char>,
    pub agent_version: Seq<char>,
    pub mqtt: MqttConfigView,
    pub script: ScriptConfigView,
}

/// The view of an optional text.
pub open spec fn text_of(t: Option<String>) -> Option<Seq<char>> {
    match t {
        Some(s) => Some(s@),
        None => None,
    }
}

impl ScriptConfigView {
    /// True when every path of the configuration is absolute.
    pub open spec fn paths_absolute(self) -> bool {
        &&& is_absolute(self.py_bin)
        &&& is_absolute(self.nu_bin)
        &&& is_absolute(self.deno_bin)
        &&& is_absolute(self.program_dir)
        &&& is_absolute(self.win_tmp_dir)
        &&& is_absolute(self.win_run_as_user_tmp_dir)
    }
}

impl View for ScriptConfig {
    type V = ScriptConfigView;

    open spec fn view(&self) -> ScriptConfigView {
        ScriptConfigView {
            py_bin: self.py_bin@,
            nu_bin: self.nu_bin@,
            deno_bin: self.deno_bin@,
            program_dir: self.program_dir@,
            win_tmp_dir: self.win_tmp_dir@,
            win_run_as_user_tmp_dir: self.win_run_as_user_tmp_dir@,
            proxy: text_of(self.proxy),
        }
    }
}

impl View for MqttConfig {
    type V = MqttConfigView;

    open spec fn view(&self) -> MqttConfigView {
        MqttConfigView {
            broker_host: self.broker_host@,
            broker_port: self.broker_port,
            username: text_of(self.username),
            password: text_of(self.password),
            use_tls: self.use_tls,
            command_topic: self.command_topic@,
            keep_alive: self.keep_alive,
            reconnect_interval: self.reconnect_interval,
        }
    }
}

impl View for AgentConfig {
    type V = AgentConfigView;

    open spec fn view(&self) -> AgentConfigView {
        AgentConfigView {
            agent_id: self.agent_id@,
            agent_version: self.agent_version@,
            mqtt: self.mqtt@,
            script: self.script@,
        }
    }
}

/// A copy of an optional text.
pub fn copy_text(t: &Option<String>) -> (r: Option<String>)
    ensures
        text_of(r) == text_of(*t),
{
    match t {
        Some(s) => Some(s.clone()),
        None => None,
    }
}

/// The system drive: what the environment names, else what the system
/// reports, else `C:\`.
pub open spec fn system_drive_of(
    environment: Option<Seq<char>>,
    reported: Option<Seq<char>>,
) -> Seq<char> {
    match environment {
        Some(d) => d,
        None => match reported {
            Some(d) => d,
            None => DEFAULT_DRIVE@,
        },
    }
}

pub fn system_drive(environment: Option<String>, reported: Option<String>) -> (r: String)
    ensures
        r@ == system_drive_of(text_of(environment), text_of(reported)),
{
    match environment {
        Some(d) => d,
        None => match reported {
            Some(d) => d,
            None => String::from_str(DEFAULT_DRIVE),
        },
    }
}

/// The directory the agent is installed in: the one recorded at
/// installation, else `Program Files\nextrmm-agent` on the system drive.
pub open spec fn program_dir_of(recorded: Option<Seq<char>>, drive: Seq<char>) -> Seq<char> {
    match recorded {
        Some(d) => d,
        None => joined(drive, "Program Files\\nextrmm-agent"@),
    }
}

pub fn program_dir(recorded: Option<String>, drive: &str) -> (r: String)
    ensures
        r@ == program_dir_of(text_of(recorded), drive@),
{
    match recorded {
        Some(d) => d,
        None => join(drive, "Program Files\\nextrmm-agent"),
    }
}

impl ScriptConfig {
    /// The layout below an installation directory, without a proxy.
    pub open spec fn layout(install_dir: Seq<char>) -> ScriptConfigView {
        ScriptConfigView {
            py_bin: joined(install_dir, "runtime\\python\\python.exe"@),
            nu_bin: joined(install_dir, "runtime\\nushell\\nu.exe"@),
            deno_bin: joined(install_dir, "runtime\\deno\\deno.exe"@),
            program_dir: install_dir,
            win_tmp_dir: joined(install_dir, "temp"@),
            win_run_as_user_tmp_dir: joined(install_dir, "temp\\user"@),
            proxy: None,
        }
    }

    /// The layout below `install_dir`; every path of it is absolute where
    /// `install_dir` is.
    pub fn for_install_dir(install_dir: &str) -> (r: ScriptConfig)
        ensures
            r@ == Self::layout(install_dir@),
            is_absolute(install_dir@) ==> r@.paths_absolute(),
    {
        proof {
            if is_absolute(install_dir@) {
                lemma_join_keeps_absolute(install_dir@, "runtime\\python\\python.exe"@);
                lemma_join_keeps_absolute(install_dir@, "runtime\\nushell\\nu.exe"@);
                lemma_join_keeps_absolute(install_dir@, "runtime\\deno\\deno.exe"@);
                lemma_join_keeps_absolute(install_dir@, "temp"@);
                lemma_join_keeps_absolute(install_dir@, "temp\\user"@);
            }
        }
        ScriptConfig {
            py_bin: join(install_dir, "runtime\\python\\python.exe"),
            nu_bin: join(install_dir, "runtime\\nushell\\nu.exe"),
            deno_bin: join(install_dir, "runtime\\deno\\deno.exe"),
            program_dir: String::from_str(install_dir),
            win_tmp_dir: join(install_dir, "temp"),
            win_run_as_user_tmp_dir: join(install_dir, "temp\\user"),
            proxy: None,
        }
    }

    /// True when every path of the configuration is absolute.
    pub fn is_well_formed(&self) -> (r: bool)
        ensures
            r == self@.paths_absolute(),
    {
        absolute(self.py_bin.as_str()) && absolute(self.nu_bin.as_str()) && absolute(
            self.deno_bin.as_str(),
        ) && absolute(self.program_dir.as_str()) && absolute(self.win_tmp_dir.as_str())
            && absolute(self.win_run_as_user_tmp_dir.as_str())
    }

    /// A copy with the same view.
    pub fn duplicate(&self) -> (r: ScriptConfig)
        ensures
            r@ == self@,
    {
        ScriptConfig {
            py_bin: self.py_bin.clone(),
            nu_bin: self.nu_bin.clone(),
            deno_bin: self.deno_bin.clone(),
            program_dir: self.program_dir.clone(),
            win_tmp_dir: self.win_tmp_dir.clone(),
            win_run_as_user_tmp_dir: self.win_run_as_user_tmp_dir.clone(),
            proxy: copy_text(&self.proxy),
        }
    }
}

impl MqttConfig {
    /// The broker settings of a new agent whose command topic carries `topic_id`.
    pub open spec fn initial(topic_id: Seq<char>) -> MqttConfigView {
        MqttConfigView {
            broker_host: "broker.emqx.io"@,
            broker_port: 1883,
            username: None,
            password: None,
            use_tls: false,
            command_topic: "rmm/agent/"@ + topic_id + "/command"@,
            keep_alive: 60,
            reconnect_interval: 5,
        }
    }

    pub fn with_topic_id(topic_id: &str) -> (r: MqttConfig)
        ensures
            r@ == Self::initial(topic_id@),
    {
        MqttConfig {
            broker_host: String::from_str("broker.emqx.io"),
            broker_port: 1883,
            username: None,
            password: None,
            use_tls: false,
            command_topic: chain3("rmm/agent/", topic_id, "/command"),
            keep_alive: 60,
            reconnect_interval: 5,
        }
    }
}

impl AgentConfig {
    /// The configuration of a new agent with the given identifiers,
    /// installed in `install_dir`.
    pub open spec fn initial(
        agent_id: Seq<char>,
        topic_id: Seq<char>,
        install_dir: Seq<char>,
    ) -> AgentConfigView {
        AgentConfigView {
            agent_id,
            agent_version: AGENT_VERSION@,
            mqtt: MqttConfig::initial(topic_id),
            script: ScriptConfig::layout(install_dir),
        }
    }

    pub fn assemble(agent_id: String, topic_id: &str, install_dir: &str) -> (r: AgentConfig)
        ensures
            r@ == Self::initial(agent_id@, topic_id@, install_dir@),
    {
        AgentConfig {
            agent_id,
            agent_version: String::from_str(AGENT_VERSION),
            mqtt: MqttConfig::with_topic_id(topic_id),
            script: ScriptConfig::for_install_dir(install_dir),
        }
    }

    /// The configuration of a new agent installed in `install_dir`: its
    /// identifier and the identifier in its command topic are two UUIDs that
    /// chance picks.
    pub fn fresh(install_dir: &str) -> (r: AgentConfig)
        ensures
            is_uuid_text(r.agent_id@),
            exists|topic_id: Seq<char>|
                is_uuid_text(topic_id) && r@ == #[trigger] AgentConfig::initial(
                    r.agent_id@,
                    topic_id,
                    install_dir@,
                ),
    {
        let agent_id = random_uuid();
        let topic_id = random_uuid();
        AgentConfig::assemble(agent_id, topic_id.as_str(), install_dir)
    }
}

impl Default for ScriptConfig {
    /// The layout below the installation directory of a machine that says
    /// nothing about where the agent is: `C:\Program Files\nextrmm-agent`.
    fn default() -> (r: ScriptConfig)
        ensures
            r@ == ScriptConfig::layout(program_dir_of(None, DEFAULT_DRIVE@)),
    {
        let dir = program_dir(None, DEFAULT_DRIVE);
        ScriptConfig::for_install_dir(dir.as_str())
    }
}

impl Default for AgentConfig {
    /// The configuration of a new agent on a machine that says nothing
    /// about where the agent is.
    fn default() -> (r: AgentConfig)
        ensures
            is_uuid_text(r.agent_id@),
            exists|topic_id: Seq<char>|
                is_uuid_text(topic_id) && r@ == #[trigger] AgentConfig::initial(
                    r.agent_id@,
                    topic_id,
                    program_dir_of(None, DEFAULT_DRIVE@),
                ),
    {
        let dir = program_dir(None, DEFAULT_DRIVE);
        AgentConfig::fresh(dir.as_str())
    }
}

} // verus!
