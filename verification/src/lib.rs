//! Script execution and interpreter provisioning for a device-management
//! agent.
//!
//! The agent receives a script and the name of the interpreter it is written
//! for. This library decides what has to happen: whether the interpreter is
//! there, what the script file holds, which command line runs it, what is
//! reported when it has ended or was killed at its time limit; and, for an
//! interpreter that is missing, which archive is fetched and where its
//! entries go.
//!
//! The library touches neither the file system nor the network nor any
//! process. It hands the program that hosts it one request at a time (see
//! `host`) and decides on the answer what is next, until it hands back the
//! result. Every decision has a contract, and the laws that hold of a whole
//! run or installation are proved beside the functions they speak of.
//!
//! - `shell`, `dispatch`, `materialize`, `runner`, `scripting`: running a script.
//! - `provision`, `plan`, `archive`, `install`, `disk`, `choco`: installing
//!   interpreters.
//! - `agent_config`, `config_text`, `settings`: the agent's configuration and
//!   its text form.
//! - `paths`, `text`, `chance`, `failure`, `host`: what the others build on.

pub mod agent_config;
pub mod archive;
pub mod chance;
pub mod choco;
pub mod config_text;
pub mod disk;
pub mod dispatch;
pub mod failure;
pub mod host;
pub mod install;
pub mod materialize;
pub mod paths;
pub mod plan;
pub mod provision;
pub mod runner;
pub mod scripting;
pub mod settings;
pub mod shell;
pub mod text;
