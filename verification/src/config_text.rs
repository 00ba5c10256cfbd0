//! The text form of the agent's identity and broker settings: one line of
//! `key = value` for each, read over defaults and written back.

use vstd::prelude::*;
use vstd::seq_lib::lemma_concat_associative;
use vstd::string::*;
use crate::agent_config::{text_of, AgentConfig, AgentConfigView, MqttConfigView};
use crate::failure::{outcome_of, Failure, FailureView};
use crate::settings::{
    flag_of,
    is_key,
    is_plain,
    lemma_first_line,
    lemma_number_round_trip,
    lemma_setting_round_trip,
    line_of,
    lines_of,
    number_of,
    parse_flag,
    parse_number,
    parse_setting,
    setting_of,
    split_lines,
};
use crate::text::{decimal, format_u64, same_text};

verus! {

/// What is reported of a value that a setting cannot take.
pub open spec fn invalid_setting(key: Seq<char>, value: Seq<char>) -> FailureView {
    FailureView::Configuration { message: "Invalid value for "@ + key + ": "@ + value }
}

/// The configuration after one setting. The identifiers, the broker's host
/// and the command topic take any text; a user name or password that is
/// set is there, even where it is empty; the ports and intervals take a
/// number that fits them, `use_tls` takes `true` or `false`. A key that is
/// not known changes nothing.
pub open spec fn with_setting(c: AgentConfigView, key: Seq<char>, value: Seq<char>) -> Result<
    AgentConfigView,
    FailureView,
> {
    if key == "agent_id"@ {
        Ok(AgentConfigView { agent_id: value, ..c })
    } else if key == "agent_version"@ {
        Ok(AgentConfigView { agent_version: value, ..c })
    } else if key == "broker_host"@ {
        Ok(AgentConfigView { mqtt: MqttConfigView { broker_host: value, ..c.mqtt }, ..c })
    } else if key == "broker_port"@ {
        match number_of(value, 0xffff) {
            Some(n) => Ok(
                AgentConfigView { mqtt: MqttConfigView { broker_port: n as u16, ..c.mqtt }, ..c },
            ),
            None => Err(invalid_setting(key, value)),
        }
    } else if key == "username"@ {
        Ok(AgentConfigView { mqtt: MqttConfigView { username: Some(value), ..c.mqtt }, ..c })
    } else if key == "password"@ {
        Ok(AgentConfigView { mqtt: MqttConfigView { password: Some(value), ..c.mqtt }, ..c })
    } else if key == "use_tls"@ {
        match flag_of(value) {
            Some(b) => Ok(
                AgentConfigView { mqtt: MqttConfigView { use_tls: b, ..c.mqtt }, ..c },
            ),
            None => Err(invalid_setting(key, value)),
        }
    } else if key == "command_topic"@ {
        Ok(AgentConfigView { mqtt: MqttConfigView { command_topic: value, ..c.mqtt }, ..c })
    } else if key == "keep_alive"@ {
        match number_of(value, 0xffff) {
            Some(n) => Ok(
                AgentConfigView { mqtt: MqttConfigView { keep_alive: n as u16, ..c.mqtt }, ..c },
            ),
            None => Err(invalid_setting(key, value)),
        }
    } else if key == "reconnect_interval"@ {
        match number_of(value, 0xffff_ffff_ffff_ffff) {
            Some(n) => Ok(
                AgentConfigView {
                    mqtt: MqttConfigView { reconnect_interval: n as u64, ..c.mqtt },
                    ..c
                },
            ),
            None => Err(invalid_setting(key, value)),
        }
    } else {
        Ok(c)
    }
}

/// The configuration after the settings of the lines, taken in order; the
/// failure of the first setting that cannot be taken.
pub open spec fn loaded(c: AgentConfigView, lines: Seq<Seq<char>>) -> Result<
    AgentConfigView,
    FailureView,
>
    decreases lines.len(),
{
    if lines.len() == 0 {
        Ok(c)
    } else {
        match setting_of(lines[0]) {
            None => loaded(c, lines.drop_first()),
            Some(pair) => match with_setting(c, pair.0, pair.1) {
                Ok(next) => loaded(next, lines.drop_first()),
                Err(failure) => Err(failure),
            },
        }
    }
}

/// One line of the text form.
pub open spec fn setting_line(key: Seq<char>, value: Seq<char>) -> Seq<char> {
    key + " = "@ + value + "\n"@
}

/// How a flag is written.
pub open spec fn flag_text(b: bool) -> Seq<char> {
    if b {
        "true"@
    } else {
        "false"@
    }
}

/// The line for a text that may be absent.
pub open spec fn optional_line(key: Seq<char>, value: Option<Seq<char>>) -> Seq<char> {
    match value {
        Some(v) => setting_line(key, v),
        None => Seq::empty(),
    }
}

/// The text form of the agent's identity and broker settings.
pub open spec fn saved(c: AgentConfigView) -> Seq<char> {
    setting_line("agent_id"@, c.agent_id) + setting_line("agent_version"@, c.agent_version)
        + setting_line("broker_host"@, c.mqtt.broker_host) + setting_line(
        "broker_port"@,
        decimal(c.mqtt.broker_port as nat),
    ) + optional_line("username"@, c.mqtt.username) + optional_line("password"@, c.mqtt.password)
        + setting_line("use_tls"@, flag_text(c.mqtt.use_tls)) + setting_line(
        "command_topic"@,
        c.mqtt.command_topic,
    ) + setting_line("keep_alive"@, decimal(c.mqtt.keep_alive as nat)) + setting_line(
        "reconnect_interval"@,
        decimal(c.mqtt.reconnect_interval as nat),
    )
}

fn invalid(key: &str, value: &str) -> (r: Failure)
    ensures
        r@ == invalid_setting(key@, value@),
{
    let mut message = String::from_str("Invalid value for ");
    message.append(key);
    message.append(": ");
    message.append(value);
    Failure::Configuration { message }
}

fn append_line(out: &mut String, key: &str, value: &str)
    ensures
        final(out)@ == old(out)@ + setting_line(key@, value@),
{
    let ghost before = out@;
    out.append(key);
    out.append(" = ");
    out.append(value);
    out.append("\n");
    assert(out@ =~= before + setting_line(key@, value@));
}

fn append_optional(out: &mut String, key: &str, value: &Option<String>)
    ensures
        final(out)@ == old(out)@ + optional_line(key@, text_of(*value)),
{
    let ghost before = out@;
    match value {
        Some(v) => append_line(out, key, v.as_str()),
        None => {
            assert(before + Seq::<char>::empty() =~= before);
        },
    }
}

impl AgentConfig {
    /// The configuration with one setting taken.
    pub fn set(self, key: &str, value: String) -> (r: Result<AgentConfig, Failure>)
        ensures
            outcome_of(r) == with_setting(self@, key@, value@),
    {
        let mut c = self;
        if same_text(key, "agent_id") {
            c.agent_id = value;
        } else if same_text(key, "agent_version") {
            c.agent_version = value;
        } else if same_text(key, "broker_host") {
            c.mqtt.broker_host = value;
        } else if same_text(key, "broker_port") {
            match parse_number(value.as_str(), 0xffff) {
                Some(n) => {
                    c.mqtt.broker_port = n as u16;
                },
                None => {
                    return Err(invalid(key, value.as_str()));
                },
            }
        } else if same_text(key, "username") {
            c.mqtt.username = Some(value);
        } else if same_text(key, "password") {
            c.mqtt.password = Some(value);
        } else if same_text(key, "use_tls") {
            match parse_flag(value.as_str()) {
                Some(b) => {
                    c.mqtt.use_tls = b;
                },
                None => {
                    return Err(invalid(key, value.as_str()));
                },
            }
        } else if same_text(key, "command_topic") {
            c.mqtt.command_topic = value;
        } else if same_text(key, "keep_alive") {
            match parse_number(value.as_str(), 0xffff) {
                Some(n) => {
                    c.mqtt.keep_alive = n as u16;
                },
                None => {
                    return Err(invalid(key, value.as_str()));
                },
            }
        } else if same_text(key, "reconnect_interval") {
            match parse_number(value.as_str(), 0xffff_ffff_ffff_ffff) {
                Some(n) => {
                    c.mqtt.reconnect_interval = n;
                },
                None => {
                    return Err(invalid(key, value.as_str()));
                },
            }
        }
        Ok(c)
    }

    /// The configuration that the text describes: `defaults` with the
    /// settings of the text's lines taken in order.
    pub fn load(text: &str, defaults: AgentConfig) -> (r: Result<AgentConfig, Failure>)
        ensures
            outcome_of(r) == loaded(defaults@, lines_of(text@)),
    {
        let lines = split_lines(text);
        let n = lines.len();
        let ghost all = lines.deep_view();
        let mut config = defaults;
        let mut i: usize = 0;
        assert(all.skip(0) == all);
        while i < n
            invariant
                i <= n,
                n == lines@.len(),
                all == lines.deep_view(),
                all == lines_of(text@),
                loaded(config@, all.skip(i as int)) == loaded(defaults@, all),
            decreases n - i,
        {
            assert(all.skip(i as int)[0] == lines@[i as int]@);
            assert(all.skip(i as int).drop_first() == all.skip(i + 1));
            match parse_setting(lines[i].as_str()) {
                Some(pair) => {
                    match config.set(pair.0.as_str(), pair.1) {
                        Ok(next) => {
                            config = next;
                        },
                        Err(failure) => {
                            return Err(failure);
                        },
                    }
                },
                None => {},
            }
            i += 1;
        }
        assert(all.skip(n as int).len() == 0);
        Ok(config)
    }

    /// The text form of the agent's identity and broker settings.
    pub fn save(&self) -> (r: String)
        ensures
            r@ == saved(self@),
    {
        let mut out = String::new();
        assert(out@ + setting_line("agent_id"@, self.agent_id@) =~= setting_line(
            "agent_id"@,
            self.agent_id@,
        ));
        append_line(&mut out, "agent_id", self.agent_id.as_str());
        append_line(&mut out, "agent_version", self.agent_version.as_str());
        append_line(&mut out, "broker_host", self.mqtt.broker_host.as_str());
        append_line(&mut out, "broker_port", format_u64(self.mqtt.broker_port as u64).as_str());
        append_optional(&mut out, "username", &self.mqtt.username);
        append_optional(&mut out, "password", &self.mqtt.password);
        append_line(
            &mut out,
            "use_tls",
            if self.mqtt.use_tls {
                "true"
            } else {
                "false"
            },
        );
        append_line(&mut out, "command_topic", self.mqtt.command_topic.as_str());
        append_line(&mut out, "keep_alive", format_u64(self.mqtt.keep_alive as u64).as_str());
        append_line(
            &mut out,
            "reconnect_interval",
            format_u64(self.mqtt.reconnect_interval).as_str(),
        );
        out
    }
}

/// The keys of the text form are keys, and no two of them are the same.
pub proof fn lemma_keys()
    ensures
        is_key("agent_id"@),
        is_key("agent_version"@),
        is_key("broker_host"@),
        is_key("broker_port"@),
        is_key("username"@),
        is_key("password"@),
        is_key("use_tls"@),
        is_key("command_topic"@),
        is_key("keep_alive"@),
        is_key("reconnect_interval"@),
        "agent_id"@ == seq!['a', 'g', 'e', 'n', 't', '_', 'i', 'd'],
        "agent_version"@ == seq![
            'a',
            'g',
            'e',
            'n',
            't',
            '_',
            'v',
            'e',
            'r',
            's',
            'i',
            'o',
            'n',
        ],
        "broker_host"@ == seq!['b', 'r', 'o', 'k', 'e', 'r', '_', 'h', 'o', 's', 't'],
        "broker_port"@ == seq!['b', 'r', 'o', 'k', 'e', 'r', '_', 'p', 'o', 'r', 't'],
        "username"@ == seq!['u', 's', 'e', 'r', 'n', 'a', 'm', 'e'],
        "password"@ == seq!['p', 'a', 's', 's', 'w', 'o', 'r', 'd'],
        "use_tls"@ == seq!['u', 's', 'e', '_', 't', 'l', 's'],
        "command_topic"@ == seq![
            'c',
            'o',
            'm',
            'm',
            'a',
            'n',
            'd',
            '_',
            't',
            'o',
            'p',
            'i',
            'c',
        ],
        "keep_alive"@ == seq!['k', 'e', 'e', 'p', '_', 'a', 'l', 'i', 'v', 'e'],
        "reconnect_interval"@ == seq![
            'r',
            'e',
            'c',
            'o',
            'n',
            'n',
            'e',
            'c',
            't',
            '_',
            'i',
            'n',
            't',
            'e',
            'r',
            'v',
            'a',
            'l',
        ],
{
    reveal_strlit("agent_id");
    reveal_strlit("agent_version");
    reveal_strlit("broker_host");
    reveal_strlit("broker_port");
    reveal_strlit("username");
    reveal_strlit("password");
    reveal_strlit("use_tls");
    reveal_strlit("command_topic");
    reveal_strlit("keep_alive");
    reveal_strlit("reconnect_interval");
    assert("agent_id"@ =~= seq!['a', 'g', 'e', 'n', 't', '_', 'i', 'd']);
    assert("agent_version"@ =~= seq![
        'a',
        'g',
        'e',
        'n',
        't',
        '_',
        'v',
        'e',
        'r',
        's',
        'i',
        'o',
        'n',
    ]);
    assert("broker_host"@ =~= seq!['b', 'r', 'o', 'k', 'e', 'r', '_', 'h', 'o', 's', 't']);
    assert("broker_port"@ =~= seq!['b', 'r', 'o', 'k', 'e', 'r', '_', 'p', 'o', 'r', 't']);
    assert("username"@ =~= seq!['u', 's', 'e', 'r', 'n', 'a', 'm', 'e']);
    assert("password"@ =~= seq!['p', 'a', 's', 's', 'w', 'o', 'r', 'd']);
    assert("use_tls"@ =~= seq!['u', 's', 'e', '_', 't', 'l', 's']);
    assert("command_topic"@ =~= seq![
        'c',
        'o',
        'm',
        'm',
        'a',
        'n',
        'd',
        '_',
        't',
        'o',
        'p',
        'i',
        'c',
    ]);
    assert("keep_alive"@ =~= seq!['k', 'e', 'e', 'p', '_', 'a', 'l', 'i', 'v', 'e']);
    assert("reconnect_interval"@ =~= seq![
        'r',
        'e',
        'c',
        'o',
        'n',
        'n',
        'e',
        'c',
        't',
        '_',
        'i',
        'n',
        't',
        'e',
        'r',
        'v',
        'a',
        'l',
    ]);
}

/// True for a configuration whose texts all fit on a line: none holds a
/// line feed, none begins or ends with white space.
pub open spec fn fits_lines(c: AgentConfigView) -> bool {
    &&& is_plain(c.agent_id)
    &&& is_plain(c.agent_version)
    &&& is_plain(c.mqtt.broker_host)
    &&& is_plain(c.mqtt.command_topic)
    &&& (c.mqtt.username matches Some(v) ==> is_plain(v))
    &&& (c.mqtt.password matches Some(v) ==> is_plain(v))
}

/// What loading the text form of `c` over `defaults` gives: the identity
/// and the broker settings of `c`, with the user name and the password of
/// `defaults` where `c` has none, and the script settings of `defaults`.
pub open spec fn restored(c: AgentConfigView, defaults: AgentConfigView) -> AgentConfigView {
    AgentConfigView {
        agent_id: c.agent_id,
        agent_version: c.agent_version,
        mqtt: MqttConfigView {
            username: match c.mqtt.username {
                Some(v) => Some(v),
                None => defaults.mqtt.username,
            },
            password: match c.mqtt.password {
                Some(v) => Some(v),
                None => defaults.mqtt.password,
            },
            ..c.mqtt
        },
        script: defaults.script,
    }
}

proof fn lemma_loaded_line(c: AgentConfigView, key: Seq<char>, value: Seq<char>, rest: Seq<char>)
    requires
        is_key(key),
        is_plain(value),
    ensures
        loaded(c, lines_of(setting_line(key, value) + rest)) == match with_setting(c, key, value) {
            Ok(next) => loaded(next, lines_of(rest)),
            Err(failure) => Err(failure),
        },
{
    reveal_strlit("\n");
    assert("\n"@ =~= seq!['\n']);
    lemma_setting_round_trip(key, value);
    let line = line_of(key, value);
    lemma_first_line(line, rest);
    assert(setting_line(key, value) + rest =~= line + seq!['\n'] + rest);
    let lines = seq![line] + lines_of(rest);
    assert(lines[0] == line);
    assert(lines.drop_first() =~= lines_of(rest));
}

proof fn lemma_flag_round_trip(b: bool)
    ensures
        flag_of(flag_text(b)) == Some(b),
        is_plain(flag_text(b)),
{
    reveal_strlit("true");
    reveal_strlit("false");
    let t = flag_text(b);
    assert("true"@ =~= seq!['t', 'r', 'u', 'e']);
    assert("false"@ =~= seq!['f', 'a', 'l', 's', 'e']);
    assert forall|j: int| 0 <= j < t.len() implies t[j] != '\n' by {}
}

/// The keys of the text form are keys.
pub proof fn lemma_keys_are_keys()
    ensures
        is_key("agent_id"@),
        is_key("agent_version"@),
        is_key("broker_host"@),
        is_key("broker_port"@),
        is_key("username"@),
        is_key("password"@),
        is_key("use_tls"@),
        is_key("command_topic"@),
        is_key("keep_alive"@),
        is_key("reconnect_interval"@),
{
    lemma_keys();
}

/// What the settings that take any text do.
proof fn lemma_text_settings(c: AgentConfigView, v: Seq<char>)
    ensures
        with_setting(c, "agent_id"@, v) == Ok::<AgentConfigView, FailureView>(
            AgentConfigView { agent_id: v, ..c },
        ),
        with_setting(c, "agent_version"@, v) == Ok::<AgentConfigView, FailureView>(
            AgentConfigView { agent_version: v, ..c },
        ),
        with_setting(c, "broker_host"@, v) == Ok::<AgentConfigView, FailureView>(
            AgentConfigView { mqtt: MqttConfigView { broker_host: v, ..c.mqtt }, ..c },
        ),
        with_setting(c, "username"@, v) == Ok::<AgentConfigView, FailureView>(
            AgentConfigView { mqtt: MqttConfigView { username: Some(v), ..c.mqtt }, ..c },
        ),
        with_setting(c, "password"@, v) == Ok::<AgentConfigView, FailureView>(
            AgentConfigView { mqtt: MqttConfigView { password: Some(v), ..c.mqtt }, ..c },
        ),
        with_setting(c, "command_topic"@, v) == Ok::<AgentConfigView, FailureView>(
            AgentConfigView { mqtt: MqttConfigView { command_topic: v, ..c.mqtt }, ..c },
        ),
{
    lemma_keys();
    assert("agent_id"@.len() == 8);
    assert("agent_version"@.len() == 13);
    assert("broker_host"@.len() == 11);
    assert("broker_port"@.len() == 11);
    assert("broker_host"@[7] != "broker_port"@[7]);
    assert("username"@.len() == 8);
    assert("username"@[0] != "agent_id"@[0]);
    assert("password"@.len() == 8);
    assert("password"@[0] != "agent_id"@[0]);
    assert("password"@[0] != "username"@[0]);
    assert("use_tls"@.len() == 7);
    assert("command_topic"@.len() == 13);
    assert("command_topic"@[0] != "agent_version"@[0]);
}

/// What the settings that take a number or a flag do with a value that
/// was written from one.
proof fn lemma_value_settings(c: AgentConfigView, port: u16, alive: u16, interval: u64, tls: bool)
    ensures
        with_setting(c, "broker_port"@, decimal(port as nat)) == Ok::<
            AgentConfigView,
            FailureView,
        >(AgentConfigView { mqtt: MqttConfigView { broker_port: port, ..c.mqtt }, ..c }),
        with_setting(c, "keep_alive"@, decimal(alive as nat)) == Ok::<
            AgentConfigView,
            FailureView,
        >(AgentConfigView { mqtt: MqttConfigView { keep_alive: alive, ..c.mqtt }, ..c }),
        with_setting(c, "reconnect_interval"@, decimal(interval as nat)) == Ok::<
            AgentConfigView,
            FailureView,
        >(AgentConfigView { mqtt: MqttConfigView { reconnect_interval: interval, ..c.mqtt }, ..c }),
        with_setting(c, "use_tls"@, flag_text(tls)) == Ok::<AgentConfigView, FailureView>(
            AgentConfigView { mqtt: MqttConfigView { use_tls: tls, ..c.mqtt }, ..c },
        ),
        is_plain(decimal(port as nat)),
        is_plain(decimal(alive as nat)),
        is_plain(decimal(interval as nat)),
        is_plain(flag_text(tls)),
{
    lemma_keys();
    lemma_number_round_trip(port as nat, 0xffff);
    lemma_number_round_trip(alive as nat, 0xffff);
    lemma_number_round_trip(interval as nat, 0xffff_ffff_ffff_ffff);
    lemma_flag_round_trip(tls);
    assert("agent_id"@.len() == 8);
    assert("agent_version"@.len() == 13);
    assert("broker_host"@.len() == 11);
    assert("broker_port"@.len() == 11);
    assert("broker_host"@[7] != "broker_port"@[7]);
    assert("username"@.len() == 8);
    assert("password"@.len() == 8);
    assert("use_tls"@.len() == 7);
    assert("command_topic"@.len() == 13);
    assert("keep_alive"@.len() == 10);
    assert("reconnect_interval"@.len() == 18);
}

/// A line whose setting is taken leaves the rest of the text to load.
proof fn lemma_line_taken(
    c: AgentConfigView,
    key: Seq<char>,
    value: Seq<char>,
    rest: Seq<char>,
    next: AgentConfigView,
)
    requires
        is_key(key),
        is_plain(value),
        with_setting(c, key, value) == Ok::<AgentConfigView, FailureView>(next),
    ensures
        loaded(c, lines_of(setting_line(key, value) + rest)) == loaded(next, lines_of(rest)),
{
    lemma_loaded_line(c, key, value, rest);
}

/// The text form, line by line from its end.
proof fn lemma_saved_shape(c: AgentConfigView)
    ensures
        saved(c) == setting_line("agent_id"@, c.agent_id) + (setting_line(
            "agent_version"@,
            c.agent_version,
        ) + (setting_line("broker_host"@, c.mqtt.broker_host) + (setting_line(
            "broker_port"@,
            decimal(c.mqtt.broker_port as nat),
        ) + (optional_line("username"@, c.mqtt.username) + (optional_line(
            "password"@,
            c.mqtt.password,
        ) + (setting_line("use_tls"@, flag_text(c.mqtt.use_tls)) + (setting_line(
            "command_topic"@,
            c.mqtt.command_topic,
        ) + (setting_line("keep_alive"@, decimal(c.mqtt.keep_alive as nat)) + (setting_line(
            "reconnect_interval"@,
            decimal(c.mqtt.reconnect_interval as nat),
        ) + Seq::<char>::empty()))))))))),
{
    let l1 = setting_line("agent_id"@, c.agent_id);
    let l2 = setting_line("agent_version"@, c.agent_version);
    let l3 = setting_line("broker_host"@, c.mqtt.broker_host);
    let l4 = setting_line("broker_port"@, decimal(c.mqtt.broker_port as nat));
    let l5 = optional_line("username"@, c.mqtt.username);
    let l6 = optional_line("password"@, c.mqtt.password);
    let l7 = setting_line("use_tls"@, flag_text(c.mqtt.use_tls));
    let l8 = setting_line("command_topic"@, c.mqtt.command_topic);
    let l9 = setting_line("keep_alive"@, decimal(c.mqtt.keep_alive as nat));
    let l10 = setting_line("reconnect_interval"@, decimal(c.mqtt.reconnect_interval as nat));
    let p1 = l1;
    let p2 = p1 + l2;
    let p3 = p2 + l3;
    let p4 = p3 + l4;
    let p5 = p4 + l5;
    let p6 = p5 + l6;
    let p7 = p6 + l7;
    let p8 = p7 + l8;
    let p9 = p8 + l9;
    let p10 = p9 + l10;
    let t11 = Seq::<char>::empty();
    let t10 = l10 + t11;
    let t9 = l9 + t10;
    let t8 = l8 + t9;
    let t7 = l7 + t8;
    let t6 = l6 + t7;
    let t5 = l5 + t6;
    let t4 = l4 + t5;
    let t3 = l3 + t4;
    let t2 = l2 + t3;
    assert(saved(c) == p10);
    assert(p10 == p10 + t11) by {
        assert(p10 =~= p10 + t11);
    }
    assert(p10 + t11 == p9 + t10) by {
        lemma_concat_associative(p9, l10, t11);
    }
    assert(p9 + t10 == p8 + t9) by {
        lemma_concat_associative(p8, l9, t10);
    }
    assert(p8 + t9 == p7 + t8) by {
        lemma_concat_associative(p7, l8, t9);
    }
    assert(p7 + t8 == p6 + t7) by {
        lemma_concat_associative(p6, l7, t8);
    }
    assert(p6 + t7 == p5 + t6) by {
        lemma_concat_associative(p5, l6, t7);
    }
    assert(p5 + t6 == p4 + t5) by {
        lemma_concat_associative(p4, l5, t6);
    }
    assert(p4 + t5 == p3 + t4) by {
        lemma_concat_associative(p3, l4, t5);
    }
    assert(p3 + t4 == p2 + t3) by {
        lemma_concat_associative(p2, l3, t4);
    }
    assert(p2 + t3 == p1 + t2) by {
        lemma_concat_associative(p1, l2, t3);
    }
}

/// Loading a text that has ended changes nothing.
proof fn lemma_loaded_end(c: AgentConfigView)
    ensures
        loaded(c, lines_of(Seq::<char>::empty())) == Ok::<AgentConfigView, FailureView>(c),
{
    let end = Seq::<char>::empty();
    assert(!end.contains('\n'));
    lemma_first_line(end, end);
    assert(lines_of(end) == seq![end]);
    assert(setting_of(end) is None);
    assert(seq![end].drop_first() =~= Seq::<Seq<char>>::empty());
    assert(loaded(c, seq![end]) == loaded(c, Seq::<Seq<char>>::empty()));
}

/// What is saved is loaded again. The text form of a configuration whose
/// texts fit on a line, loaded over any defaults, gives the identity and the
/// broker settings that were saved.
pub proof fn lemma_saved_is_loaded(c: AgentConfigView, defaults: AgentConfigView)
    requires
        fits_lines(c),
    ensures
        loaded(defaults, lines_of(saved(c))) == Ok::<AgentConfigView, FailureView>(
            restored(c, defaults),
        ),
{
    let port = decimal(c.mqtt.broker_port as nat);
    let alive = decimal(c.mqtt.keep_alive as nat);
    let interval = decimal(c.mqtt.reconnect_interval as nat);
    let tls = flag_text(c.mqtt.use_tls);
    let end = Seq::<char>::empty();
    let r10 = setting_line("reconnect_interval"@, interval) + end;
    let r9 = setting_line("keep_alive"@, alive) + r10;
    let r8 = setting_line("command_topic"@, c.mqtt.command_topic) + r9;
    let r7 = setting_line("use_tls"@, tls) + r8;
    let r6 = optional_line("password"@, c.mqtt.password) + r7;
    let r5 = optional_line("username"@, c.mqtt.username) + r6;
    let r4 = setting_line("broker_port"@, port) + r5;
    let r3 = setting_line("broker_host"@, c.mqtt.broker_host) + r4;
    let r2 = setting_line("agent_version"@, c.agent_version) + r3;
    let r1 = setting_line("agent_id"@, c.agent_id) + r2;
    assert(saved(c) == r1) by {
        lemma_saved_shape(c);
    }
    let c1 = AgentConfigView { agent_id: c.agent_id, ..defaults };
    let c2 = AgentConfigView { agent_version: c.agent_version, ..c1 };
    let c3 = AgentConfigView {
        mqtt: MqttConfigView { broker_host: c.mqtt.broker_host, ..c2.mqtt },
        ..c2
    };
    let c4 = AgentConfigView {
        mqtt: MqttConfigView { broker_port: c.mqtt.broker_port, ..c3.mqtt },
        ..c3
    };
    let c5 = AgentConfigView {
        mqtt: MqttConfigView { username: restored(c, defaults).mqtt.username, ..c4.mqtt },
        ..c4
    };
    let c6 = AgentConfigView {
        mqtt: MqttConfigView { password: restored(c, defaults).mqtt.password, ..c5.mqtt },
        ..c5
    };
    let c7 = AgentConfigView { mqtt: MqttConfigView { use_tls: c.mqtt.use_tls, ..c6.mqtt }, ..c6 };
    let c8 = AgentConfigView {
        mqtt: MqttConfigView { command_topic: c.mqtt.command_topic, ..c7.mqtt },
        ..c7
    };
    let c9 = AgentConfigView {
        mqtt: MqttConfigView { keep_alive: c.mqtt.keep_alive, ..c8.mqtt },
        ..c8
    };
    let c10 = AgentConfigView {
        mqtt: MqttConfigView { reconnect_interval: c.mqtt.reconnect_interval, ..c9.mqtt },
        ..c9
    };
    assert(loaded(defaults, lines_of(r1)) == loaded(c1, lines_of(r2))) by {
        lemma_keys_are_keys();
        lemma_text_settings(defaults, c.agent_id);
        lemma_line_taken(defaults, "agent_id"@, c.agent_id, r2, c1);
    }
    assert(loaded(c1, lines_of(r2)) == loaded(c2, lines_of(r3))) by {
        lemma_keys_are_keys();
        lemma_text_settings(c1, c.agent_version);
        lemma_line_taken(c1, "agent_version"@, c.agent_version, r3, c2);
    }
    assert(loaded(c2, lines_of(r3)) == loaded(c3, lines_of(r4))) by {
        lemma_keys_are_keys();
        lemma_text_settings(c2, c.mqtt.broker_host);
        lemma_line_taken(c2, "broker_host"@, c.mqtt.broker_host, r4, c3);
    }
    assert(loaded(c3, lines_of(r4)) == loaded(c4, lines_of(r5))) by {
        lemma_keys_are_keys();
        lemma_value_settings(
            c3,
            c.mqtt.broker_port,
            c.mqtt.keep_alive,
            c.mqtt.reconnect_interval,
            c.mqtt.use_tls,
        );
        lemma_line_taken(c3, "broker_port"@, port, r5, c4);
    }
    assert(loaded(c4, lines_of(r5)) == loaded(c5, lines_of(r6))) by {
        match c.mqtt.username {
            Some(v) => {
                lemma_keys_are_keys();
                lemma_text_settings(c4, v);
                lemma_line_taken(c4, "username"@, v, r6, c5);
            },
            None => {
                assert(r5 =~= r6);
                assert(c5 == c4);
            },
        }
    }
    assert(loaded(c5, lines_of(r6)) == loaded(c6, lines_of(r7))) by {
        match c.mqtt.password {
            Some(v) => {
                lemma_keys_are_keys();
                lemma_text_settings(c5, v);
                lemma_line_taken(c5, "password"@, v, r7, c6);
            },
            None => {
                assert(r6 =~= r7);
                assert(c6 == c5);
            },
        }
    }
    assert(loaded(c6, lines_of(r7)) == loaded(c7, lines_of(r8))) by {
        lemma_keys_are_keys();
        lemma_value_settings(
            c6,
            c.mqtt.broker_port,
            c.mqtt.keep_alive,
            c.mqtt.reconnect_interval,
            c.mqtt.use_tls,
        );
        lemma_line_taken(c6, "use_tls"@, tls, r8, c7);
    }
    assert(loaded(c7, lines_of(r8)) == loaded(c8, lines_of(r9))) by {
        lemma_keys_are_keys();
        lemma_text_settings(c7, c.mqtt.command_topic);
        lemma_line_taken(c7, "command_topic"@, c.mqtt.command_topic, r9, c8);
    }
    assert(loaded(c8, lines_of(r9)) == loaded(c9, lines_of(r10))) by {
        lemma_keys_are_keys();
        lemma_value_settings(
            c8,
            c.mqtt.broker_port,
            c.mqtt.keep_alive,
            c.mqtt.reconnect_interval,
            c.mqtt.use_tls,
        );
        lemma_line_taken(c8, "keep_alive"@, alive, r10, c9);
    }
    assert(loaded(c9, lines_of(r10)) == loaded(c10, lines_of(end))) by {
        lemma_keys_are_keys();
        lemma_value_settings(
            c9,
            c.mqtt.broker_port,
            c.mqtt.keep_alive,
            c.mqtt.reconnect_interval,
            c.mqtt.use_tls,
        );
        lemma_line_taken(c9, "reconnect_interval"@, interval, end, c10);
    }
    lemma_loaded_end(c10);
    assert(c10 == restored(c, defaults));
}

} // verus!
