//! The signal-cli daemon's settings and process state.

use vstd::prelude::*;

use crate::numtext::{lemma_uint_text_nonneg, parse_u16, uint_text};
use crate::text::{decimal, push_decimal, push_signed_decimal, push_str, signed_decimal, str_eq, to_owned_string};

verus! {

/// signal-cli settings.
#[derive(Debug, Clone)]
pub struct SignalCliConfig {
    /// Path of the signal-cli executable.
    pub executable_path: String,
    /// Data directory.
    pub data_dir: String,
    /// Host of the HTTP JSON-RPC interface.
    pub http_host: String,
    /// Port of the HTTP JSON-RPC interface.
    pub http_port: u16,
    /// Log level.
    pub log_level: String,
    /// Whether to run in native mode.
    pub native_mode: bool,
}

impl Default for SignalCliConfig {
    fn default() -> (c: Self)
        ensures
            c.executable_path@ == "signal-cli"@,
            c.data_dir@ == "./data/signal"@,
            c.http_host@ == "127.0.0.1"@,
            c.http_port == 8080,
            c.log_level@ == "info"@,
            c.native_mode,
    {
        SignalCliConfig {
            executable_path: to_owned_string("signal-cli"),
            data_dir: to_owned_string("./data/signal"),
            http_host: to_owned_string("127.0.0.1"),
            http_port: 8080,
            log_level: to_owned_string("info"),
            native_mode: true,
        }
    }
}

impl SignalCliConfig {
    /// The base URL of the HTTP interface.
    pub fn http_base_url(&self) -> (s: String)
        ensures
            s@ == "http://"@ + self.http_host@ + ":"@ + decimal(self.http_port as nat),
    {
        let mut s = to_owned_string("http://");
        push_str(&mut s, self.http_host.as_str());
        push_str(&mut s, ":");
        push_decimal(&mut s, self.http_port as u64);
        s
    }
}

/// The state of the signal-cli process.
#[derive(Debug, Clone, PartialEq, Eq)]
pub enum SignalCliState {
    Stopped,
    Starting,
    Running,
    Stopping,
    Error(String),
}

/// The data part of a message that the daemon delivered.
#[derive(Debug, Clone)]
pub struct DataMessage {
    pub timestamp: i64,
    pub message: Option<String>,
    pub expires_in_seconds: Option<i32>,
    pub view_once: Option<bool>,
    pub attachments: Vec<AttachmentInfo>,
    pub quote: Option<QuoteInfo>,
    pub reaction: Option<ReactionInfo>,
    pub remote_delete: Option<RemoteDeleteInfo>,
    pub sticker: Option<StickerInfo>,
    pub group_info: Option<GroupInfo>,
}

/// An attachment of a delivered message.
#[derive(Debug, Clone)]
pub struct AttachmentInfo {
    pub id: String,
    pub content_type: String,
    pub filename: String,
    pub size: i64,
    pub width: Option<i32>,
    pub height: Option<i32>,
    pub voice_note: Option<bool>,
}

/// The message that a delivered message quotes.
#[derive(Debug, Clone)]
pub struct QuoteInfo {
    pub id: i64,
    pub author: String,
    pub text: Option<String>,
}

/// A reaction to an earlier message.
#[derive(Debug, Clone)]
pub struct ReactionInfo {
    pub emoji: String,
    pub target_author: String,
    pub target_sent_timestamp: i64,
    pub is_remove: bool,
}

/// The deletion of an earlier message by its sender.
#[derive(Debug, Clone)]
pub struct RemoteDeleteInfo {
    pub target_sent_timestamp: i64,
}

/// A sticker.
#[derive(Debug, Clone)]
pub struct StickerInfo {
    pub sticker_id: String,
    pub pack_id: String,
    pub emoji: Option<String>,
}

/// The group a delivered message belongs to.
#[derive(Debug, Clone)]
pub struct GroupInfo {
    pub group_id: String,
    pub group_name: Option<String>,
}

/// A typing notification.
#[derive(Debug, Clone)]
pub struct TypingMessage {
    pub action: String,
    pub timestamp: i64,
    pub group_id: Option<String>,
}

/// `v`, or `default` when absent.
pub open spec fn text_or_default(v: Option<String>, default: Seq<char>) -> Seq<char> {
    match v {
        Some(s) => s@,
        None => default,
    }
}

/// The value of an optional setting, or `default`.
fn string_or(v: Option<String>, default: &str) -> (s: String)
    ensures
        s@ == text_or_default(v, default@),
{
    match v {
        Some(s) => s,
        None => to_owned_string(default),
    }
}

impl SignalCliConfig {
    /// The settings from the values of the environment, each defaulting as
    /// `Default` does: the port where it reads as a `u16`, and native mode
    /// unless the value is `false`.
    pub fn from_values(
        executable_path: Option<String>,
        data_dir: Option<String>,
        http_host: Option<String>,
        http_port: Option<String>,
        log_level: Option<String>,
        native_mode: Option<String>,
    ) -> (c: Self)
        ensures
            c.executable_path@ == text_or_default(executable_path, "signal-cli"@),
            c.data_dir@ == text_or_default(data_dir, "./data/signal"@),
            c.http_host@ == text_or_default(http_host, "127.0.0.1"@),
            c.http_port == (match http_port {
                Some(p) => match uint_text(p@) {
                    Some(n) => if n <= u16::MAX { n as u16 } else { 8080 },
                    None => 8080,
                },
                None => 8080,
            }),
            c.log_level@ == text_or_default(log_level, "info"@),
            c.native_mode == (match native_mode {
                Some(m) => m@ != "false"@,
                None => true,
            }),
    {
        let port: u16 = match &http_port {
            Some(p) => {
                proof {
                    lemma_uint_text_nonneg(p@);
                }
                match parse_u16(p.as_str()) {
                    Some(n) => n,
                    None => 8080,
                }
            },
            None => 8080,
        };
        let native = match &native_mode {
            Some(m) => !str_eq(m.as_str(), "false"),
            None => true,
        };
        SignalCliConfig {
            executable_path: string_or(executable_path, "signal-cli"),
            data_dir: string_or(data_dir, "./data/signal"),
            http_host: string_or(http_host, "127.0.0.1"),
            http_port: port,
            log_level: string_or(log_level, "info"),
            native_mode: native,
        }
    }
}

/// The base URL of a daemon's HTTP interface.
pub open spec fn http_base_of(c: SignalCliConfig) -> Seq<char> {
    "http://"@ + c.http_host@ + ":"@ + decimal(c.http_port as nat)
}

impl SignalCliConfig {
    /// The URL listing the daemon's accounts (also its health check).
    pub fn accounts_url(&self) -> (s: String)
        ensures
            s@ == http_base_of(*self) + "/v1/accounts"@,
    {
        let mut s = self.http_base_url();
        push_str(&mut s, "/v1/accounts");
        s
    }

    /// The URL registering a phone number.
    pub fn register_url(&self, phone_number: &str) -> (s: String)
        ensures
            s@ == http_base_of(*self) + "/v1/register/"@ + phone_number@,
    {
        let mut s = self.http_base_url();
        push_str(&mut s, "/v1/register/");
        push_str(&mut s, phone_number);
        s
    }

    /// The URL verifying a phone number's registration.
    pub fn verify_url(&self, phone_number: &str) -> (s: String)
        ensures
            s@ == http_base_of(*self) + "/v1/register/"@ + phone_number@ + "/verify"@,
    {
        let mut s = self.register_url(phone_number);
        push_str(&mut s, "/verify");
        s
    }

    /// The URL of a device, or of a number's devices.
    pub fn devices_url(&self, name: &str) -> (s: String)
        ensures
            s@ == http_base_of(*self) + "/v1/devices/"@ + name@,
    {
        let mut s = self.http_base_url();
        push_str(&mut s, "/v1/devices/");
        push_str(&mut s, name);
        s
    }

    /// The URL of one linked device of a number.
    pub fn device_url(&self, phone_number: &str, device_id: i64) -> (s: String)
        ensures
            s@ == http_base_of(*self) + "/v1/devices/"@ + phone_number@ + "/"@ + signed_decimal(device_id as int),
    {
        let mut s = self.devices_url(phone_number);
        push_str(&mut s, "/");
        push_signed_decimal(&mut s, device_id);
        s
    }
}

/// What the daemon reports on its output, as far as its state goes: a
/// status change, an error, or anything else.
#[derive(Debug, Clone, PartialEq, Eq)]
pub enum DaemonReport {
    Status { connected: bool },
    Error { message: String },
    Other,
}

impl SignalCliState {
    /// Whether starting the daemon has anything to do: not while it runs or
    /// is starting.
    pub fn should_start(&self) -> (b: bool)
        ensures
            b == !(*self is Running || *self is Starting),
    {
        match self {
            SignalCliState::Running | SignalCliState::Starting => false,
            _ => true,
        }
    }

    /// The state after a report from the daemon: running or stopped as its
    /// status says, in error with its message, unchanged otherwise.
    pub fn after_report(self, report: DaemonReport) -> (s: SignalCliState)
        ensures
            match report {
                DaemonReport::Status { connected } => s == (if connected { SignalCliState::Running } else { SignalCliState::Stopped }),
                DaemonReport::Error { message } => s == SignalCliState::Error(message),
                DaemonReport::Other => s == self,
            },
    {
        match report {
            DaemonReport::Status { connected } => if connected { SignalCliState::Running } else { SignalCliState::Stopped },
            DaemonReport::Error { message } => SignalCliState::Error(message),
            DaemonReport::Other => self,
        }
    }
}

impl SignalCliConfig {
    /// The arguments that start the daemon with its HTTP interface:
    /// `--config <data dir> daemon --http --http-host <host> --http-port <port>`.
    pub fn daemon_args(&self) -> (v: Vec<String>)
        ensures
            v@.map_values(|a: String| a@) == seq![
                "--config"@, self.data_dir@, "daemon"@, "--http"@, "--http-host"@, self.http_host@,
                "--http-port"@, decimal(self.http_port as nat),
            ],
    {
        let mut v: Vec<String> = Vec::new();
        v.push(to_owned_string("--config"));
        v.push(self.data_dir.clone());
        v.push(to_owned_string("daemon"));
        v.push(to_owned_string("--http"));
        v.push(to_owned_string("--http-host"));
        v.push(self.http_host.clone());
        v.push(to_owned_string("--http-port"));
        let mut port = String::new();
        push_decimal(&mut port, self.http_port as u64);
        v.push(port);
        assert(v@.map_values(|a: String| a@) =~= seq![
            "--config"@, self.data_dir@, "daemon"@, "--http"@, "--http-host"@, self.http_host@,
            "--http-port"@, decimal(self.http_port as nat),
        ]);
        v
    }
}

} // verus!
