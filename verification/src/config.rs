//! Sections of the agent configuration: service identity, server, memory,
//! queue, security and feature flags, with their defaults, the deployment
//! environments and the rules a configuration must keep.

use vstd::prelude::*;

use crate::error::AgentError;
use crate::text::{str_eq, to_owned_string};

verus! {

/// Service identity.
#[derive(Debug, Clone)]
pub struct ServiceConfig {
    pub name: String,
    pub version: String,
    pub environment: Environment,
    pub instance_id: String,
}

/// Deployment environment.
#[derive(Debug, Clone, Copy, PartialEq, Eq, Structural)]
pub enum Environment {
    Development,
    Testing,
    Staging,
    Production,
}

/// Server and API settings.
#[derive(Debug, Clone)]
pub struct ServerConfig {
    pub host: String,
    pub port: u16,
    pub request_timeout_secs: u64,
    pub max_request_size_mb: usize,
    pub enable_cors: bool,
    pub enable_compression: bool,
}

/// Memory settings.
#[derive(Debug, Clone)]
pub struct MemoryConfig {
    pub max_working_memory_mb: usize,
    pub cache_ttl_secs: u64,
    pub enable_compression: bool,
}

/// Queue and worker settings.
#[derive(Debug, Clone)]
pub struct QueueConfig {
    pub max_workers: usize,
    pub queue_size: usize,
    pub task_timeout_secs: u64,
    pub retry_attempts: u32,
    pub retry_delay_secs: u64,
}

/// Security settings.
#[derive(Debug, Clone)]
pub struct SecurityConfig {
    pub enable_auth: bool,
    pub token_ttl_secs: u64,
    pub max_failed_auth_attempts: u32,
    pub enable_rate_limiting: bool,
    pub rate_limit_requests_per_min: u32,
}

/// Feature flags for gradual rollouts, and the names of experimental
/// features switched on.
#[derive(Debug, Clone)]
pub struct FeatureFlags {
    pub enable_a2a_protocol: bool,
    pub enable_mcp_tools: bool,
    pub enable_media_processing: bool,
    pub enable_file_uploads: bool,
    pub enable_voice_messages: bool,
    pub enable_video_processing: bool,
    pub experimental_features: Vec<String>,
}

/// The name of an environment.
pub open spec fn environment_name(e: Environment) -> Seq<char> {
    match e {
        Environment::Development => "development"@,
        Environment::Testing => "testing"@,
        Environment::Staging => "staging"@,
        Environment::Production => "production"@,
    }
}

/// The environment a lowercase name or abbreviation stands for;
/// development for any other text.
pub open spec fn environment_of(name: Seq<char>) -> Environment {
    if name == "development"@ || name == "dev"@ {
        Environment::Development
    } else if name == "testing"@ || name == "test"@ {
        Environment::Testing
    } else if name == "staging"@ || name == "stage"@ {
        Environment::Staging
    } else if name == "production"@ || name == "prod"@ {
        Environment::Production
    } else {
        Environment::Development
    }
}

/// The lowercase form of a text, as `str::to_lowercase` gives it.
pub uninterp spec fn lowercased(s: Seq<char>) -> Seq<char>;

/// Lowercases a text with `str::to_lowercase` (Unicode lowercase
/// mapping). The contract claims only that the result depends on the text
/// alone.
#[verifier::external_body]
fn lowercase(s: &str) -> (r: String)
    ensures
        r@ == lowercased(s@),
{
    s.to_lowercase()
}

impl Environment {
    /// The environment's name.
    pub fn as_str(&self) -> (s: &'static str)
        ensures
            s@ == environment_name(*self),
    {
        match self {
            Environment::Development => "development",
            Environment::Testing => "testing",
            Environment::Staging => "staging",
            Environment::Production => "production",
        }
    }

    /// The environment a name stands for, in any letter case:
    /// `development`/`dev`, `testing`/`test`, `staging`/`stage`,
    /// `production`/`prod`; development for anything else.
    pub fn from_name(name: &str) -> (e: Environment)
        ensures
            e == environment_of(lowercased(name@)),
    {
        let lower = lowercase(name);
        let n = lower.as_str();
        if str_eq(n, "development") || str_eq(n, "dev") {
            Environment::Development
        } else if str_eq(n, "testing") || str_eq(n, "test") {
            Environment::Testing
        } else if str_eq(n, "staging") || str_eq(n, "stage") {
            Environment::Staging
        } else if str_eq(n, "production") || str_eq(n, "prod") {
            Environment::Production
        } else {
            Environment::Development
        }
    }
}

impl Default for ServerConfig {
    fn default() -> (c: Self)
        ensures
            c.host@ == "0.0.0.0"@,
            c.port == 8080,
            c.request_timeout_secs == 30,
            c.max_request_size_mb == 10,
            c.enable_cors,
            c.enable_compression,
    {
        ServerConfig {
            host: to_owned_string("0.0.0.0"),
            port: 8080,
            request_timeout_secs: 30,
            max_request_size_mb: 10,
            enable_cors: true,
            enable_compression: true,
        }
    }
}

impl Default for MemoryConfig {
    fn default() -> (c: Self)
        ensures
            c.max_working_memory_mb == 512,
            c.cache_ttl_secs == 3600,
            c.enable_compression,
    {
        MemoryConfig { max_working_memory_mb: 512, cache_ttl_secs: 3600, enable_compression: true }
    }
}

impl Default for QueueConfig {
    fn default() -> (c: Self)
        ensures
            c.max_workers == 10,
            c.queue_size == 1000,
            c.task_timeout_secs == 300,
            c.retry_attempts == 3,
            c.retry_delay_secs == 5,
    {
        QueueConfig { max_workers: 10, queue_size: 1000, task_timeout_secs: 300, retry_attempts: 3, retry_delay_secs: 5 }
    }
}

impl Default for SecurityConfig {
    fn default() -> (c: Self)
        ensures
            c.enable_auth,
            c.token_ttl_secs == 3600,
            c.max_failed_auth_attempts == 5,
            c.enable_rate_limiting,
            c.rate_limit_requests_per_min == 100,
    {
        SecurityConfig {
            enable_auth: true,
            token_ttl_secs: 3600,
            max_failed_auth_attempts: 5,
            enable_rate_limiting: true,
            rate_limit_requests_per_min: 100,
        }
    }
}

impl Default for FeatureFlags {
    fn default() -> (f: Self)
        ensures
            f.enable_a2a_protocol,
            f.enable_mcp_tools,
            f.enable_media_processing,
            f.enable_file_uploads,
            f.enable_voice_messages,
            !f.enable_video_processing,
            f.experimental_features@.len() == 0,
    {
        FeatureFlags {
            enable_a2a_protocol: true,
            enable_mcp_tools: true,
            enable_media_processing: true,
            enable_file_uploads: true,
            enable_voice_messages: true,
            enable_video_processing: false,
            experimental_features: Vec::new(),
        }
    }
}

impl FeatureFlags {
    /// Switches a feature by its short name (`a2a`, `mcp`, `media`,
    /// `files`, `voice`, `video`); any other name, when switched on, is
    /// added to the experimental features (and switching it off changes
    /// nothing).
    pub fn set_feature(&mut self, feature: &str, enabled: bool)
        ensures
            final(self).enable_a2a_protocol == (if feature_slot(feature@) == 0 { enabled } else { old(self).enable_a2a_protocol }),
            final(self).enable_mcp_tools == (if feature_slot(feature@) == 1 { enabled } else { old(self).enable_mcp_tools }),
            final(self).enable_media_processing == (if feature_slot(feature@) == 2 { enabled } else { old(self).enable_media_processing }),
            final(self).enable_file_uploads == (if feature_slot(feature@) == 3 { enabled } else { old(self).enable_file_uploads }),
            final(self).enable_voice_messages == (if feature_slot(feature@) == 4 { enabled } else { old(self).enable_voice_messages }),
            final(self).enable_video_processing == (if feature_slot(feature@) == 5 { enabled } else { old(self).enable_video_processing }),
            final(self).experimental_features@.map_values(|s: String| s@) == (if feature_slot(feature@) == 6 && enabled {
                old(self).experimental_features@.map_values(|s: String| s@).push(feature@)
            } else {
                old(self).experimental_features@.map_values(|s: String| s@)
            }),
    {
        if str_eq(feature, "a2a") {
            self.enable_a2a_protocol = enabled;
        } else if str_eq(feature, "mcp") {
            self.enable_mcp_tools = enabled;
        } else if str_eq(feature, "media") {
            self.enable_media_processing = enabled;
        } else if str_eq(feature, "files") {
            self.enable_file_uploads = enabled;
        } else if str_eq(feature, "voice") {
            self.enable_voice_messages = enabled;
        } else if str_eq(feature, "video") {
            self.enable_video_processing = enabled;
        } else if enabled {
            let ghost before = self.experimental_features@;
            self.experimental_features.push(to_owned_string(feature));
            assert(self.experimental_features@.map_values(|s: String| s@) =~= before.map_values(|s: String| s@).push(feature@));
        }
    }
}

/// Which flag a feature name switches, in the order the names are tried:
/// 0 `a2a`, 1 `mcp`, 2 `media`, 3 `files`, 4 `voice`, 5 `video`; 6 for any
/// other (experimental) name.
pub open spec fn feature_slot(f: Seq<char>) -> int {
    if f == "a2a"@ {
        0
    } else if f == "mcp"@ {
        1
    } else if f == "media"@ {
        2
    } else if f == "files"@ {
        3
    } else if f == "voice"@ {
        4
    } else if f == "video"@ {
        5
    } else {
        6
    }
}

/// The first rule that the server, memory and queue settings break, with
/// its message, or `None`: a zero port, a zero request size, a zero working
/// memory, no workers, checked in that order.
pub open spec fn first_broken_rule(server: ServerConfig, memory: MemoryConfig, queue: QueueConfig) -> Option<Seq<char>> {
    if server.port == 0 {
        Some("Server port cannot be 0"@)
    } else if server.max_request_size_mb == 0 {
        Some("Max request size cannot be 0"@)
    } else if memory.max_working_memory_mb == 0 {
        Some("Max working memory cannot be 0"@)
    } else if queue.max_workers == 0 {
        Some("Max workers cannot be 0"@)
    } else {
        None
    }
}

/// Checks the server, memory and queue settings; a broken rule is a
/// configuration error with its message.
pub fn validate_sections(server: &ServerConfig, memory: &MemoryConfig, queue: &QueueConfig) -> (r: Result<(), AgentError>)
    ensures
        match first_broken_rule(*server, *memory, *queue) {
            None => r is Ok,
            Some(m) => r matches Err(AgentError::Configuration(e)) && e@ == m,
        },
{
    if server.port == 0 {
        return Err(AgentError::Configuration(to_owned_string("Server port cannot be 0")));
    }
    if server.max_request_size_mb == 0 {
        return Err(AgentError::Configuration(to_owned_string("Max request size cannot be 0")));
    }
    if memory.max_working_memory_mb == 0 {
        return Err(AgentError::Configuration(to_owned_string("Max working memory cannot be 0")));
    }
    if queue.max_workers == 0 {
        return Err(AgentError::Configuration(to_owned_string("Max workers cannot be 0")));
    }
    Ok(())
}

} // verus!
