//! The data model of the administrative surface: model and API-endpoint
//! catalog entries, engine state, users, and the request/response shells.

use vstd::prelude::*;

verus! {

/// A model known to the dashboard's catalog.
pub enum ModelType {
    DeepSeekV2,
    DeepSeekV3,
    Qwen3Moe,
    Other(String),
}

pub enum ModelStatus {
    Unloaded,
    Loading,
    Loaded,
    Error,
}

/// An API endpoint exposed by the gateway.
#[derive(Debug, PartialEq, Eq)]
pub struct ApiEndpoint {
    pub id: String,
    pub name: String,
    pub api_type: ApiType,
    pub base_url: String,
    pub enabled: bool,
    pub config: ApiConfig,
}

#[derive(Debug, PartialEq, Eq)]
pub enum ApiType {
    OpenAI,
    Anthropic,
    Codex,
    OpenCode,
    Custom(String),
}

#[derive(Debug, PartialEq, Eq)]
pub struct ApiConfig {
    pub model_name: String,
    pub api_key: Option<String>,
    pub max_tokens: Option<usize>,
    pub timeout: Option<u64>,
    pub retry_count: Option<usize>,
}

/// The engine's coarse lifecycle state as shown on the dashboard.
#[derive(Clone, Copy, Debug, PartialEq, Eq, Structural)]
pub enum EngineState {
    Stopped,
    Starting,
    Running,
    Error,
}

#[derive(Clone, Copy, Debug, PartialEq, Eq, Structural)]
pub enum UserRole {
    Admin,
    Operator,
    Viewer,
}

/// The login form of the dashboard.
pub struct LoginForm {
    pub username: String,
    pub password: String,
}

/// A control intent against the locally managed engine.
pub struct EngineControlRequest {
    pub action: EngineAction,
}

#[derive(Clone, Copy, Debug, PartialEq, Eq, Structural)]
pub enum EngineAction {
    Start,
    Stop,
    Restart,
}

impl EngineAction {
    /// The action a control request names; anything else is refused.
    pub fn from_tag(tag: &str) -> (r: Option<EngineAction>)
        ensures
            tag@ == "start"@ ==> r == Some(EngineAction::Start),
            tag@ == "stop"@ ==> r == Some(EngineAction::Stop),
            tag@ == "restart"@ ==> r == Some(EngineAction::Restart),
            (tag@ != "start"@ && tag@ != "stop"@ && tag@ != "restart"@) ==> r is None,
    {
        proof {
            reveal_strlit("start");
            reveal_strlit("stop");
            reveal_strlit("restart");
            assert("start"@.len() == 5);
            assert("stop"@.len() == 4);
            assert("restart"@.len() == 7);
        }
        if crate::strutil::str_eq(tag, "start") {
            Some(EngineAction::Start)
        } else if crate::strutil::str_eq(tag, "stop") {
            Some(EngineAction::Stop)
        } else if crate::strutil::str_eq(tag, "restart") {
            Some(EngineAction::Restart)
        } else {
            None
        }
    }
}

/// The uniform response shell of the administrative API.
pub struct ApiResponse<T> {
    pub success: bool,
    pub message: String,
    pub data: Option<T>,
}

} // verus!
