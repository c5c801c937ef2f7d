//! The library's error type.
use vstd::prelude::*;
use crate::text::{decimal, decimal_text};

verus! {

/// Errors of the agent library. Errors that come from I/O or from a
/// serialization format carry the text that the failing component reported.
#[derive(Debug)]
pub enum AgentError {
    InferenceFailed(String),
    ToolFailed { tool: String, reason: String },
    ContextOverflow { current: usize, max: usize },
    SkillError(String),
    KnowledgeError(String),
    OrchestratorError(String),
    ConfigError(String),
    Io(String),
    Serialization(String),
    Toml(String),
    TomlSer(String),
    EmbeddingError(String),
    TokenizerError(String),
}

/// The human-readable text of an error.
pub open spec fn error_text(e: AgentError) -> Seq<char> {
    match e {
        AgentError::InferenceFailed(m) => "Cascade inference failed: "@ + m@,
        AgentError::ToolFailed { tool, reason } =>
            "Tool execution failed for '"@ + tool@ + "': "@ + reason@,
        AgentError::ContextOverflow { current, max } =>
            "Context limit exceeded: "@ + decimal_text(current as nat) + " tokens (limit: "@
                + decimal_text(max as nat) + ")"@,
        AgentError::SkillError(m) => "Skill error: "@ + m@,
        AgentError::KnowledgeError(m) => "Knowledge base error: "@ + m@,
        AgentError::OrchestratorError(m) => "Orchestrator error: "@ + m@,
        AgentError::ConfigError(m) => "Config error: "@ + m@,
        AgentError::Io(m) => "IO error: "@ + m@,
        AgentError::Serialization(m) => "Serialization error: "@ + m@,
        AgentError::Toml(m) => "Toml error: "@ + m@,
        AgentError::TomlSer(m) => "Toml serialization error: "@ + m@,
        AgentError::EmbeddingError(m) => "Embedding error: "@ + m@,
        AgentError::TokenizerError(m) => "Tokenization error: "@ + m@,
    }
}

fn prefixed(prefix: &str, m: &String) -> (r: String)
    ensures
        r@ == prefix@ + m@,
{
    let mut r = String::from_str(prefix);
    r.append(m.as_str());
    r
}

impl AgentError {
    /// The text that the error displays.
    pub fn message(&self) -> (r: String)
        ensures
            r@ == error_text(*self),
    {
        match self {
            AgentError::InferenceFailed(m) => prefixed("Cascade inference failed: ", m),
            AgentError::ToolFailed { tool, reason } => {
                let mut r = String::from_str("Tool execution failed for '");
                r.append(tool.as_str());
                r.append("': ");
                r.append(reason.as_str());
                r
            },
            AgentError::ContextOverflow { current, max } => {
                let mut r = String::from_str("Context limit exceeded: ");
                r.append(decimal(*current).as_str());
                r.append(" tokens (limit: ");
                r.append(decimal(*max).as_str());
                r.append(")");
                r
            },
            AgentError::SkillError(m) => prefixed("Skill error: ", m),
            AgentError::KnowledgeError(m) => prefixed("Knowledge base error: ", m),
            AgentError::OrchestratorError(m) => prefixed("Orchestrator error: ", m),
            AgentError::ConfigError(m) => prefixed("Config error: ", m),
            AgentError::Io(m) => prefixed("IO error: ", m),
            AgentError::Serialization(m) => prefixed("Serialization error: ", m),
            AgentError::Toml(m) => prefixed("Toml error: ", m),
            AgentError::TomlSer(m) => prefixed("Toml serialization error: ", m),
            AgentError::EmbeddingError(m) => prefixed("Embedding error: ", m),
            AgentError::TokenizerError(m) => prefixed("Tokenization error: ", m),
        }
    }
}

} // verus!
