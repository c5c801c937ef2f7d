//! Orchestrator transports: which one a configuration asks for. Connecting,
//! serving and exchanging messages are asynchronous and are the caller's
//! part.
pub mod types;

use vstd::prelude::*;
use crate::error::AgentError;

verus! {

/// Orchestrator settings.
#[derive(Debug)]
pub struct OrchestratorSettings {
    pub enabled: bool,
    pub transport: String,
    pub bind_address: String,
    pub connect_url: Option<String>,
}

/// A connection to an orchestrator.
pub trait OrchestratorConnection {
    /// Whether an orchestrator is connected.
    fn is_connected(&self) -> bool;
}

/// The connection used when no orchestrator is wanted: it is never connected.
#[derive(Debug)]
pub struct NoopOrchestrator;

impl OrchestratorConnection for NoopOrchestrator {
    fn is_connected(&self) -> (b: bool)
        ensures
            !b,
    {
        false
    }
}

/// The transport that a configuration asks for.
#[derive(Debug)]
pub enum TransportChoice {
    /// No orchestrator.
    Noop,
    /// Connect as a WebSocket client to this URL.
    Connect(String),
    /// Host a WebSocket server at this address.
    Serve(String),
}

/// The message of an unknown transport.
pub open spec fn unknown_transport_text(name: Seq<char>) -> Seq<char> {
    "Unknown transport: "@ + name
}

fn unknown_transport(name: &String) -> (e: AgentError)
    ensures
        e matches AgentError::OrchestratorError(m) && m@ == unknown_transport_text(name@),
{
    let mut m = String::from_str("Unknown transport: ");
    m.append(name.as_str());
    AgentError::OrchestratorError(m)
}

/// Factory for transports that need no initialization: a disabled
/// orchestrator and the WebSocket transport both give the no-op connection;
/// any other transport is an error.
pub fn create_orchestrator(config: &OrchestratorSettings) -> (r: Result<
    NoopOrchestrator,
    AgentError,
>)
    ensures
        r is Ok <==> (!config.enabled || config.transport@ == "websocket"@),
        r matches Err(e) ==> (e matches AgentError::OrchestratorError(m) && m@
            == unknown_transport_text(config.transport@)),
{
    if !config.enabled {
        return Ok(NoopOrchestrator);
    }
    if crate::text::same_text(config.transport.as_str(), "websocket") {
        Ok(NoopOrchestrator)
    } else {
        Err(unknown_transport(&config.transport))
    }
}

/// The transport to set up for a configuration: none when disabled;
/// for WebSocket, a client of the connect URL if one is given and a server at
/// the bind address otherwise; any other transport is an error.
pub fn choose_transport(config: &OrchestratorSettings) -> (r: Result<TransportChoice, AgentError>)
    ensures
        !config.enabled ==> r matches Ok(TransportChoice::Noop),
        config.enabled && config.transport@ == "websocket"@ ==> match config.connect_url {
            Some(url) => r matches Ok(TransportChoice::Connect(u)) && u@ == url@,
            None => r matches Ok(TransportChoice::Serve(a)) && a@ == config.bind_address@,
        },
        config.enabled && config.transport@ != "websocket"@ ==> (r matches Err(
            AgentError::OrchestratorError(m),
        ) && m@ == unknown_transport_text(config.transport@)),
{
    if !config.enabled {
        return Ok(TransportChoice::Noop);
    }
    if crate::text::same_text(config.transport.as_str(), "websocket") {
        match &config.connect_url {
            Some(url) => Ok(TransportChoice::Connect(url.clone())),
            None => Ok(TransportChoice::Serve(config.bind_address.clone())),
        }
    } else {
        Err(unknown_transport(&config.transport))
    }
}

} // verus!
