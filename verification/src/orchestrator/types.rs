//! Messages exchanged with the orchestrator.
use vstd::prelude::*;

verus! {

/// A message between the agent and the orchestrator.
#[derive(Debug)]
pub enum OrchestratorMessage {
    TaskStarted { task_id: String, description: String },
    TaskCompleted { task_id: String, output_path: Option<String> },
    TaskCancelled,
    Error(String),
    Warning(String),
    ContextCompacted { before: usize, after: usize },
    AssistantText(String),
    ToolExecuted { tool: String, status: String, duration_ms: u64 },
    UserQuestion { question: String },
    UserReply { content: String },
    PlanApproval { approved: bool, feedback: Option<String> },
    CancelTask,
}

} // verus!
