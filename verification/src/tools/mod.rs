//! Tool results and the planning tools' logic. Running a tool (it is
//! asynchronous) and the registry of tools are the caller's part.
pub mod planning_tools;

use vstd::prelude::*;
use crate::error::AgentError;
use crate::json::{Json, JsonValue};
use crate::planning::types::text_opt;

verus! {

/// Whether a tool succeeded.
#[derive(Debug, Clone, Copy, PartialEq, Eq, Structural)]
pub enum ToolStatus {
    Success,
    Error,
}

/// The outcome of a tool call, as fed back to the model.
#[derive(Debug)]
pub struct ToolResult {
    pub status: ToolStatus,
    pub data: JsonValue,
    pub error: Option<String>,
}

/// `r` is a success carrying `data`.
pub open spec fn is_ok_result(r: ToolResult, data: Json) -> bool {
    &&& r.status == ToolStatus::Success
    &&& r.data@ == data
    &&& r.error is None
}

/// `r` is a failure with the message `msg`.
pub open spec fn is_err_result(r: ToolResult, msg: Seq<char>) -> bool {
    &&& r.status == ToolStatus::Error
    &&& r.data@ == Json::Null
    &&& text_opt(r.error) == Some(msg)
}

impl ToolResult {
    /// A successful result with arbitrary data.
    pub fn ok(data: JsonValue) -> (r: ToolResult)
        ensures
            is_ok_result(r, data@),
    {
        ToolResult { status: ToolStatus::Success, data, error: None }
    }

    /// A successful result whose data is a string.
    pub fn ok_string(s: String) -> (r: ToolResult)
        ensures
            is_ok_result(r, Json::Str(s@)),
    {
        ToolResult::ok(JsonValue::String(s))
    }

    /// An error result.
    pub fn err(msg: String) -> (r: ToolResult)
        ensures
            is_err_result(r, msg@),
    {
        ToolResult { status: ToolStatus::Error, data: JsonValue::Null, error: Some(msg) }
    }

    /// The status as a lowercase string ("success" or "error").
    pub fn status_str(&self) -> (s: &'static str)
        ensures
            s@ == match self.status {
                ToolStatus::Success => "success"@,
                ToolStatus::Error => "error"@,
            },
    {
        match self.status {
            ToolStatus::Success => "success",
            ToolStatus::Error => "error",
        }
    }
}

/// An error result whose message is `prefix` followed by `detail`.
pub fn err_with(prefix: &str, detail: &str) -> (r: ToolResult)
    ensures
        is_err_result(r, prefix@ + detail@),
{
    let mut msg = String::from_str(prefix);
    msg.append(detail);
    ToolResult::err(msg)
}

} // verus!

verus! {

/// `e` is the error reported when executing `name`, which is not registered.
pub open spec fn is_unregistered_tool_error(e: AgentError, name: Seq<char>) -> bool {
    e matches AgentError::ToolFailed { tool, reason } && tool@ == name && reason@ == "Tool '"@
        + name + "' is not registered"@
}

/// A registry that maps tool names to tools. Registering a name again
/// replaces the tool registered under it.
pub struct ToolRegistry<T> {
    tools: Vec<(String, T)>,
}

/// The position of the entry named `name`.
pub open spec fn holds_name<T>(entries: Seq<(String, T)>, name: Seq<char>, i: int) -> bool {
    0 <= i < entries.len() && entries[i].0@ == name
}

/// The map from names to tools that a list of named entries describes.
pub open spec fn named_map<T>(entries: Seq<(String, T)>) -> Map<Seq<char>, T> {
    Map::new(
        |k: Seq<char>| exists|i: int| holds_name(entries, k, i),
        |k: Seq<char>| entries[choose|i: int| holds_name(entries, k, i)].1,
    )
}

impl<T> ToolRegistry<T> {
    #[verifier::type_invariant]
    spec fn distinct_names(self) -> bool {
        forall|i: int, j: int|
            0 <= i < j < self.tools@.len() ==> #[trigger] self.tools@[i].0@
                != #[trigger] self.tools@[j].0@
    }

    /// The registered tools by name.
    pub closed spec fn tool_map(self) -> Map<Seq<char>, T> {
        named_map(self.tools@)
    }

    /// An empty registry.
    pub fn new() -> (r: ToolRegistry<T>)
        ensures
            r.tool_map() == Map::<Seq<char>, T>::empty(),
    {
        let r = ToolRegistry { tools: Vec::new() };
        assert(r.tool_map() =~= Map::<Seq<char>, T>::empty());
        r
    }

    fn position(&self, name: &str) -> (r: Option<usize>)
        ensures
            match r {
                Some(i) => holds_name(self.tools@, name@, i as int),
                None => forall|i: int| !holds_name(self.tools@, name@, i),
            },
    {
        let mut i: usize = 0;
        while i < self.tools.len()
            invariant
                i <= self.tools.len(),
                forall|j: int| 0 <= j < i ==> !holds_name(self.tools@, name@, j),
            decreases self.tools.len() - i,
        {
            if crate::text::same_text(self.tools[i].0.as_str(), name) {
                return Some(i);
            }
            i = i + 1;
        }
        None
    }

    /// Register a tool under `name`, replacing any tool already registered
    /// under it.
    pub fn register(&mut self, name: String, tool: T)
        ensures
            final(self).tool_map() == old(self).tool_map().insert(name@, tool),
    {
        proof {
            use_type_invariant(&*self);
        }
        let ghost before = self.tools@;
        let ghost key = name@;
        let pos = self.position(name.as_str());
        let mut tools: Vec<(String, T)> = Vec::new();
        std::mem::swap(&mut tools, &mut self.tools);
        match pos {
            Some(i) => {
                tools.set(i, (name, tool));
            },
            None => {
                tools.push((name, tool));
            },
        }
        proof {
            assert forall|i: int, j: int| 0 <= i < j < tools@.len() implies #[trigger] tools@[i].0@
                != #[trigger] tools@[j].0@ by {
                match pos {
                    Some(p) => {
                        if i == p {
                            assert(before[j].0@ != before[p as int].0@);
                        } else if j == p {
                            assert(before[i].0@ != before[p as int].0@);
                        } else {
                            assert(tools@[i] == before[i] && tools@[j] == before[j]);
                        }
                    },
                    None => {
                        if j == before.len() {
                            assert(!holds_name(before, key, i));
                        } else {
                            assert(tools@[i] == before[i] && tools@[j] == before[j]);
                        }
                    },
                }
            }
        }
        self.tools = tools;
        proof {
            let m = self.tool_map();
            let old_m = named_map(before);
            assert forall|k: Seq<char>| #[trigger] m.contains_key(k) == old_m.insert(
                key,
                tool,
            ).contains_key(k) by {
                if k != key {
                    if m.contains_key(k) {
                        let i = choose|i: int| holds_name(self.tools@, k, i);
                        assert(holds_name(before, k, i));
                    }
                    if old_m.contains_key(k) {
                        let i = choose|i: int| holds_name(before, k, i);
                        assert(holds_name(self.tools@, k, i));
                    }
                } else {
                    match pos {
                        Some(p) => assert(holds_name(self.tools@, k, p as int)),
                        None => assert(holds_name(self.tools@, k, before.len() as int)),
                    }
                }
            }
            assert forall|k: Seq<char>| #[trigger] m.contains_key(k) implies m[k] == old_m.insert(
                key,
                tool,
            )[k] by {
                let i = choose|i: int| holds_name(self.tools@, k, i);
                if k == key {
                    match pos {
                        Some(p) => {
                            assert(holds_name(self.tools@, k, p as int));
                        },
                        None => {
                            assert(holds_name(self.tools@, k, before.len() as int));
                        },
                    }
                } else {
                    let j = choose|j: int| holds_name(before, k, j);
                    assert(holds_name(before, k, i));
                    assert(holds_name(self.tools@, k, j));
                }
            }
            assert(m =~= old_m.insert(key, tool));
        }
    }

    /// Look up a tool by name.
    pub fn get(&self, name: &str) -> (r: Option<&T>)
        ensures
            match r {
                Some(t) => self.tool_map().contains_key(name@) && *t == self.tool_map()[name@],
                None => !self.tool_map().contains_key(name@),
            },
    {
        proof {
            use_type_invariant(self);
        }
        match self.position(name) {
            Some(i) => {
                proof {
                    let j = choose|j: int| holds_name(self.tools@, name@, j);
                    assert(holds_name(self.tools@, name@, j));
                }
                Some(&self.tools[i].1)
            },
            None => None,
        }
    }

    /// The tool that executing `name` runs: the registered tool, or the
    /// error reported for a name that is not registered.
    pub fn resolve(&self, name: &str) -> (r: Result<&T, AgentError>)
        ensures
            match r {
                Ok(t) => self.tool_map().contains_key(name@) && *t == self.tool_map()[name@],
                Err(e) => !self.tool_map().contains_key(name@) && is_unregistered_tool_error(
                    e,
                    name@,
                ),
            },
    {
        match self.get(name) {
            Some(t) => Ok(t),
            None => {
                let mut reason = String::from_str("Tool '");
                reason.append(name);
                reason.append("' is not registered");
                Err(AgentError::ToolFailed { tool: String::from_str(name), reason })
            },
        }
    }

    /// All registered tool names, each once.
    pub fn tool_names(&self) -> (names: Vec<String>)
        ensures
            forall|k: Seq<char>|
                self.tool_map().contains_key(k) <==> exists|i: int|
                    0 <= i < names@.len() && #[trigger] names@[i]@ == k,
            forall|i: int, j: int|
                0 <= i < j < names@.len() ==> #[trigger] names@[i]@ != #[trigger] names@[j]@,
    {
        proof {
            use_type_invariant(self);
        }
        let mut names: Vec<String> = Vec::new();
        let mut i: usize = 0;
        while i < self.tools.len()
            invariant
                i <= self.tools.len(),
                names@.len() == i,
                forall|j: int| 0 <= j < i ==> #[trigger] names@[j]@ == self.tools@[j].0@,
                forall|a: int, b: int|
                    0 <= a < b < self.tools@.len() ==> #[trigger] self.tools@[a].0@
                        != #[trigger] self.tools@[b].0@,
            decreases self.tools.len() - i,
        {
            names.push(self.tools[i].0.clone());
            i = i + 1;
        }
        proof {
            assert forall|k: Seq<char>|
                self.tool_map().contains_key(k) <==> exists|i: int|
                    0 <= i < names@.len() && #[trigger] names@[i]@ == k by {
                if self.tool_map().contains_key(k) {
                    let i = choose|i: int| holds_name(self.tools@, k, i);
                    assert(names@[i]@ == k);
                }
                if exists|i: int| 0 <= i < names@.len() && #[trigger] names@[i]@ == k {
                    let i = choose|i: int| 0 <= i < names@.len() && #[trigger] names@[i]@ == k;
                    assert(holds_name(self.tools@, k, i));
                }
            }
        }
        names
    }

    /// All registered tools, one for each name.
    pub fn all_tools(&self) -> (tools: Vec<&T>)
        ensures
            forall|k: Seq<char>|
                #[trigger] self.tool_map().contains_key(k) ==> exists|i: int|
                    0 <= i < tools@.len() && *tools@[i] == self.tool_map()[k],
            forall|i: int|
                0 <= i < tools@.len() ==> self.tool_map().values().contains(*#[trigger] tools@[i]),
    {
        proof {
            use_type_invariant(self);
        }
        let mut tools: Vec<&T> = Vec::new();
        let mut i: usize = 0;
        while i < self.tools.len()
            invariant
                i <= self.tools.len(),
                tools@.len() == i,
                forall|j: int| 0 <= j < i ==> *#[trigger] tools@[j] == self.tools@[j].1,
                forall|a: int, b: int|
                    0 <= a < b < self.tools@.len() ==> #[trigger] self.tools@[a].0@
                        != #[trigger] self.tools@[b].0@,
            decreases self.tools.len() - i,
        {
            tools.push(&self.tools[i].1);
            i = i + 1;
        }
        proof {
            assert forall|k: Seq<char>| #[trigger] self.tool_map().contains_key(k) implies exists|
                i: int,
            | 0 <= i < tools@.len() && *tools@[i] == self.tool_map()[k] by {
                let i = choose|i: int| holds_name(self.tools@, k, i);
                assert(*tools@[i] == self.tools@[i].1);
            }
            assert forall|i: int| 0 <= i < tools@.len() implies self.tool_map().values().contains(
                *#[trigger] tools@[i],
            ) by {
                let k = self.tools@[i].0@;
                assert(holds_name(self.tools@, k, i));
                let j = choose|j: int| holds_name(self.tools@, k, j);
                assert(i == j);
                assert(self.tool_map().contains_key(k) && *tools@[i] == self.tool_map()[k]);
            }
        }
        tools
    }
}

/// Registering a tool and then looking up its name finds that tool, and
/// leaves every other name as it was: `after` is what `register(name, tool)`
/// makes of `before`.
pub proof fn law_register_then_get<T>(
    before: ToolRegistry<T>,
    after: ToolRegistry<T>,
    name: Seq<char>,
    tool: T,
    other: Seq<char>,
)
    requires
        after.tool_map() == before.tool_map().insert(name, tool),
        other != name,
    ensures
        after.tool_map().contains_key(name),
        after.tool_map()[name] == tool,
        after.tool_map().contains_key(other) == before.tool_map().contains_key(other),
        before.tool_map().contains_key(other) ==> after.tool_map()[other]
            == before.tool_map()[other],
{
}

/// Registering the same name twice keeps only the second tool, and the
/// names registered are the same as after registering it once.
pub proof fn law_register_twice_keeps_last<T>(
    before: ToolRegistry<T>,
    once: ToolRegistry<T>,
    twice: ToolRegistry<T>,
    name: Seq<char>,
    first: T,
    second: T,
)
    requires
        once.tool_map() == before.tool_map().insert(name, first),
        twice.tool_map() == once.tool_map().insert(name, second),
    ensures
        twice.tool_map() == before.tool_map().insert(name, second),
        twice.tool_map().dom() == once.tool_map().dom(),
{
    assert(twice.tool_map() =~= before.tool_map().insert(name, second));
    assert(twice.tool_map().dom() =~= once.tool_map().dom());
}

} // verus!
