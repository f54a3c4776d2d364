//! The tool registry: the side capabilities that the model may ask for, each
//! under a unique name, with the schema advertised for it.
//!
//! A tool that fails does not end the turn. It says so in the value it
//! returns, for instance as an object with an `error` field; that value is
//! recorded like any other, and the model reads it with its next request.
//! A tool has no other way to fail: the registry catches nothing, and a
//! tool that panics takes the turn down with it.

use crate::json::{
    copy_value, json_text, parse_arguments, payload, recordable, render_value,
};
use crate::lookup::{
    distinct, index_of, lemma_index_of, lemma_index_of_absent, lemma_index_of_first,
    lemma_recorded_distinct, recorded,
};
use crate::text::same_text;
use vstd::prelude::*;

verus! {

/// A tool that the model may call. Implemented by the tools themselves.
pub trait MCP: Send + Sync {
    /// The name the model calls the tool by.
    fn name(&self) -> &'static str;

    /// What the tool does, as told to the model.
    fn description(&self) -> &'static str;

    /// The JSON schema of the tool's arguments.
    fn parameters(&self) -> serde_json::Value;

    /// Runs the tool. It returns a value and leaves the conversation alone.
    /// Fields that are missing or of the wrong kind in `args` are to be
    /// read as empty or zero. A tool that fails returns a value that says
    /// so; it must not panic.
    fn execute(&self, args: serde_json::Value) -> serde_json::Value;
}

/// A tool as advertised to the model.
#[derive(Debug, PartialEq, Eq)]
pub struct FunctionDef {
    pub name: String,
    pub description: String,
    pub parameters: serde_json::Value,
}

impl View for FunctionDef {
    type V = ToolInfo;

    open spec fn view(&self) -> ToolInfo {
        ToolInfo {
            name: self.name@,
            description: self.description@,
            parameters: json_text(self.parameters),
        }
    }
}

/// What each of `defs` advertises, in order.
pub open spec fn function_views(defs: Seq<FunctionDef>) -> Seq<ToolInfo> {
    defs.map_values(|d: FunctionDef| d@)
}

/// The name of a tool that the model may be told to call.
#[derive(Debug, PartialEq, Eq)]
pub struct FunctionCall {
    pub name: String,
}

/// The names that `calls` hold, in order.
pub open spec fn call_names(calls: Seq<FunctionCall>) -> Seq<Seq<char>> {
    calls.map_values(|c: FunctionCall| c.name@)
}

/// What is known of a registered tool without running it.
pub struct ToolInfo {
    pub name: Seq<char>,
    pub description: Seq<char>,
    /// The compact JSON text of the parameter schema.
    pub parameters: Seq<char>,
}

struct ToolEntry {
    name: String,
    description: String,
    parameters: serde_json::Value,
    tool: Box<dyn MCP>,
}

impl ToolEntry {
    fn new(name: &str, description: &str, parameters: serde_json::Value, tool: Box<dyn MCP>) -> (r:
        Self)
        ensures
            r.info() == (ToolInfo {
                name: name@,
                description: description@,
                parameters: json_text(parameters),
            }),
    {
        ToolEntry { name: name.to_string(), description: description.to_string(), parameters, tool }
    }

    spec fn info(self) -> ToolInfo {
        ToolInfo {
            name: self.name@,
            description: self.description@,
            parameters: json_text(self.parameters),
        }
    }
}

/// The registered tools, in the order in which their names first came.
pub struct MCPRegistry {
    registry: Vec<ToolEntry>,
}

/// The names of `tools`, in order.
pub open spec fn tool_names(tools: Seq<ToolInfo>) -> Seq<Seq<char>> {
    tools.map_values(|t: ToolInfo| t.name)
}

/// `tools` after `tool` was registered: it takes the place of the tool of
/// its name, or comes last where the name is new.
pub open spec fn registered(tools: Seq<ToolInfo>, tool: ToolInfo) -> Seq<ToolInfo> {
    match index_of(tool_names(tools), tool.name) {
        Some(i) => tools.update(i, tool),
        None => tools.push(tool),
    }
}

/// Registering a tool records its name: no name is ever held twice.
pub proof fn lemma_registered_names(tools: Seq<ToolInfo>, tool: ToolInfo)
    ensures
        tool_names(registered(tools, tool)) == recorded(tool_names(tools), tool.name),
        distinct(tool_names(tools)) ==> distinct(tool_names(registered(tools, tool))),
        index_of(tool_names(registered(tools, tool)), tool.name) is Some,
{
    let names = tool_names(tools);
    lemma_index_of(names, tool.name);
    if index_of(names, tool.name) is None {
        lemma_index_of_first(names.push(tool.name), tool.name, names.len() as int);
    }
    if distinct(names) {
        lemma_recorded_distinct(names, tool.name);
    }
}

impl Default for MCPRegistry {
    /// A registry without tools.
    fn default() -> (r: Self)
        ensures
            r.tools() == Seq::<ToolInfo>::empty(),
            distinct(r.names()),
    {
        MCPRegistry::new()
    }
}

impl MCPRegistry {
    #[verifier::type_invariant]
    spec fn unique_names(self) -> bool {
        distinct(tool_names(self.tools()))
    }

    /// The registered tools, in order.
    pub closed spec fn tools(self) -> Seq<ToolInfo> {
        self.registry@.map_values(|e: ToolEntry| e.info())
    }

    /// The names of the registered tools, in order.
    pub open spec fn names(self) -> Seq<Seq<char>> {
        tool_names(self.tools())
    }

    /// A registry without tools.
    pub fn new() -> (r: Self)
        ensures
            r.tools() == Seq::<ToolInfo>::empty(),
            distinct(r.names()),
    {
        let registry: Vec<ToolEntry> = Vec::new();
        MCPRegistry { registry }
    }

    /// The number of registered tools.
    pub fn len(&self) -> (r: usize)
        ensures
            r == self.tools().len(),
    {
        self.registry.len()
    }

    /// Where the tool called `name` stands, if it is registered. No two
    /// registered tools share a name.
    pub fn find(&self, name: &str) -> (r: Option<usize>)
        ensures
            distinct(self.names()),
            match r {
                Some(i) => index_of(self.names(), name@) == Some(i as int) && i
                    < self.tools().len(),
                None => index_of(self.names(), name@) is None,
            },
    {
        proof {
            use_type_invariant(self);
        }
        let mut i: usize = 0;
        while i < self.registry.len()
            invariant
                i <= self.registry@.len(),
                distinct(self.names()),
                forall|j: int| 0 <= j < i ==> self.names()[j] != name@,
            decreases self.registry@.len() - i,
        {
            if same_text(self.registry[i].name.as_str(), name) {
                proof {
                    lemma_index_of_first(self.names(), name@, i as int);
                }
                return Some(i);
            }
            i = i + 1;
        }
        proof {
            lemma_index_of_absent(self.names(), name@);
        }
        None
    }

    /// Registers a tool under `name`. A tool registered earlier under the
    /// same name is replaced, where it stands.
    pub fn register_as(
        &mut self,
        name: &str,
        description: &str,
        parameters: serde_json::Value,
        tool: Box<dyn MCP>,
    )
        ensures
            distinct(final(self).names()),
            final(self).tools() == registered(
                old(self).tools(),
                ToolInfo {
                    name: name@,
                    description: description@,
                    parameters: json_text(parameters),
                },
            ),
    {
        let entry = ToolEntry::new(name, description, parameters, tool);
        let ghost before = self.tools();
        let found = self.find(name);
        proof {
            use_type_invariant(&*self);
            lemma_registered_names(before, entry.info());
        }
        let mut entries: Vec<ToolEntry> = Vec::new();
        core::mem::swap(&mut self.registry, &mut entries);
        match found {
            Some(i) => {
                entries.set(i, entry);
                assert(entries@.map_values(|e: ToolEntry| e.info()) =~= before.update(
                    i as int,
                    entry.info(),
                ));
            },
            None => {
                entries.push(entry);
                assert(entries@.map_values(|e: ToolEntry| e.info()) =~= before.push(entry.info()));
            },
        }
        core::mem::swap(&mut self.registry, &mut entries);
    }

    /// Registers `mcp` under the name it gives itself, with the description
    /// and the parameter schema it reports now.
    pub fn register<M: MCP + 'static>(&mut self, mcp: M)
        ensures
            distinct(final(self).names()),
            exists|tool: ToolInfo| final(self).tools() == registered(old(self).tools(), tool),
    {
        let name = mcp.name();
        let description = mcp.description();
        let parameters = mcp.parameters();
        let boxed: Box<dyn MCP> = Box::new(mcp);
        self.register_as(name, description, parameters, boxed);
    }

    /// Every registered tool as advertised to the model, in order.
    pub fn functions(&self) -> (r: Vec<FunctionDef>)
        ensures
            function_views(r@) == self.tools(),
    {
        let ghost want = self.tools();
        let mut out: Vec<FunctionDef> = Vec::new();
        let mut i: usize = 0;
        while i < self.registry.len()
            invariant
                i <= self.registry@.len(),
                want == self.tools(),
                function_views(out@) == want.take(i as int),
            decreases self.registry@.len() - i,
        {
            let entry = &self.registry[i];
            let ghost before = out@;
            let def = FunctionDef {
                name: entry.name.clone(),
                description: entry.description.clone(),
                parameters: copy_value(&entry.parameters),
            };
            out.push(def);
            assert(function_views(out@) =~= function_views(before).push(def@));
            i = i + 1;
        }
        out
    }

    /// The name of every registered tool, in order.
    pub fn function_calls(&self) -> (r: Vec<FunctionCall>)
        ensures
            call_names(r@) == self.names(),
    {
        let ghost want = self.names();
        let mut out: Vec<FunctionCall> = Vec::new();
        let mut i: usize = 0;
        while i < self.registry.len()
            invariant
                i <= self.registry@.len(),
                want == self.names(),
                call_names(out@) == want.take(i as int),
            decreases self.registry@.len() - i,
        {
            let ghost before = out@;
            let call = FunctionCall { name: self.registry[i].name.clone() };
            out.push(call);
            assert(call_names(out@) =~= call_names(before).push(call.name@));
            i = i + 1;
        }
        out
    }

    /// Runs the tool called `name` on `args`, or returns `None` where no
    /// tool of that name is registered. Nothing is promised of what a tool
    /// returns.
    pub fn execute(&self, name: &str, args: serde_json::Value) -> (r: Option<serde_json::Value>)
        ensures
            r is Some <==> index_of(self.names(), name@) is Some,
    {
        match self.find(name) {
            Some(i) => Some(self.registry[i].tool.execute(args)),
            None => None,
        }
    }

    /// Calls the tool `name` with the arguments that the model wrote as
    /// `arguments`, and returns the text to record for its result; `None`
    /// where no tool of that name is registered. The tool is handed what
    /// `parse_arguments` makes of the text. What it returns is recorded as
    /// JSON, or as a report that it could not be written. A tool that
    /// failed has said so in what it returned, and that is recorded.
    pub fn call(&self, name: &str, arguments: &str) -> (r: Option<String>)
        ensures
            r is Some <==> index_of(self.names(), name@) is Some,
            r matches Some(text) ==> recordable(text@),
    {
        if self.find(name).is_none() {
            return None;
        }
        let args = parse_arguments(arguments);
        match self.execute(name, args) {
            Some(result) => {
                let written = render_value(&result);
                let text = payload(written);
                Some(text)
            },
            None => None,
        }
    }
}

} // verus!
