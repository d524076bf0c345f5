//! The agent execution core: one conversation driven to completion by
//! repeated model turns, tool dispatch, and a callback chain.

use vstd::prelude::*;

use crate::callbacks::Callback;
use crate::error::Error;
use crate::llm::{CompletionRequest, Message, LLM};
use crate::tools::{Tool, ToolCall, ToolDefinition};

verus! {

/// A predicate over the current transcript deciding when the loop stops,
/// re-evaluated once per full iteration, never mid-iteration.
pub trait StopCondition {
    /// What [`StopCondition::done`] computes, over the transcript value.
    spec fn spec_done(&self, transcript: Seq<Message>) -> bool;

    /// Whether the run is finished with `transcript` as its final answer.
    fn done(&self, transcript: &Vec<Message>) -> (r: bool)
        ensures
            r == self.spec_done(transcript@),
    ;
}

/// The outcome of one full loop iteration.
pub enum AgentStep {
    /// The stop predicate held: the run is over and this is the final
    /// transcript.
    Finished(Vec<Message>),
    /// The stop predicate did not hold; the transcript after one model
    /// turn, its tool calls, and the callback chain.
    Continue(Vec<Message>),
}

/// One conversation: an LLM backend, a registry of tools keyed by unique
/// name, the advertisement list sent to the model, a callback chain, and a
/// stop predicate.
///
/// A conversation advances in whole iterations: one model turn, its tool
/// calls, the callback chain. [`Agent::step`] is one such iteration and
/// [`Agent::run`] repeats it up to a turn budget; a caller that keeps
/// feeding `Continue` back in drives the conversation without any bound of
/// its own.
pub struct Agent<L, T, C, S> {
    pub llm: L,
    /// Registered tool names; `tool_names[i]` names `tools[i]`.
    pub tool_names: Vec<String>,
    pub tools: Vec<T>,
    /// The advertisements sent with every completion request.
    pub tool_defs: Vec<ToolDefinition>,
    pub callbacks: Vec<C>,
    pub stop_condition: S,
    /// Whether the backend's native web-search capability is enabled.
    pub llm_websearch: bool,
}

impl<L: LLM, T: Tool, C: Callback, S: StopCondition> Agent<L, T, C, S> {
    /// The registry invariant: one tool per name, names unique.
    pub open spec fn wf(&self) -> bool {
        &&& self.tool_names@.len() == self.tools@.len()
        &&& forall|i: int, j: int|
            0 <= i < j < self.tool_names@.len() ==> self.tool_names@[i]@ != self.tool_names@[j]@
    }

    /// Whether a tool is registered under `name`.
    pub open spec fn spec_has_tool(&self, name: Seq<char>) -> bool {
        exists|i: int| 0 <= i < self.tool_names@.len() && self.tool_names@[i]@ == name
    }

    /// Everything `step` leaves untouched: the registry, the backend, the
    /// stop predicate. (The tools and callbacks themselves may change their
    /// own state when invoked.)
    pub open spec fn same_setup(&self, other: &Self) -> bool {
        &&& self.tool_names == other.tool_names
        &&& self.tool_defs == other.tool_defs
        &&& self.llm == other.llm
        &&& self.stop_condition == other.stop_condition
        &&& self.llm_websearch == other.llm_websearch
        &&& self.tools@.len() == other.tools@.len()
        &&& self.callbacks@.len() == other.callbacks@.len()
    }

    /// The index of the tool registered under `name`, if any.
    fn find_tool(&self, name: &String) -> (r: Option<usize>)
        ensures
            match r {
                Some(j) => j < self.tool_names@.len() && self.tool_names@[j as int]@ == name@,
                None => !self.spec_has_tool(name@),
            },
    {
        let n = self.tool_names.len();
        let mut i: usize = 0;
        while i < n
            invariant
                i <= n,
                n == self.tool_names@.len(),
                forall|k: int| 0 <= k < i ==> self.tool_names@[k]@ != name@,
            decreases n - i,
        {
            if self.tool_names[i].eq(name) {
                return Some(i);
            }
            i = i + 1;
        }
        None
    }

    /// Looks the requested tool up by name and hands it the call and the
    /// transcript. An unregistered name is the fatal `ToolDoesNotExist`;
    /// otherwise the transcript is replaced by whatever the tool returns.
    fn execute_tool_call(&mut self, tool_call: &ToolCall, messages: Vec<Message>) -> (r: Result<
        Vec<Message>,
        Error,
    >)
        requires
            old(self).wf(),
        ensures
            final(self).wf(),
            final(self).same_setup(old(self)),
            !old(self).spec_has_tool(tool_call.name@) ==> (r matches Err(e) && e
                matches Error::ToolDoesNotExist(n) && n@ == tool_call.name@),
    {
        match self.find_tool(&tool_call.name) {
            None => Err(Error::ToolDoesNotExist(tool_call.name.clone())),
            Some(j) => {
                let mut tool = self.tools.remove(j);
                let r = tool.invoke(tool_call, messages);
                self.tools.insert(j, tool);
                r
            },
        }
    }

    /// One full loop iteration.
    ///
    /// If the stop predicate already holds of `messages`, the run is over:
    /// the transcript comes back unchanged as [`AgentStep::Finished`], and
    /// that is the only way `Finished` is produced. Otherwise one completion
    /// is requested, the assistant's reply is appended, its tool calls are
    /// dispatched strictly in the order the model returned them, the
    /// callback chain runs in registration order, and the result continues
    /// the run. Any error from the backend, a tool, or a callback aborts
    /// the iteration at once.
    pub fn step(&mut self, messages: Vec<Message>) -> (r: Result<AgentStep, Error>)
        requires
            old(self).wf(),
        ensures
            final(self).wf(),
            final(self).same_setup(old(self)),
            old(self).stop_condition.spec_done(messages@) <==> (r matches Ok(s) && s
                matches AgentStep::Finished(_)),
            r matches Ok(AgentStep::Finished(t)) ==> t == messages && old(
                self,
            ).stop_condition.spec_done(t@),
    {
        let ghost m0 = messages@;
        if self.stop_condition.done(&messages) {
            return Ok(AgentStep::Finished(messages));
        }
        let next = self.llm.completion(
            CompletionRequest {
                messages: &messages,
                tools: &self.tool_defs,
                web_search_tool: self.llm_websearch,
            },
        )?;

        let mut transcript = messages;
        let calls = next.tool_calls;
        transcript.push(Message::Assistant(next.content, calls.clone()));

        let n = calls.len();
        let mut i: usize = 0;
        while i < n
            invariant
                i <= n,
                n == calls@.len(),
                self.wf(),
                self.same_setup(old(self)),
                m0 == messages@,
                !old(self).stop_condition.spec_done(m0),
            decreases n - i,
        {
            transcript = self.execute_tool_call(&calls[i], transcript)?;
            i = i + 1;
        }

        let ncb = self.callbacks.len();
        let mut j: usize = 0;
        while j < ncb
            invariant
                j <= ncb,
                ncb == self.callbacks@.len(),
                self.wf(),
                self.same_setup(old(self)),
                m0 == messages@,
                !old(self).stop_condition.spec_done(m0),
            decreases ncb - j,
        {
            let mut cb = self.callbacks.remove(j);
            let res = cb.call(transcript);
            self.callbacks.insert(j, cb);
            transcript = res?;
            j = j + 1;
        }

        Ok(AgentStep::Continue(transcript))
    }

    /// Drives the conversation for at most `max_turns` full iterations.
    ///
    /// [`AgentStep::Finished`] carries a final transcript the stop
    /// predicate holds of; [`AgentStep::Continue`] carries the transcript
    /// as it stands after `max_turns` iterations, for the caller to feed
    /// back in. (A caller that keeps feeding it back runs the conversation
    /// without any bound of its own, as liveness rests entirely on the
    /// caller-supplied predicate.)
    pub fn run(&mut self, messages: Vec<Message>, max_turns: u64) -> (r: Result<AgentStep, Error>)
        requires
            old(self).wf(),
        ensures
            final(self).wf(),
            final(self).same_setup(old(self)),
            r matches Ok(AgentStep::Finished(t)) ==> old(self).stop_condition.spec_done(t@),
            old(self).stop_condition.spec_done(messages@) && max_turns > 0 ==> r == Ok::<
                AgentStep,
                Error,
            >(AgentStep::Finished(messages)),
            max_turns == 0 ==> r == Ok::<AgentStep, Error>(AgentStep::Continue(messages)),
    {
        let mut transcript = messages;
        let mut turns: u64 = 0;
        while turns < max_turns
            invariant
                turns <= max_turns,
                self.wf(),
                self.same_setup(old(self)),
                turns == 0 ==> transcript == messages,
                turns > 0 ==> !old(self).stop_condition.spec_done(messages@),
            decreases max_turns - turns,
        {
            match self.step(transcript)? {
                AgentStep::Finished(t) => {
                    return Ok(AgentStep::Finished(t));
                },
                AgentStep::Continue(t) => {
                    transcript = t;
                },
            }
            turns = turns + 1;
        }
        Ok(AgentStep::Continue(transcript))
    }
}

/// Collects an agent piece by piece; `build` checks that nothing required
/// is missing and that no two tools share a name.
pub struct AgentBuilder<L, T, C, S> {
    pub llm: Option<L>,
    pub tools: Vec<T>,
    pub callbacks: Vec<C>,
    pub stop_condition: Option<S>,
    pub llm_websearch: bool,
}

impl<L: LLM, T: Tool, C: Callback, S: StopCondition> AgentBuilder<L, T, C, S> {
    /// An empty builder: no backend, no tools, no callbacks, no stop
    /// predicate, web search off.
    pub fn new() -> (r: Self)
        ensures
            r.llm is None,
            r.tools@.len() == 0,
            r.callbacks@.len() == 0,
            r.stop_condition is None,
            r.llm_websearch == false,
    {
        AgentBuilder {
            llm: None,
            tools: Vec::new(),
            callbacks: Vec::new(),
            stop_condition: None,
            llm_websearch: false,
        }
    }

    /// Supplies the completion backend.
    pub fn llm(self, llm: L) -> (r: Self)
        ensures
            r.llm == Some(llm),
            r.tools == self.tools,
            r.callbacks == self.callbacks,
            r.stop_condition == self.stop_condition,
            r.llm_websearch == self.llm_websearch,
    {
        AgentBuilder { llm: Some(llm), ..self }
    }

    /// Registers one more tool, after those already registered.
    pub fn tool(self, tool: T) -> (r: Self)
        ensures
            r.tools@ == self.tools@.push(tool),
            r.llm == self.llm,
            r.callbacks == self.callbacks,
            r.stop_condition == self.stop_condition,
            r.llm_websearch == self.llm_websearch,
    {
        let mut tools = self.tools;
        tools.push(tool);
        AgentBuilder { tools, ..self }
    }

    /// Registers several tools, in order, after those already registered.
    pub fn tools(self, tools: Vec<T>) -> (r: Self)
        ensures
            r.tools@ == self.tools@ + tools@,
            r.llm == self.llm,
            r.callbacks == self.callbacks,
            r.stop_condition == self.stop_condition,
            r.llm_websearch == self.llm_websearch,
    {
        let mut mine = self.tools;
        let mut more = tools;
        mine.append(&mut more);
        AgentBuilder { tools: mine, ..self }
    }

    /// Appends one callback to the chain.
    pub fn callback(self, callback: C) -> (r: Self)
        ensures
            r.callbacks@ == self.callbacks@.push(callback),
            r.llm == self.llm,
            r.tools == self.tools,
            r.stop_condition == self.stop_condition,
            r.llm_websearch == self.llm_websearch,
    {
        let mut callbacks = self.callbacks;
        callbacks.push(callback);
        AgentBuilder { callbacks, ..self }
    }

    /// Supplies the stop predicate.
    pub fn stop_condition(self, cond: S) -> (r: Self)
        ensures
            r.stop_condition == Some(cond),
            r.llm == self.llm,
            r.tools == self.tools,
            r.callbacks == self.callbacks,
            r.llm_websearch == self.llm_websearch,
    {
        AgentBuilder { stop_condition: Some(cond), ..self }
    }

    /// Enables the backend's native web-search capability.
    pub fn llm_websearch(self) -> (r: Self)
        ensures
            r.llm_websearch == true,
            r.llm == self.llm,
            r.tools == self.tools,
            r.callbacks == self.callbacks,
            r.stop_condition == self.stop_condition,
    {
        AgentBuilder { llm_websearch: true, ..self }
    }

    /// Builds the agent. A missing backend or stop predicate is the
    /// build-time `MissingArg`, checked in that order; so is a duplicate
    /// tool name. With both parts present, only a tool's own `definition`
    /// can still refuse: with no tools at all, building succeeds.
    pub fn build(self) -> (r: Result<Agent<L, T, C, S>, Error>)
        ensures
            r matches Ok(a) ==> {
                &&& a.wf()
                &&& self.llm is Some && a.llm == self.llm->0
                &&& self.stop_condition is Some && a.stop_condition == self.stop_condition->0
                &&& a.tools == self.tools
                &&& a.callbacks == self.callbacks
                &&& a.llm_websearch == self.llm_websearch
                &&& a.tool_defs@.len() == a.tool_names@.len()
                &&& forall|i: int|
                    0 <= i < a.tool_names@.len() ==> a.tool_names@[i]@ == a.tool_defs@[i]@.name
            },
            self.llm is None ==> (r matches Err(e) && e matches Error::MissingArg(m) && m@
                == "llm is required for agent"@),
            self.llm is Some && self.stop_condition is None ==> (r matches Err(e) && e
                matches Error::MissingArg(m) && m@ == "stop_condition is required for agent"@),
            self.llm is Some && self.stop_condition is Some && self.tools@.len() == 0 ==> r is Ok,
    {
        let AgentBuilder { llm, tools, callbacks, stop_condition, llm_websearch } = self;

        let llm = match llm {
            Some(llm) => llm,
            None => {
                return Err(Error::MissingArg("llm is required for agent".to_owned()));
            },
        };
        let stop_condition = match stop_condition {
            Some(cond) => cond,
            None => {
                return Err(Error::MissingArg("stop_condition is required for agent".to_owned()));
            },
        };

        let mut tool_defs: Vec<ToolDefinition> = Vec::new();
        let mut tool_names: Vec<String> = Vec::new();

        let n = tools.len();
        let mut i: usize = 0;
        while i < n
            invariant
                i <= n,
                n == tools@.len(),
                tools == self.tools,
                self.llm is Some,
                self.stop_condition is Some,
                tool_defs@.len() == i,
                tool_names@.len() == i,
                forall|k: int|
                    0 <= k < i ==> tool_names@[k]@ == tool_defs@[k]@.name,
                forall|k: int, l: int|
                    0 <= k < l < i ==> tool_names@[k]@ != tool_names@[l]@,
            decreases n - i,
        {
            let def = tools[i].definition()?;
            let mut k: usize = 0;
            while k < i
                invariant
                    k <= i,
                    i < self.tools@.len(),
                    self.llm is Some,
                    self.stop_condition is Some,
                    i == tool_names@.len(),
                    forall|l: int| 0 <= l < k ==> tool_names@[l]@ != def.name@,
                decreases i - k,
            {
                if tool_names[k].eq(&def.name) {
                    let mut msg = "duplicate tool name: ".to_owned();
                    msg.append(def.name.as_str());
                    return Err(Error::MissingArg(msg));
                }
                k = k + 1;
            }
            tool_names.push(def.name.clone());
            tool_defs.push(def);
            i = i + 1;
        }

        Ok(
            Agent {
                llm,
                tool_names,
                tools,
                tool_defs,
                callbacks,
                stop_condition,
                llm_websearch,
            },
        )
    }
}

} // verus!
