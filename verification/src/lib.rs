//! Context engine for tool-using language-model agents: the message buffer,
//! compaction strategies, budget and telemetry rules, structured-output
//! extraction, cognitive-memory request builders and the decision core of the
//! ReAct operator loop.
pub mod text;
pub mod money;
pub mod json;
pub mod message;
pub mod infer;
pub mod effect;
pub mod operator;
pub mod error;
pub mod fences;
pub mod compaction;
pub mod output;
pub mod prompts;
pub mod cognitive;
pub mod memory;
pub mod procedural;
pub mod context;
pub mod rules;
pub mod react;
pub mod react_run;
pub mod react_loop;
pub mod store;
pub mod tool_exec;
pub mod single_shot;
pub mod summarize;
