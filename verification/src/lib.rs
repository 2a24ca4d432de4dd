//! The state and rules of a sandbox for macro scripts: turtle drawing
//! builtins, a CAD macro namespace, a module resolver and the harness that
//! turns one script run into a result record.
//!
//! The engine is an explicit state object. The interpreter that runs a script
//! lives with the caller: it turns every host call of the script into one
//! method call here, and the engine answers with its new state, its log lines
//! and its drawing commands.

pub mod bootstrap;
pub mod decode;
pub mod draw;
pub mod engine;
pub mod files;
pub mod laws;
pub mod macros;
pub mod messages;
pub mod model;
pub mod number;
pub mod resolver;
pub mod state;
pub mod text;

pub use bootstrap::{assemble_script, DebugLibrary, GlobalBinding, ScriptMode};
pub use decode::{choose_decoding, decode_text, try_decode_text, Decoding, TextEncoding};
pub use draw::{CommandKind, DrawCommand, DrawCommandView};
pub use engine::harness::{LuaExecutionResult, LuaExecutionResultView};
pub use engine::NativeLuaEngine;
pub use files::{
    collapse_slashes, directory_item, listing_depth, listing_order, lists_children,
    project_relative, shows_before, FileItemData,
};
pub use macros::{MacroArg, MacroArgView, PointArg, PointArgView};
pub use model::EngineView;
pub use number::{Number, NumberView, ScriptValue, ScriptValueView};
pub use resolver::{after_lookup, module_not_found, RequirePlan, RequirePlanView};
pub use state::{AdekoState, AdekoStateView, TurtleState, TurtleStateView};
pub use text::{integer_to_string, join_lines, unsigned_to_string};
