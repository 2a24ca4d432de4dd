//! The execution harness: one script run, from the reset of the logs to the
//! result record.

use core::time::Duration;
use std::time::Instant;
use vstd::prelude::*;
use vstd::string::*;
use crate::draw::{command_views, copy_commands, DrawCommand, DrawCommandView};
use crate::engine::NativeLuaEngine;
use crate::model::EngineView;
use crate::text::{join, join_lines};

verus! {

/// What one script run comes to.
#[derive(Debug)]
pub struct LuaExecutionResult {
    pub success: bool,
    /// The log lines of the run, one per line; empty after a failure.
    pub output: String,
    /// The error message; empty after a success.
    pub error: String,
    pub execution_time_ms: u64,
    /// The drawing commands of the run, in order; none after a failure.
    pub draw_commands: Vec<DrawCommand>,
}

/// The mathematical content of a [`LuaExecutionResult`].
#[verifier::ext_equal]
pub struct LuaExecutionResultView {
    pub success: bool,
    pub output: Seq<char>,
    pub error: Seq<char>,
    pub execution_time_ms: u64,
    pub draw_commands: Seq<DrawCommandView>,
}

impl View for LuaExecutionResult {
    type V = LuaExecutionResultView;

    open spec fn view(&self) -> LuaExecutionResultView {
        LuaExecutionResultView {
            success: self.success,
            output: self.output@,
            error: self.error@,
            execution_time_ms: self.execution_time_ms,
            draw_commands: command_views(self.draw_commands@),
        }
    }
}

impl Clone for LuaExecutionResult {
    fn clone(&self) -> (r: Self)
        ensures
            r@ == self@,
    {
        LuaExecutionResult {
            success: self.success,
            output: self.output.clone(),
            error: self.error.clone(),
            execution_time_ms: self.execution_time_ms,
            draw_commands: copy_commands(&self.draw_commands),
        }
    }
}

/// How the interpreter's run ended: well, or with an error message.
pub open spec fn outcome_view(outcome: Result<(), String>) -> Result<(), Seq<char>> {
    match outcome {
        Ok(_) => Ok(()),
        Err(message) => Err(message@),
    }
}

/// The error text of a failed run.
pub open spec fn failure_message(message: Seq<char>) -> Seq<char> {
    "Lua execution error: "@ + message
}

/// The result of a run that left the engine in `state`. After a success it
/// carries the log lines joined by line breaks and all drawing commands;
/// after a failure it carries the error text and nothing of what the script
/// had logged or drawn before it failed.
pub open spec fn run_result(
    state: EngineView,
    outcome: Result<(), Seq<char>>,
    elapsed_ms: u64,
) -> LuaExecutionResultView {
    match outcome {
        Ok(_) => LuaExecutionResultView {
            success: true,
            output: join(state.output, "\n"@),
            error: Seq::empty(),
            execution_time_ms: elapsed_ms,
            draw_commands: state.commands,
        },
        Err(message) => LuaExecutionResultView {
            success: false,
            output: Seq::empty(),
            error: failure_message(message),
            execution_time_ms: elapsed_ms,
            draw_commands: Seq::empty(),
        },
    }
}

/// `std::time::Instant`: one reading of the monotonic clock. The proofs
/// see nothing inside it.
#[verifier::external_type_specification]
#[verifier::external_body]
pub struct ExInstant(std::time::Instant);

/// `std::time::Instant::now`: reads the monotonic clock. Nothing is claimed
/// of the reading.
#[verifier::external_body]
fn clock_now() -> Instant {
    Instant::now()
}

/// `std::time::Instant::elapsed`: the time that has passed since `start` was
/// read. Nothing is claimed of it.
#[verifier::external_body]
fn clock_elapsed(start: &Instant) -> Duration {
    start.elapsed()
}

/// `core::time::Duration::as_millis`: the whole milliseconds in a duration.
/// Nothing is claimed of the number.
#[verifier::external_body]
fn whole_millis(duration: &Duration) -> u128 {
    duration.as_millis()
}

impl NativeLuaEngine {
    /// Starts a run: empties the output log and the drawing log. The turtle,
    /// the macro settings and the module directory stay as they are.
    pub fn begin_run(&mut self)
        ensures
            final(self)@ == old(self)@.begin_run(),
    {
        self.output_buffer.clear();
        self.draw_commands.clear();
        proof {
            assert(self.output_buffer.deep_view() =~= Seq::<Seq<char>>::empty());
            assert(command_views(self.draw_commands@) =~= Seq::<DrawCommandView>::empty());
        }
    }

    /// Ends a run: makes the result record from how the interpreter's run
    /// ended, from the time it took and from what the engine holds. The
    /// engine itself is not changed.
    pub fn finish_run(&self, outcome: Result<(), String>, elapsed_ms: u64) -> (r:
        LuaExecutionResult)
        ensures
            r@ == run_result(self@, outcome_view(outcome), elapsed_ms),
    {
        match outcome {
            Ok(_) => {
                let output = join_lines(&self.output_buffer, "\n");
                let draw_commands = copy_commands(&self.draw_commands);
                LuaExecutionResult {
                    success: true,
                    output,
                    error: String::new(),
                    execution_time_ms: elapsed_ms,
                    draw_commands,
                }
            },
            Err(message) => {
                let mut error = String::from_str("Lua execution error: ");
                error.append(message.as_str());
                let r = LuaExecutionResult {
                    success: false,
                    output: String::new(),
                    error,
                    execution_time_ms: elapsed_ms,
                    draw_commands: Vec::new(),
                };
                proof {
                    assert(command_views(r.draw_commands@) =~= Seq::<DrawCommandView>::empty());
                }
                r
            },
        }
    }

    /// Runs one script: empties both logs, hands the engine and the script
    /// text to `run`, which is the interpreter, measures the time, and makes
    /// the result record from the engine that `run` hands back and from how
    /// it ended. The script runs once; nothing is retried.
    pub fn execute_script<F>(self, script: &str, run: F) -> (r: (
        NativeLuaEngine,
        LuaExecutionResult,
    )) where F: FnOnce(NativeLuaEngine, &str) -> (NativeLuaEngine, Result<(), String>)
        requires
            forall|engine: NativeLuaEngine|
                engine@ == self@.begin_run() ==> call_requires(run, (engine, script)),
        ensures
            exists|engine: NativeLuaEngine, outcome: Result<(), String>|
                engine@ == self@.begin_run() && #[trigger] call_ensures(
                    run,
                    (engine, script),
                    (r.0, outcome),
                ) && r.1@ == run_result(r.0@, outcome_view(outcome), r.1.execution_time_ms),
    {
        let started = clock_now();
        let mut engine = self;
        engine.begin_run();
        let ghost begun = engine;
        let (engine, outcome) = run(engine, script);
        let ghost ended = outcome;
        let elapsed = clock_elapsed(&started);
        let elapsed_ms: u64 = #[verifier::truncate]
        (whole_millis(&elapsed) as u64);
        let result = engine.finish_run(outcome, elapsed_ms);
        let r = (engine, result);
        proof {
            assert(call_ensures(run, (begun, script), (r.0, ended)));
        }
        r
    }
}

} // verus!
