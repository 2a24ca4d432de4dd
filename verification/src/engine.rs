//! The engine: one object that owns the turtle, the macro settings and the
//! two logs of the current run.

use vstd::prelude::*;
use vstd::string::*;
use crate::draw::{command_views, DrawCommand};
use crate::model::EngineView;
use crate::number::{value_texts, value_views, ScriptValue};
use crate::state::{AdekoState, TurtleState};
use crate::text::{join_lines, optional_text};

pub mod adeko;
pub mod harness;
pub mod turtle;

verus! {

/// The macro-script engine.
#[derive(Debug)]
pub struct NativeLuaEngine {
    output_buffer: Vec<String>,
    turtle_state: TurtleState,
    adeko_state: AdekoState,
    draw_commands: Vec<DrawCommand>,
    lua_library_path: Option<String>,
}

impl View for NativeLuaEngine {
    type V = EngineView;

    closed spec fn view(&self) -> EngineView {
        EngineView {
            turtle: self.turtle_state@,
            adeko: self.adeko_state@,
            output: self.output_buffer.deep_view(),
            commands: command_views(self.draw_commands@),
            library_path: optional_text(self.lua_library_path),
        }
    }
}

impl NativeLuaEngine {
    /// Appends one line to the output log.
    pub(crate) fn log(&mut self, line: String)
        ensures
            final(self)@ == old(self)@.log(line@),
    {
        self.output_buffer.push(line);
        proof {
            assert(self.output_buffer.deep_view() =~= old(self).output_buffer.deep_view().push(
                line@,
            ));
        }
    }

    /// Appends one command to the drawing log.
    pub(crate) fn emit(&mut self, command: DrawCommand)
        ensures
            final(self)@ == old(self)@.emit(command@),
    {
        self.draw_commands.push(command);
        proof {
            assert(command_views(self.draw_commands@) =~= command_views(
                old(self).draw_commands@,
            ).push(command@));
        }
    }

    /// The turtle.
    pub fn turtle_state(&self) -> (r: &TurtleState)
        ensures
            r@ == self@.turtle,
    {
        &self.turtle_state
    }

    /// The settings of the macro namespace.
    pub fn adeko_state(&self) -> (r: &AdekoState)
        ensures
            r@ == self@.adeko,
    {
        &self.adeko_state
    }

    /// The log lines of the current run.
    pub fn output(&self) -> (r: &Vec<String>)
        ensures
            r.deep_view() == self@.output,
    {
        &self.output_buffer
    }

    /// The drawing commands of the current run.
    pub fn draw_commands(&self) -> (r: &Vec<DrawCommand>)
        ensures
            command_views(r@) == self@.commands,
    {
        &self.draw_commands
    }

    /// The directory that holds module files, if one is configured.
    pub fn lua_library_path(&self) -> (r: &Option<String>)
        ensures
            optional_text(*r) == self@.library_path,
    {
        &self.lua_library_path
    }

    /// An engine without a module directory.
    pub fn new() -> (r: NativeLuaEngine)
        ensures
            r@ == EngineView::fresh(None),
    {
        NativeLuaEngine::new_with_library_path(None)
    }

    /// An engine whose modules are looked up in `lua_library_path`.
    pub fn new_with_library_path(lua_library_path: Option<String>) -> (r: NativeLuaEngine)
        ensures
            r@ == EngineView::fresh(optional_text(lua_library_path)),
    {
        let r = NativeLuaEngine {
            output_buffer: Vec::new(),
            turtle_state: TurtleState::default(),
            adeko_state: AdekoState::default(),
            draw_commands: Vec::new(),
            lua_library_path,
        };
        proof {
            assert(r@.output =~= Seq::<Seq<char>>::empty());
            assert(r@.commands =~= Seq::empty());
        }
        r
    }

    /// `print(...)`: logs one line, the printed forms of the arguments with
    /// a tab between each two.
    pub fn print(&mut self, args: &Vec<ScriptValue>)
        ensures
            final(self)@ == old(self)@.print(value_views(args@)),
    {
        let ghost wanted = value_texts(value_views(args@));
        let mut texts: Vec<String> = Vec::new();
        let mut i: usize = 0;
        while i < args.len()
            invariant
                i <= args.len(),
                wanted == value_texts(value_views(args@)),
                texts.deep_view() == wanted.take(i as int),
            decreases args.len() - i,
        {
            let ghost before = texts.deep_view();
            texts.push(args[i].to_text());
            proof {
                assert(wanted[i as int] == args@[i as int]@.text());
                assert(texts.deep_view() =~= before.push(wanted[i as int]));
                assert(before.push(wanted[i as int]) =~= wanted.take(i as int + 1));
            }
            i = i + 1;
        }
        proof {
            assert(wanted.take(args.len() as int) =~= wanted);
        }
        let line = join_lines(&texts, "\t");
        self.log(line);
    }
}

} // verus!
