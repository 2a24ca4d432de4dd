//! The text that is handed to the interpreter for one run: the script of
//! the user, and in debug mode the bootstrap that calls its `modelMain`.

use vstd::prelude::*;
use vstd::string::*;
use crate::engine::NativeLuaEngine;
use crate::number::{Number, NumberView, ScriptValue, ScriptValueView};

verus! {

/// The two comment lines that open every assembled script.
pub const HEADER: &'static str = "\
    -- Using built-in turtle graphics\n\
    -- open('Lua Debug - Turtle Graphics')\n";

/// What precedes the user's script in a plain run.
pub const PLAIN_LEAD: &'static str = "\
    \n\
    -- User Script:\n";

/// What stands between the debug globals and the user's script.
pub const DEBUG_LEAD: &'static str = "\
    \n\
    -- ===== USER SCRIPT (defines modelMain function) =====\n";

/// What separates the user's script from the second part of the bootstrap.
pub const DEBUG_GAP: &'static str = "\
    \n\
    \n";

/// What precedes the debug library's own text.
pub const LIBRARY_LEAD: &'static str = "\
    -- ===== ADEKOLIB DEBUG MODE (ZeroBrane-style 6-face layout) =====\n\
    print('üéØ Starting ZeroBrane-style debug mode with 6-face layout')\n";

/// What follows the debug library's own text.
pub const LIBRARY_TAIL: &'static str = "\
    \n\
    print('‚úÖ Debug mode execution completed')\n";

/// What announces the fallback where the debug library could not be read.
pub const UNREADABLE_LEAD: &'static str = "\
    -- ===== FALLBACK DEBUG ENVIRONMENT =====\n\
    print('‚ö†Ô∏è  Using fallback debug environment (ADekoDebugMode.lua not found)')\n";

/// What announces the fallback where there is no debug library.
pub const MISSING_LEAD: &'static str = "\
    -- ===== SIMPLIFIED DEBUG ENVIRONMENT =====\n\
    print('‚ö†Ô∏è  ADekoDebugMode.lua not found, using simplified debug environment')\n";

/// The first part of the debug bootstrap: the assignments that give the
/// globals of a debug run their values. It stands before the user's script,
/// so that they are set when the first statement of the script runs.
pub const DEBUG_GLOBALS: &'static str = "\
    X = 500\n\
    Y = 700\n\
    materialThickness = 18\n\
    offset = 20\n\
    edge1layer=\"LMM0\"\n\
    edge2layer=\"LMM1\"\n\
    edge3layer=\"LMM2\"\n\
    edge4layer=\"LMM3\"\n\
    edge1thickness=0.1\n\
    edge2thickness=0.2\n\
    edge3thickness=0.3\n\
    edge4thickness=0.4\n\
    doesSizeIncludeEdgeThickness=\"false\"\n\
    modelParameters=\"\"\n";

/// The second part of the fallback bootstrap: a call of `modelMain` between
/// the start and the finish of the macro namespace. It stands behind the
/// user's script, which defines `modelMain`.
pub const FALLBACK_CALL: &'static str = "\
    print('üîß Setting up basic debug environment')\n\
    if ADekoLib then ADekoLib.start() end\n\
    if modelMain then\n  \
    print('üìû Calling modelMain() function')\n  \
    modelMain()\n  \
    print('‚úÖ modelMain() execution completed')\n\
    else\n  \
    print('‚ùå modelMain function not found in script')\n\
    end\n\
    if ADekoLib then ADekoLib.finish() end\n";

/// What the host found of the debug library file.
#[derive(Debug)]
pub enum DebugLibrary {
    /// There is no such file.
    Missing,
    /// The file is there and could not be read as text.
    Unreadable,
    /// The text of the file.
    Text(String),
}

/// How a script is to be run.
#[derive(Debug)]
pub enum ScriptMode {
    /// The script alone.
    Plain,
    /// The script, then the debug bootstrap.
    Debug(DebugLibrary),
}

/// The mathematical content of a [`DebugLibrary`].
pub enum DebugLibraryView {
    Missing,
    Unreadable,
    Text(Seq<char>),
}

/// The mathematical content of a [`ScriptMode`].
pub enum ScriptModeView {
    Plain,
    Debug(DebugLibraryView),
}

impl View for DebugLibrary {
    type V = DebugLibraryView;

    open spec fn view(&self) -> DebugLibraryView {
        match self {
            DebugLibrary::Missing => DebugLibraryView::Missing,
            DebugLibrary::Unreadable => DebugLibraryView::Unreadable,
            DebugLibrary::Text(t) => DebugLibraryView::Text(t@),
        }
    }
}

impl View for ScriptMode {
    type V = ScriptModeView;

    open spec fn view(&self) -> ScriptModeView {
        match self {
            ScriptMode::Plain => ScriptModeView::Plain,
            ScriptMode::Debug(library) => ScriptModeView::Debug(library@),
        }
    }
}

/// The part of the debug bootstrap that stands before the user's script:
/// the assignments of the debug globals.
pub open spec fn debug_preamble() -> Seq<char> {
    DEBUG_GLOBALS@
}

/// The part of the debug bootstrap that stands behind the user's script and
/// calls its `modelMain`: the debug library between its two announcements
/// where the host could read it, and the fallback call behind the fitting
/// announcement where it could not.
pub open spec fn debug_call(library: DebugLibraryView) -> Seq<char> {
    match library {
        DebugLibraryView::Text(text) => LIBRARY_LEAD@ + text + LIBRARY_TAIL@,
        DebugLibraryView::Unreadable => UNREADABLE_LEAD@ + FALLBACK_CALL@,
        DebugLibraryView::Missing => MISSING_LEAD@ + FALLBACK_CALL@,
    }
}

/// The text of one run. A plain run is the header and the user's script. A
/// debug run is the header, the first part of the bootstrap, the user's
/// script, and the second part of the bootstrap.
pub open spec fn assembled_script(script: Seq<char>, mode: ScriptModeView) -> Seq<char> {
    match mode {
        ScriptModeView::Plain => HEADER@ + PLAIN_LEAD@ + script,
        ScriptModeView::Debug(library) => HEADER@ + debug_preamble() + DEBUG_LEAD@ + script
            + DEBUG_GAP@ + debug_call(library),
    }
}

/// Puts together the text that the interpreter runs: in a plain run the
/// header and the user's script; in a debug run the header, the debug
/// globals, the user's script, which defines `modelMain`, and the part of
/// the bootstrap that calls it.
pub fn assemble_script(script_content: &str, mode: &ScriptMode) -> (r: String)
    ensures
        r@ == assembled_script(script_content@, mode@),
{
    let mut full_script = String::from_str(HEADER);
    match mode {
        ScriptMode::Plain => {
            full_script.append(PLAIN_LEAD);
            full_script.append(script_content);
        },
        ScriptMode::Debug(library) => {
            full_script.append(DEBUG_GLOBALS);
            full_script.append(DEBUG_LEAD);
            full_script.append(script_content);
            full_script.append(DEBUG_GAP);
            match library {
                DebugLibrary::Text(text) => {
                    full_script.append(LIBRARY_LEAD);
                    full_script.append(text.as_str());
                    full_script.append(LIBRARY_TAIL);
                },
                DebugLibrary::Unreadable => {
                    full_script.append(UNREADABLE_LEAD);
                    full_script.append(FALLBACK_CALL);
                },
                DebugLibrary::Missing => {
                    full_script.append(MISSING_LEAD);
                    full_script.append(FALLBACK_CALL);
                },
            }
        },
    }
    full_script
}

/// In a debug run the debug globals come before the user's script, whatever
/// the script and whatever there is of the debug library: the text starts
/// with the header and the assignments of the globals, the script follows
/// behind them and its lead, and the call of `modelMain` comes after it.
pub proof fn lemma_debug_globals_precede_script(script: Seq<char>, library: DebugLibraryView)
    ensures
        ({
            let text = assembled_script(script, ScriptModeView::Debug(library));
            let globals_at = HEADER@.len() as int;
            let script_at = globals_at + debug_preamble().len() + DEBUG_LEAD@.len();
            let call_at = script_at + script.len() + DEBUG_GAP@.len();
            &&& text.len() == call_at + debug_call(library).len()
            &&& text.subrange(0, globals_at) == HEADER@
            &&& text.subrange(globals_at, globals_at + debug_preamble().len()) == debug_preamble()
            &&& text.subrange(script_at, script_at + script.len()) == script
            &&& text.subrange(call_at, text.len() as int) == debug_call(library)
        }),
{
}

/// A global variable of the script, with the value it starts with.
#[derive(Debug)]
pub struct GlobalBinding {
    pub name: String,
    pub value: ScriptValue,
}

impl View for GlobalBinding {
    type V = (Seq<char>, ScriptValueView);

    open spec fn view(&self) -> (Seq<char>, ScriptValueView) {
        (self.name@, self.value@)
    }
}

/// The views of a sequence of bindings.
pub open spec fn binding_views(bindings: Seq<GlobalBinding>) -> Seq<(Seq<char>, ScriptValueView)> {
    Seq::new(bindings.len(), |i: int| bindings[i]@)
}

/// A number as a value, from its bit pattern and its two renderings.
pub open spec fn number_value(bits: u64, fixed: Seq<char>, plain: Seq<char>) -> ScriptValueView {
    ScriptValueView::Number(NumberView { bits, fixed, plain })
}

/// The globals that every engine starts with, in the order in which they
/// are set: the page width `X` = 500 and height `Y` = 700, the empty
/// `modelParameters`, the material thickness 18, the offset 20, the layer
/// names `LMM0` to `LMM3` of the four edges, their thicknesses 0.1 to 0.4,
/// and the flag `doesSizeIncludeEdgeThickness`, which is the text `false`.
pub open spec fn debug_defaults() -> Seq<(Seq<char>, ScriptValueView)> {
    seq![
        ("X"@, number_value(0x407F_4000_0000_0000, "500.00"@, "500"@)),
        ("Y"@, number_value(0x4085_E000_0000_0000, "700.00"@, "700"@)),
        ("modelParameters"@, ScriptValueView::Text(""@)),
        ("materialThickness"@, number_value(0x4032_0000_0000_0000, "18.00"@, "18"@)),
        ("offset"@, number_value(0x4034_0000_0000_0000, "20.00"@, "20"@)),
        ("edge1layer"@, ScriptValueView::Text("LMM0"@)),
        ("edge2layer"@, ScriptValueView::Text("LMM1"@)),
        ("edge3layer"@, ScriptValueView::Text("LMM2"@)),
        ("edge4layer"@, ScriptValueView::Text("LMM3"@)),
        ("edge1thickness"@, number_value(0x3FB9_9999_9999_999A, "0.10"@, "0.1"@)),
        ("edge2thickness"@, number_value(0x3FC9_9999_9999_999A, "0.20"@, "0.2"@)),
        ("edge3thickness"@, number_value(0x3FD3_3333_3333_3333, "0.30"@, "0.3"@)),
        ("edge4thickness"@, number_value(0x3FD9_9999_9999_999A, "0.40"@, "0.4"@)),
        ("doesSizeIncludeEdgeThickness"@, ScriptValueView::Text("false"@)),
    ]
}

fn number_binding(name: &str, bits: u64, fixed: &str, plain: &str) -> (r: GlobalBinding)
    ensures
        r@ == (name@, number_value(bits, fixed@, plain@)),
{
    GlobalBinding {
        name: String::from_str(name),
        value: ScriptValue::Number(
            Number::new(bits, String::from_str(fixed), String::from_str(plain)),
        ),
    }
}

fn text_binding(name: &str, text: &str) -> (r: GlobalBinding)
    ensures
        r@ == (name@, ScriptValueView::Text(text@)),
{
    GlobalBinding { name: String::from_str(name), value: ScriptValue::Text(String::from_str(text)) }
}

impl NativeLuaEngine {
    /// The globals to set in the interpreter before any script runs. A
    /// script may overwrite them as it may any global.
    pub fn debug_variables() -> (r: Vec<GlobalBinding>)
        ensures
            binding_views(r@) == debug_defaults(),
    {
        let mut r: Vec<GlobalBinding> = Vec::new();
        r.push(number_binding("X", 0x407F_4000_0000_0000, "500.00", "500"));
        r.push(number_binding("Y", 0x4085_E000_0000_0000, "700.00", "700"));
        r.push(text_binding("modelParameters", ""));
        r.push(number_binding("materialThickness", 0x4032_0000_0000_0000, "18.00", "18"));
        r.push(number_binding("offset", 0x4034_0000_0000_0000, "20.00", "20"));
        r.push(text_binding("edge1layer", "LMM0"));
        r.push(text_binding("edge2layer", "LMM1"));
        r.push(text_binding("edge3layer", "LMM2"));
        r.push(text_binding("edge4layer", "LMM3"));
        r.push(number_binding("edge1thickness", 0x3FB9_9999_9999_999A, "0.10", "0.1"));
        r.push(number_binding("edge2thickness", 0x3FC9_9999_9999_999A, "0.20", "0.2"));
        r.push(number_binding("edge3thickness", 0x3FD3_3333_3333_3333, "0.30", "0.3"));
        r.push(number_binding("edge4thickness", 0x3FD9_9999_9999_999A, "0.40", "0.4"));
        r.push(text_binding("doesSizeIncludeEdgeThickness", "false"));
        r
    }
}

} // verus!
