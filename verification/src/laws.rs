//! What holds of the engine whatever a script does: statements over the
//! transitions that the engine's methods promise, each proved here.

use vstd::prelude::*;
use crate::draw::line_command;
use crate::engine::harness::run_result;
use crate::macros::{MacroArgView, PointArgView};
use crate::model::EngineView;
use crate::number::{NumberView, ScriptValueView};
use crate::macros::{is_circle, is_segment};
use crate::resolver::{
    is_reserved, lookup_outcome, not_found_message, require_fails, require_plan, RequirePlanView,
};
use crate::state::TurtleStateView;

verus! {

/// One call of a builtin that works on the engine, with its arguments.
pub enum Call {
    Print(Seq<ScriptValueView>),
    MoveTo(NumberView, NumberView),
    Turn(NumberView, NumberView),
    Pndn,
    Pnup,
    Posn(NumberView, NumberView),
    Zero(Option<NumberView>, Option<NumberView>),
    Pncl(Seq<char>),
    Pnsz(NumberView),
    Wipe,
    Text(Option<ScriptValueView>, NumberView, NumberView),
    Open(Option<Seq<char>>),
    Crcl(NumberView, NumberView, NumberView),
    Line(NumberView, NumberView, NumberView, NumberView),
    Rect(
        Option<NumberView>,
        Option<NumberView>,
        Option<NumberView>,
        Option<NumberView>,
        Option<NumberView>,
        NumberView,
        NumberView,
    ),
    Wait,
    SetFace(Seq<char>),
    SetLayer(Seq<char>),
    MakePart(NumberView, NumberView),
    SetThickness(NumberView),
    Point(NumberView, NumberView),
    PointSize(NumberView),
    Circle(Seq<MacroArgView>),
    Rectangle(PointArgView, PointArgView),
    MacroLine(Seq<MacroArgView>),
    Polyline(Seq<PointArgView>),
}

impl Call {
    /// Whether the call is one of the four setters of the macro namespace.
    pub open spec fn is_macro_setter(self) -> bool {
        self is SetFace || self is SetLayer || self is MakePart || self is SetThickness
    }

    /// Whether the call is one that moves or turns the turtle, handles its
    /// pen, or resets it.
    pub open spec fn steers_turtle(self) -> bool {
        self is MoveTo || self is Turn || self is Pndn || self is Pnup || self is Posn
            || self is Zero || self is Pncl || self is Pnsz || self is Wipe
    }

    /// Whether the call, made in `state`, adds a drawing command: the four
    /// builtins that draw at given coordinates always do, a move does with
    /// the pen down.
    pub open spec fn draws(self, state: EngineView) -> bool {
        self is Text || self is Crcl || self is Line || self is Rect || (self is MoveTo
            && state.turtle.pen_down)
    }

    /// Whether the call goes to the macro namespace.
    pub open spec fn is_macro(self) -> bool {
        match self {
            Call::SetFace(_) => true,
            Call::SetLayer(_) => true,
            Call::MakePart(_, _) => true,
            Call::SetThickness(_) => true,
            Call::Point(_, _) => true,
            Call::PointSize(_) => true,
            Call::Circle(_) => true,
            Call::Rectangle(_, _) => true,
            Call::MacroLine(_) => true,
            Call::Polyline(_) => true,
            _ => false,
        }
    }
}

impl EngineView {
    /// The state after one call.
    pub open spec fn apply(self, call: Call) -> EngineView {
        match call {
            Call::Print(values) => self.print(values),
            Call::MoveTo(x, y) => self.move_to(x, y),
            Call::Turn(degrees, angle) => self.turn(degrees, angle),
            Call::Pndn => self.pndn(),
            Call::Pnup => self.pnup(),
            Call::Posn(x, y) => self.posn(x, y),
            Call::Zero(x, y) => self.zero(x, y),
            Call::Pncl(color) => self.pncl(color),
            Call::Pnsz(size) => self.pnsz(size),
            Call::Wipe => self.wipe(),
            Call::Text(content, x, y) => self.text(content, x, y),
            Call::Open(title) => self.open(title),
            Call::Crcl(x, y, radius) => self.crcl(x, y, radius),
            Call::Line(x1, y1, x2, y2) => self.line(x1, y1, x2, y2),
            Call::Rect(x, y, width, height, radius, far_x, far_y) => self.rect(
                x,
                y,
                width,
                height,
                radius,
                far_x,
                far_y,
            ),
            Call::Wait => self.wait(),
            Call::SetFace(face) => self.adeko_set_face(face),
            Call::SetLayer(layer) => self.adeko_set_layer(layer),
            Call::MakePart(width, height) => self.adeko_make_part(width, height),
            Call::SetThickness(thickness) => self.adeko_set_thickness(thickness),
            Call::Point(x, y) => self.adeko_point(x, y),
            Call::PointSize(size) => self.adeko_point_size(size),
            Call::Circle(args) => self.adeko_circle(args),
            Call::Rectangle(p1, p2) => self.adeko_rectangle(p1, p2),
            Call::MacroLine(args) => self.adeko_line(args),
            Call::Polyline(points) => self.adeko_polylineimp(points),
        }
    }

    /// The state after a sequence of calls, first to last.
    pub open spec fn run(self, calls: Seq<Call>) -> EngineView
        decreases calls.len(),
    {
        if calls.len() == 0 {
            self
        } else {
            self.run(calls.drop_last()).apply(calls.last())
        }
    }
}

/// Whether every call of the sequence is a move or a turn.
pub open spec fn is_walk(calls: Seq<Call>) -> bool {
    forall|i: int| 0 <= i < calls.len() ==> (#[trigger] calls[i] is MoveTo) || calls[i] is Turn
}

/// The points that a walk visits: where it starts, then the target of each
/// move, in order.
pub open spec fn waypoints(start: (NumberView, NumberView), calls: Seq<Call>) -> Seq<
    (NumberView, NumberView),
>
    decreases calls.len(),
{
    if calls.len() == 0 {
        seq![start]
    } else {
        let before = waypoints(start, calls.drop_last());
        match calls.last() {
            Call::MoveTo(x, y) => before.push((x, y)),
            _ => before,
        }
    }
}

/// Both logs are append-only: whatever the call, the log lines and the
/// drawing commands that were there stay, in their order, at the front of
/// what is there afterwards. No call changes the module directory.
pub proof fn lemma_logs_only_grow(state: EngineView, call: Call)
    ensures
        state.output.is_prefix_of(state.apply(call).output),
        state.commands.is_prefix_of(state.apply(call).commands),
        state.apply(call).library_path == state.library_path,
{
    let after = state.apply(call);
    assert(after.output.subrange(0, state.output.len() as int) =~= state.output);
    assert(after.commands.subrange(0, state.commands.len() as int) =~= state.commands);
}

/// The same over a whole script: after any sequence of calls both logs
/// still start with what they held before.
pub proof fn lemma_run_only_grows_logs(state: EngineView, calls: Seq<Call>)
    ensures
        state.output.is_prefix_of(state.run(calls).output),
        state.commands.is_prefix_of(state.run(calls).commands),
        state.run(calls).library_path == state.library_path,
    decreases calls.len(),
{
    if calls.len() == 0 {
        assert(state.output.subrange(0, state.output.len() as int) =~= state.output);
        assert(state.commands.subrange(0, state.commands.len() as int) =~= state.commands);
    } else {
        let before = state.run(calls.drop_last());
        lemma_run_only_grows_logs(state, calls.drop_last());
        lemma_logs_only_grow(before, calls.last());
        let after = before.apply(calls.last());
        assert(after.output.subrange(0, state.output.len() as int) =~= state.output);
        assert(after.commands.subrange(0, state.commands.len() as int) =~= state.commands);
    }
}

/// `wipe` puts the turtle at the origin with heading 0, pen down, black ink
/// and pen size 1, whatever it was before. It clears neither log: the output
/// log gains the line `Screen cleared`, the drawing log and the macro
/// settings stay as they were.
pub proof fn lemma_wipe_resets_turtle_only(state: EngineView)
    ensures
        state.wipe().turtle == TurtleStateView::initial(),
        state.wipe().turtle.x == NumberView::zero(),
        state.wipe().turtle.y == NumberView::zero(),
        state.wipe().turtle.angle == NumberView::zero(),
        state.wipe().turtle.pen_down,
        state.wipe().turtle.pen_color == "black"@,
        state.wipe().turtle.pen_size == NumberView::one(),
        state.wipe().output == state.output.push("Screen cleared"@),
        state.wipe().commands == state.commands,
        state.wipe().adeko == state.adeko,
        state.wipe().library_path == state.library_path,
{
}

/// No function of the macro namespace draws or moves the turtle: the
/// drawing log and the turtle are after the call what they were before.
pub proof fn lemma_macro_calls_draw_nothing(state: EngineView, call: Call)
    requires
        call.is_macro(),
    ensures
        state.apply(call).commands == state.commands,
        state.apply(call).turtle == state.turtle,
{
}

/// The macro settings change under the four setters of the macro namespace
/// and under nothing else: no other macro function and no turtle builtin
/// touches them, and `wipe` does not reset them.
pub proof fn lemma_only_setters_change_macro_settings(state: EngineView, call: Call)
    requires
        !call.is_macro_setter(),
    ensures
        state.apply(call).adeko == state.adeko,
{
}

/// The turtle changes under the builtins that move it, turn it or handle
/// its pen, and under `wipe`. Every other call, the builtins that draw at
/// given coordinates and `text` among them, leaves the turtle as it was.
pub proof fn lemma_only_turtle_builtins_change_turtle(state: EngineView, call: Call)
    requires
        !call.steers_turtle(),
    ensures
        state.apply(call).turtle == state.turtle,
{
}

/// Every builtin outside the macro namespace writes exactly one log line,
/// and at most one drawing command.
pub proof fn lemma_builtins_log_one_line(state: EngineView, call: Call)
    requires
        !call.is_macro(),
    ensures
        state.apply(call).output.len() == state.output.len() + 1,
        state.apply(call).commands.len() == state.commands.len() + if call.draws(state) {
            1int
        } else {
            0int
        },
{
}

/// A walk with the pen down draws its own path. For any sequence of moves
/// and turns, the run adds exactly one line to the drawing log per move; the
/// line of a move starts where the turtle stood and ends at the target of the
/// move, so each line starts where the line before it ended; every line has
/// the colour and size that the pen had at the start; and the turtle ends on
/// the last point visited, with the pen still down.
pub proof fn lemma_walk_draws_connected_path(state: EngineView, calls: Seq<Call>)
    requires
        state.turtle.pen_down,
        is_walk(calls),
    ensures
        ({
            let after = state.run(calls);
            let points = waypoints((state.turtle.x, state.turtle.y), calls);
            let base = state.commands.len() as int;
            &&& points.len() >= 1
            &&& points[0] == (state.turtle.x, state.turtle.y)
            &&& (after.turtle.x, after.turtle.y) == points.last()
            &&& after.turtle.pen_down
            &&& after.turtle.pen_color == state.turtle.pen_color
            &&& after.turtle.pen_size == state.turtle.pen_size
            &&& after.commands.len() == base + points.len() - 1
            &&& state.commands.is_prefix_of(after.commands)
            &&& forall|k: int|
                0 <= k < points.len() - 1 ==> #[trigger] after.commands[base + k] == line_command(
                    points[k].0,
                    points[k].1,
                    points[k + 1].0,
                    points[k + 1].1,
                    state.turtle.pen_color,
                    state.turtle.pen_size,
                )
        }),
    decreases calls.len(),
{
    let start = (state.turtle.x, state.turtle.y);
    if calls.len() == 0 {
        assert(state.commands.subrange(0, state.commands.len() as int) =~= state.commands);
    } else {
        let earlier = calls.drop_last();
        assert(is_walk(earlier)) by {
            assert forall|i: int| 0 <= i < earlier.len() implies (#[trigger] earlier[i] is MoveTo)
                || earlier[i] is Turn by {
                assert(earlier[i] == calls[i]);
            }
        }
        lemma_walk_draws_connected_path(state, earlier);
        let before = state.run(earlier);
        let after = state.run(calls);
        let points_before = waypoints(start, earlier);
        let points = waypoints(start, calls);
        let base = state.commands.len() as int;
        assert(calls[calls.len() - 1] is MoveTo || calls[calls.len() - 1] is Turn);
        lemma_logs_only_grow(before, calls.last());
        assert(after.commands.subrange(0, base) =~= state.commands);
        match calls.last() {
            Call::MoveTo(x, y) => {
                assert(points == points_before.push((x, y)));
                assert forall|k: int| 0 <= k < points.len() - 1 implies #[trigger] after.commands[base
                    + k] == line_command(
                    points[k].0,
                    points[k].1,
                    points[k + 1].0,
                    points[k + 1].1,
                    state.turtle.pen_color,
                    state.turtle.pen_size,
                ) by {
                    if k < points_before.len() - 1 {
                        assert(after.commands[base + k] == before.commands[base + k]);
                    }
                }
            },
            _ => {
                assert(points == points_before);
                assert(after.commands == before.commands);
            },
        }
    }
}

/// The three reserved names are never looked up on disk, and requiring one
/// never fails: whether or not the cache holds the name, and whether or not
/// a module directory is configured (and so whatever files lie in it), the
/// plan is to answer from the cache or from the built-in value.
pub proof fn lemma_reserved_names_stay_off_disk(
    name: Seq<char>,
    cached: bool,
    library_path: Option<Seq<char>>,
)
    requires
        is_reserved(name),
    ensures
        !require_plan(name, cached, library_path).touches_disk(),
        !(require_plan(name, cached, library_path) is NotFound),
        require_plan(name, cached, library_path) == require_plan(name, cached, None),
{
}

/// The lookup order is cache, built-in names, disk. A name that the cache
/// holds is answered from the cache, whatever the name. The disk is only
/// tried for a name that the cache does not hold and that is not reserved,
/// and then the file is the one named after the module in the configured
/// directory.
pub proof fn lemma_lookup_order(name: Seq<char>, cached: bool, library_path: Option<Seq<char>>)
    ensures
        cached ==> require_plan(name, cached, library_path) == RequirePlanView::Cached,
        require_plan(name, cached, library_path).touches_disk() <==> !cached && !is_reserved(name)
            && library_path is Some,
        require_plan(name, cached, library_path) is NotFound <==> !cached && !is_reserved(name)
            && library_path is None,
{
}

/// `require` fails in the resolver for exactly one reason: the name is
/// neither in the cache nor reserved, and there is no module file for it,
/// be it that no directory is configured or that the look on disk found no
/// file that could be read. The error of a failed look on disk names the
/// module, as the error without a directory does.
pub proof fn lemma_require_fails_only_without_a_module(
    name: Seq<char>,
    cached: bool,
    library_path: Option<Seq<char>>,
    found: bool,
)
    ensures
        require_fails(name, cached, library_path, found) <==> !cached && !is_reserved(name) && (
        library_path is None || !found),
        lookup_outcome(name, None) == Err::<Seq<char>, Seq<char>>(not_found_message(name)),
        require_plan(name, false, None) is NotFound ==> require_plan(name, false, None)
            == (RequirePlanView::NotFound { message: not_found_message(name) }),
{
}

/// The macro functions `circle` and `line` do nothing at all for arguments
/// that are not well-formed: the whole state, both logs included, is after
/// the call what it was before.
pub proof fn lemma_malformed_shapes_are_ignored(state: EngineView, args: Seq<MacroArgView>)
    ensures
        !is_circle(args) ==> state.adeko_circle(args) == state,
        !is_segment(args) ==> state.adeko_line(args) == state,
        is_circle(args) ==> state.adeko_circle(args).output.len() == state.output.len() + 1,
        is_segment(args) ==> state.adeko_line(args).output.len() == state.output.len() + 1,
{
}

/// A module is loaded at most once. Where a first `require` of a name is
/// carried out and leaves a value in the cache (a built-in always does; a
/// file does where it was found and its chunk returned a value other than
/// nil), the plan for the next `require` of that name is to hand back the
/// cached value: no file is read or run again, whatever the directory holds.
pub proof fn lemma_second_require_is_answered_from_cache(
    name: Seq<char>,
    cached: bool,
    loaded: bool,
    library_path: Option<Seq<char>>,
)
    requires
        require_plan(name, cached, library_path).leaves_cached(loaded),
    ensures
        ({
            let first = require_plan(name, cached, library_path);
            let second = require_plan(name, first.leaves_cached(loaded), library_path);
            &&& second == RequirePlanView::Cached
            &&& !second.touches_disk()
        }),
{
}

/// A failed run shows nothing of what the script did before it failed:
/// whatever the engine has logged and drawn, the result of a failure has no
/// output and no drawing commands, and its error is the message behind the
/// fixed prefix.
pub proof fn lemma_failed_run_shows_nothing(state: EngineView, message: Seq<char>, elapsed_ms: u64)
    ensures
        !run_result(state, Err(message), elapsed_ms).success,
        run_result(state, Err(message), elapsed_ms).output.len() == 0,
        run_result(state, Err(message), elapsed_ms).draw_commands.len() == 0,
        run_result(state, Err(message), elapsed_ms).error == "Lua execution error: "@ + message,
        run_result(state, Err(message), elapsed_ms) == run_result(
            EngineView::fresh(None),
            Err(message),
            elapsed_ms,
        ),
{
}

/// A run starts with empty logs and keeps everything else: the turtle, the
/// macro settings and the module directory outlive the run before.
pub proof fn lemma_begin_run_keeps_state(state: EngineView)
    ensures
        state.begin_run().output.len() == 0,
        state.begin_run().commands.len() == 0,
        state.begin_run().turtle == state.turtle,
        state.begin_run().adeko == state.adeko,
        state.begin_run().library_path == state.library_path,
{
}

} // verus!
