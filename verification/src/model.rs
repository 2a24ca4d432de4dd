//! The engine as a mathematical state, and what each turtle builtin makes of
//! it. The executable engine promises exactly these transitions.

use vstd::prelude::*;
use crate::draw::{
    circle_command, line_command, rectangle_command, text_command, DrawCommandView,
};
use crate::messages::{
    circle_message, color_message, drawing_message, line_message, moving_message, open_message,
    placed_text, position_message, rect_message, size_message, text_message, turn_message,
    zero_message,
};
use crate::number::{or_zero, value_texts, NumberView, ScriptValueView};
use crate::state::{AdekoStateView, TurtleStateView};
use crate::text::join;

verus! {

/// Everything an engine holds.
#[verifier::ext_equal]
pub struct EngineView {
    pub turtle: TurtleStateView,
    pub adeko: AdekoStateView,
    /// The log lines of the current run, oldest first.
    pub output: Seq<Seq<char>>,
    /// The drawing commands of the current run, oldest first.
    pub commands: Seq<DrawCommandView>,
    /// The directory that holds module files, if one is configured.
    pub library_path: Option<Seq<char>>,
}

impl EngineView {
    /// A fresh engine for the given module directory.
    pub open spec fn fresh(library_path: Option<Seq<char>>) -> EngineView {
        EngineView {
            turtle: TurtleStateView::initial(),
            adeko: AdekoStateView::initial(),
            output: Seq::empty(),
            commands: Seq::empty(),
            library_path,
        }
    }

    /// The state with one more log line.
    pub open spec fn log(self, line: Seq<char>) -> EngineView {
        EngineView { output: self.output.push(line), ..self }
    }

    /// The state with one more drawing command.
    pub open spec fn emit(self, command: DrawCommandView) -> EngineView {
        EngineView { commands: self.commands.push(command), ..self }
    }

    /// The state with the cursor at `(x, y)`.
    pub open spec fn at(self, x: NumberView, y: NumberView) -> EngineView {
        EngineView { turtle: TurtleStateView { x, y, ..self.turtle }, ..self }
    }

    /// `print`: one log line, the printed forms of the values with a tab
    /// between each two.
    pub open spec fn print(self, values: Seq<ScriptValueView>) -> EngineView {
        self.log(join(value_texts(values), "\t"@))
    }

    /// The state at the start of a run: both logs empty, all else kept.
    pub open spec fn begin_run(self) -> EngineView {
        EngineView { output: Seq::empty(), commands: Seq::empty(), ..self }
    }

    /// `move`: the cursor goes to `(x, y)`; with the pen down the way there
    /// is drawn as a line in the current colour and size.
    pub open spec fn move_to(self, x: NumberView, y: NumberView) -> EngineView {
        let from_x = self.turtle.x;
        let from_y = self.turtle.y;
        if self.turtle.pen_down {
            self.log(drawing_message(from_x, from_y, x, y)).emit(
                line_command(from_x, from_y, x, y, self.turtle.pen_color, self.turtle.pen_size),
            ).at(x, y)
        } else {
            self.log(moving_message(from_x, from_y, x, y)).at(x, y)
        }
    }

    /// `turn`: the heading becomes `angle`, reached by a turn of `degrees`.
    pub open spec fn turn(self, degrees: NumberView, angle: NumberView) -> EngineView {
        EngineView { turtle: TurtleStateView { angle, ..self.turtle }, ..self }.log(
            turn_message(degrees, angle),
        )
    }

    /// `pndn`.
    pub open spec fn pndn(self) -> EngineView {
        EngineView { turtle: TurtleStateView { pen_down: true, ..self.turtle }, ..self }.log(
            "Pen down"@,
        )
    }

    /// `pnup`.
    pub open spec fn pnup(self) -> EngineView {
        EngineView { turtle: TurtleStateView { pen_down: false, ..self.turtle }, ..self }.log(
            "Pen up"@,
        )
    }

    /// `posn`: the cursor jumps to `(x, y)`; nothing is drawn.
    pub open spec fn posn(self, x: NumberView, y: NumberView) -> EngineView {
        self.at(x, y).log(position_message(x, y))
    }

    /// `zero`: as `posn`, each coordinate 0 where the script gave none.
    pub open spec fn zero(self, x: Option<NumberView>, y: Option<NumberView>) -> EngineView {
        self.at(or_zero(x), or_zero(y)).log(zero_message(or_zero(x), or_zero(y)))
    }

    /// `pncl`.
    pub open spec fn pncl(self, color: Seq<char>) -> EngineView {
        EngineView { turtle: TurtleStateView { pen_color: color, ..self.turtle }, ..self }.log(
            color_message(color),
        )
    }

    /// `pnsz`.
    pub open spec fn pnsz(self, size: NumberView) -> EngineView {
        EngineView { turtle: TurtleStateView { pen_size: size, ..self.turtle }, ..self }.log(
            size_message(size),
        )
    }

    /// `wipe`: the turtle is as in a fresh engine; both logs stay.
    pub open spec fn wipe(self) -> EngineView {
        EngineView { turtle: TurtleStateView::initial(), ..self }.log("Screen cleared"@)
    }

    /// `text`: a text command at `(x, y)` in the current colour and size.
    pub open spec fn text(
        self,
        content: Option<ScriptValueView>,
        x: NumberView,
        y: NumberView,
    ) -> EngineView {
        self.log(text_message(x, y, placed_text(content))).emit(
            text_command(x, y, self.turtle.pen_color, self.turtle.pen_size, placed_text(content)),
        )
    }

    /// `open`: a log line and nothing else.
    pub open spec fn open(self, title: Option<Seq<char>>) -> EngineView {
        self.log(open_message(title))
    }

    /// `crcl`: a circle command, wherever the cursor is.
    pub open spec fn crcl(self, x: NumberView, y: NumberView, radius: NumberView) -> EngineView {
        self.log(circle_message(x, y, radius)).emit(
            circle_command(x, y, radius, self.turtle.pen_color, self.turtle.pen_size),
        )
    }

    /// `line`: a line command, wherever the cursor is.
    pub open spec fn line(
        self,
        x1: NumberView,
        y1: NumberView,
        x2: NumberView,
        y2: NumberView,
    ) -> EngineView {
        self.log(line_message(x1, y1, x2, y2)).emit(
            line_command(x1, y1, x2, y2, self.turtle.pen_color, self.turtle.pen_size),
        )
    }

    /// `rect`: a rectangle command from `(x, y)` to the far corner, each of
    /// the five arguments 0 where the script gave none.
    pub open spec fn rect(
        self,
        x: Option<NumberView>,
        y: Option<NumberView>,
        width: Option<NumberView>,
        height: Option<NumberView>,
        corner_radius: Option<NumberView>,
        far_x: NumberView,
        far_y: NumberView,
    ) -> EngineView {
        self.log(
            rect_message(
                or_zero(x),
                or_zero(y),
                or_zero(width),
                or_zero(height),
                or_zero(corner_radius),
            ),
        ).emit(
            rectangle_command(
                or_zero(x),
                or_zero(y),
                far_x,
                far_y,
                or_zero(corner_radius),
                self.turtle.pen_color,
                self.turtle.pen_size,
            ),
        )
    }

    /// `wait`: a log line and nothing else.
    pub open spec fn wait(self) -> EngineView {
        self.log("Waiting for user input..."@)
    }
}

} // verus!
