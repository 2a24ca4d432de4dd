//! The turtle builtins. Each takes the numbers that the script passed and,
//! where the builtin computes with them, the outcome of that computation.

use vstd::prelude::*;
use vstd::string::*;
use crate::draw::DrawCommand;
use crate::engine::NativeLuaEngine;
use crate::messages::{
    rgb_text, write_at, write_circle, write_pair, write_placed_text, write_rect, write_rgb,
    write_span, write_text, write_turn,
};
use crate::number::{optional_number, optional_value, Number, ScriptValue};
use crate::state::TurtleState;
use crate::text::optional_str;

verus! {

impl NativeLuaEngine {
    /// `move(distance)`: takes the turtle to `(x, y)`, the point that lies
    /// `distance` ahead of it. With the pen down the way is logged and drawn
    /// as a line in the current colour and size; with the pen up it is only
    /// logged. The cursor moves either way.
    pub fn move_to(&mut self, x: Number, y: Number)
        ensures
            final(self)@ == old(self)@.move_to(x@, y@),
    {
        if self.turtle_state.pen_down {
            let line = write_span(
                "Drawing line from ",
                &self.turtle_state.x,
                &self.turtle_state.y,
                &x,
                &y,
            );
            let command = DrawCommand::line(
                self.turtle_state.x.clone(),
                self.turtle_state.y.clone(),
                x.clone(),
                y.clone(),
                self.turtle_state.pen_color.clone(),
                self.turtle_state.pen_size.clone(),
            );
            self.log(line);
            self.emit(command);
        } else {
            let line = write_span(
                "Moving from ",
                &self.turtle_state.x,
                &self.turtle_state.y,
                &x,
                &y,
            );
            self.log(line);
        }
        self.turtle_state.x = x;
        self.turtle_state.y = y;
    }

    /// `turn(degrees)`: sets the heading to `angle`, the old heading plus
    /// `degrees`, and logs both.
    pub fn turn(&mut self, degrees: Number, angle: Number)
        ensures
            final(self)@ == old(self)@.turn(degrees@, angle@),
    {
        let line = write_turn(&degrees, &angle);
        self.turtle_state.angle = angle;
        self.log(line);
    }

    /// `pndn()`: puts the pen down.
    pub fn pndn(&mut self)
        ensures
            final(self)@ == old(self)@.pndn(),
    {
        self.turtle_state.pen_down = true;
        self.log(String::from_str("Pen down"));
    }

    /// `pnup()`: lifts the pen.
    pub fn pnup(&mut self)
        ensures
            final(self)@ == old(self)@.pnup(),
    {
        self.turtle_state.pen_down = false;
        self.log(String::from_str("Pen up"));
    }

    /// `posn(x, y)`: puts the turtle at `(x, y)` without drawing.
    pub fn posn(&mut self, x: Number, y: Number)
        ensures
            final(self)@ == old(self)@.posn(x@, y@),
    {
        let line = write_at("Position set to ", &x, &y);
        self.turtle_state.x = x;
        self.turtle_state.y = y;
        self.log(line);
    }

    /// `zero(x?, y?)`: as `posn`, with 0 for each coordinate left out.
    pub fn zero(&mut self, x: Option<Number>, y: Option<Number>)
        ensures
            final(self)@ == old(self)@.zero(optional_number(x), optional_number(y)),
    {
        let x = Number::or_zero(x);
        let y = Number::or_zero(y);
        let line = write_at("Zero position set to ", &x, &y);
        self.turtle_state.x = x;
        self.turtle_state.y = y;
        self.log(line);
    }

    /// `pncl(color)`: sets the pen colour.
    pub fn pncl(&mut self, color: &str)
        ensures
            final(self)@ == old(self)@.pncl(color@),
    {
        self.turtle_state.pen_color = String::from_str(color);
        self.log(write_pair("Pen color set to: ", color));
    }

    /// `pnsz(size)`: sets the pen size.
    pub fn pnsz(&mut self, size: Number)
        ensures
            final(self)@ == old(self)@.pnsz(size@),
    {
        let line = write_pair("Pen size set to: ", size.plain.as_str());
        self.turtle_state.pen_size = size;
        self.log(line);
    }

    /// `wipe()`: puts the turtle back as in a fresh engine. Neither log is
    /// cleared.
    pub fn wipe(&mut self)
        ensures
            final(self)@ == old(self)@.wipe(),
    {
        self.turtle_state = TurtleState::default();
        self.log(String::from_str("Screen cleared"));
    }

    /// `text(content, angle, dx, dy)`: places the printed form of `content`
    /// at `(x, y)`, the cursor moved by `(dx, dy)`, in the current colour and
    /// size. The angle plays no part, and the cursor stays.
    pub fn text(&mut self, content: Option<&ScriptValue>, x: Number, y: Number)
        ensures
            final(self)@ == old(self)@.text(optional_value(content), x@, y@),
    {
        let placed = write_placed_text(content);
        let line = write_text(&x, &y, placed.as_str());
        let command = DrawCommand::text(
            x,
            y,
            self.turtle_state.pen_color.clone(),
            self.turtle_state.pen_size.clone(),
            placed,
        );
        self.log(line);
        self.emit(command);
    }

    /// `open(title?)`: logs that a window was opened. No window exists.
    pub fn open(&mut self, title: Option<&str>)
        ensures
            final(self)@ == old(self)@.open(optional_str(title)),
    {
        let line = match title {
            Some(t) => write_pair("Turtle graphics window opened: ", t),
            None => write_pair("Turtle graphics window opened: ", "Turtle Graphics"),
        };
        self.log(line);
    }

    /// `crcl(x, y, radius)`: draws a circle round `(x, y)`, wherever the
    /// turtle is.
    pub fn crcl(&mut self, x: Number, y: Number, radius: Number)
        ensures
            final(self)@ == old(self)@.crcl(x@, y@, radius@),
    {
        let line = write_circle(&x, &y, &radius);
        let command = DrawCommand::circle(
            x,
            y,
            radius,
            self.turtle_state.pen_color.clone(),
            self.turtle_state.pen_size.clone(),
        );
        self.log(line);
        self.emit(command);
    }

    /// `line(x1, y1, x2, y2)`: draws a line between two points, wherever the
    /// turtle is.
    pub fn line(&mut self, x1: Number, y1: Number, x2: Number, y2: Number)
        ensures
            final(self)@ == old(self)@.line(x1@, y1@, x2@, y2@),
    {
        let line = write_span("Line from ", &x1, &y1, &x2, &y2);
        let command = DrawCommand::line(
            x1,
            y1,
            x2,
            y2,
            self.turtle_state.pen_color.clone(),
            self.turtle_state.pen_size.clone(),
        );
        self.log(line);
        self.emit(command);
    }

    /// `rect(x, y, width, height, corner_radius?)`: draws a rectangle from
    /// `(x, y)` to `(far_x, far_y)`, the corner that lies `width` and
    /// `height` further. An argument left out counts as 0. A negative width
    /// or height is kept as it is.
    pub fn rect(
        &mut self,
        x: Option<Number>,
        y: Option<Number>,
        width: Option<Number>,
        height: Option<Number>,
        corner_radius: Option<Number>,
        far_x: Number,
        far_y: Number,
    )
        ensures
            final(self)@ == old(self)@.rect(
                optional_number(x),
                optional_number(y),
                optional_number(width),
                optional_number(height),
                optional_number(corner_radius),
                far_x@,
                far_y@,
            ),
    {
        let x = Number::or_zero(x);
        let y = Number::or_zero(y);
        let width = Number::or_zero(width);
        let height = Number::or_zero(height);
        let corner_radius = Number::or_zero(corner_radius);
        let line = write_rect(&x, &y, &width, &height, &corner_radius);
        let command = DrawCommand::rectangle(
            x,
            y,
            far_x,
            far_y,
            corner_radius,
            self.turtle_state.pen_color.clone(),
            self.turtle_state.pen_size.clone(),
        );
        self.log(line);
        self.emit(command);
    }

    /// `colr(r, g, b)`: the colour text `rgb(r,g,b)`. It reads no state and
    /// logs nothing.
    pub fn colr(r: i32, g: i32, b: i32) -> (out: String)
        ensures
            out@ == rgb_text(r as int, g as int, b as int),
    {
        write_rgb(r, g, b)
    }

    /// `wait()`: logs that the script waits, and returns at once.
    pub fn wait(&mut self)
        ensures
            final(self)@ == old(self)@.wait(),
    {
        self.log(String::from_str("Waiting for user input..."));
    }
}

} // verus!
