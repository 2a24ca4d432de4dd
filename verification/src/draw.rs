//! Drawing commands: the replayable primitives that a script run leaves
//! behind, in the order in which the script asked for them.

use vstd::prelude::*;
use vstd::string::*;
use crate::number::{Number, NumberView};

verus! {

/// The four kinds of drawing primitive.
#[derive(Clone, Copy, Debug, PartialEq, Eq, Structural)]
pub enum CommandKind {
    Line,
    Circle,
    Rectangle,
    Text,
}

/// The name under which a kind of command is handed on.
pub open spec fn kind_name(kind: CommandKind) -> Seq<char> {
    match kind {
        CommandKind::Line => "line"@,
        CommandKind::Circle => "circle"@,
        CommandKind::Rectangle => "rectangle"@,
        CommandKind::Text => "text"@,
    }
}

impl CommandKind {
    /// The name of the kind: `line`, `circle`, `rectangle` or `text`.
    pub fn name(&self) -> (r: &'static str)
        ensures
            r@ == kind_name(*self),
    {
        match self {
            CommandKind::Line => "line",
            CommandKind::Circle => "circle",
            CommandKind::Rectangle => "rectangle",
            CommandKind::Text => "text",
        }
    }
}

/// One drawing primitive with its style.
#[derive(Debug)]
pub struct DrawCommand {
    pub kind: CommandKind,
    pub x1: Number,
    pub y1: Number,
    pub x2: Number,
    pub y2: Number,
    pub radius: Number,
    pub color: String,
    pub size: Number,
    pub text: String,
}

/// The mathematical content of a [`DrawCommand`].
pub struct DrawCommandView {
    pub kind: CommandKind,
    pub x1: NumberView,
    pub y1: NumberView,
    pub x2: NumberView,
    pub y2: NumberView,
    pub radius: NumberView,
    pub color: Seq<char>,
    pub size: NumberView,
    pub text: Seq<char>,
}

impl View for DrawCommand {
    type V = DrawCommandView;

    open spec fn view(&self) -> DrawCommandView {
        DrawCommandView {
            kind: self.kind,
            x1: self.x1@,
            y1: self.y1@,
            x2: self.x2@,
            y2: self.y2@,
            radius: self.radius@,
            color: self.color@,
            size: self.size@,
            text: self.text@,
        }
    }
}

/// A straight line from `(x1, y1)` to `(x2, y2)`.
pub open spec fn line_command(
    x1: NumberView,
    y1: NumberView,
    x2: NumberView,
    y2: NumberView,
    color: Seq<char>,
    size: NumberView,
) -> DrawCommandView {
    DrawCommandView {
        kind: CommandKind::Line,
        x1,
        y1,
        x2,
        y2,
        radius: NumberView::zero(),
        color,
        size,
        text: Seq::empty(),
    }
}

/// A circle round `(x, y)`.
pub open spec fn circle_command(
    x: NumberView,
    y: NumberView,
    radius: NumberView,
    color: Seq<char>,
    size: NumberView,
) -> DrawCommandView {
    DrawCommandView {
        kind: CommandKind::Circle,
        x1: x,
        y1: y,
        x2: NumberView::zero(),
        y2: NumberView::zero(),
        radius,
        color,
        size,
        text: Seq::empty(),
    }
}

/// A rectangle between two opposite corners, with rounded corners of `radius`.
pub open spec fn rectangle_command(
    x1: NumberView,
    y1: NumberView,
    x2: NumberView,
    y2: NumberView,
    radius: NumberView,
    color: Seq<char>,
    size: NumberView,
) -> DrawCommandView {
    DrawCommandView { kind: CommandKind::Rectangle, x1, y1, x2, y2, radius, color, size, text: Seq::empty() }
}

/// A text placed at `(x, y)`.
pub open spec fn text_command(
    x: NumberView,
    y: NumberView,
    color: Seq<char>,
    size: NumberView,
    text: Seq<char>,
) -> DrawCommandView {
    DrawCommandView {
        kind: CommandKind::Text,
        x1: x,
        y1: y,
        x2: NumberView::zero(),
        y2: NumberView::zero(),
        radius: NumberView::zero(),
        color,
        size,
        text,
    }
}

/// The views of a sequence of commands.
pub open spec fn command_views(commands: Seq<DrawCommand>) -> Seq<DrawCommandView> {
    Seq::new(commands.len(), |i: int| commands[i]@)
}

impl Clone for DrawCommand {
    fn clone(&self) -> (r: Self)
        ensures
            r == *self,
    {
        DrawCommand {
            kind: self.kind,
            x1: self.x1.clone(),
            y1: self.y1.clone(),
            x2: self.x2.clone(),
            y2: self.y2.clone(),
            radius: self.radius.clone(),
            color: self.color.clone(),
            size: self.size.clone(),
            text: self.text.clone(),
        }
    }
}

impl DrawCommand {
    /// The name of the command's kind.
    pub fn command_type(&self) -> (r: String)
        ensures
            r@ == kind_name(self.kind),
    {
        String::from_str(self.kind.name())
    }

    /// A line command.
    pub fn line(x1: Number, y1: Number, x2: Number, y2: Number, color: String, size: Number) -> (r:
        DrawCommand)
        ensures
            r@ == line_command(x1@, y1@, x2@, y2@, color@, size@),
    {
        DrawCommand {
            kind: CommandKind::Line,
            x1,
            y1,
            x2,
            y2,
            radius: Number::zero(),
            color,
            size,
            text: String::new(),
        }
    }

    /// A circle command.
    pub fn circle(x: Number, y: Number, radius: Number, color: String, size: Number) -> (r:
        DrawCommand)
        ensures
            r@ == circle_command(x@, y@, radius@, color@, size@),
    {
        DrawCommand {
            kind: CommandKind::Circle,
            x1: x,
            y1: y,
            x2: Number::zero(),
            y2: Number::zero(),
            radius,
            color,
            size,
            text: String::new(),
        }
    }

    /// A rectangle command.
    pub fn rectangle(
        x1: Number,
        y1: Number,
        x2: Number,
        y2: Number,
        radius: Number,
        color: String,
        size: Number,
    ) -> (r: DrawCommand)
        ensures
            r@ == rectangle_command(x1@, y1@, x2@, y2@, radius@, color@, size@),
    {
        DrawCommand {
            kind: CommandKind::Rectangle,
            x1,
            y1,
            x2,
            y2,
            radius,
            color,
            size,
            text: String::new(),
        }
    }

    /// A text command.
    pub fn text(x: Number, y: Number, color: String, size: Number, text: String) -> (r:
        DrawCommand)
        ensures
            r@ == text_command(x@, y@, color@, size@, text@),
    {
        DrawCommand {
            kind: CommandKind::Text,
            x1: x,
            y1: y,
            x2: Number::zero(),
            y2: Number::zero(),
            radius: Number::zero(),
            color,
            size,
            text,
        }
    }
}

/// An independent copy of a command list.
pub fn copy_commands(commands: &Vec<DrawCommand>) -> (r: Vec<DrawCommand>)
    ensures
        r@ == commands@,
{
    let mut out: Vec<DrawCommand> = Vec::new();
    let mut i: usize = 0;
    while i < commands.len()
        invariant
            i <= commands.len(),
            out@ == commands@.take(i as int),
        decreases commands.len() - i,
    {
        out.push(commands[i].clone());
        proof {
            assert(commands@.take(i as int + 1) =~= commands@.take(i as int).push(commands@[i as int]));
        }
        i = i + 1;
    }
    proof {
        assert(commands@.take(commands.len() as int) =~= commands@);
    }
    out
}

} // verus!
