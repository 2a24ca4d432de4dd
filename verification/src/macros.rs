//! The arguments of the CAD macro namespace, and what each of its functions
//! makes of the engine. None of them draws: they set the macro settings and
//! write log lines.

use vstd::prelude::*;
use crate::messages::{
    arc_message, circle_message, corners_message, line_message, part_message, point_message,
    point_size_message, polyline_point_message, polyline_total_message, thickness_message,
};
use crate::model::EngineView;
use crate::number::{optional_number, or_zero, Number, NumberView};
use crate::state::AdekoStateView;

verus! {

/// A point as a script hands it over: an ordered structure with x at
/// index 1 and y at index 2. A coordinate is missing where the structure
/// holds no number there.
#[derive(Debug)]
pub struct PointArg {
    pub x: Option<Number>,
    pub y: Option<Number>,
}

/// The mathematical content of a [`PointArg`].
pub struct PointArgView {
    pub x: Option<NumberView>,
    pub y: Option<NumberView>,
}

impl View for PointArg {
    type V = PointArgView;

    open spec fn view(&self) -> PointArgView {
        PointArgView { x: optional_number(self.x), y: optional_number(self.y) }
    }
}

/// One argument of a macro function that takes its arguments as they come.
#[derive(Debug)]
pub enum MacroArg {
    /// An ordered structure, read as a point.
    Table(PointArg),
    /// A number.
    Number(Number),
    /// Anything else.
    Other,
}

/// The mathematical content of a [`MacroArg`].
pub enum MacroArgView {
    Table(PointArgView),
    Number(NumberView),
    Other,
}

impl View for MacroArg {
    type V = MacroArgView;

    open spec fn view(&self) -> MacroArgView {
        match self {
            MacroArg::Table(p) => MacroArgView::Table(p@),
            MacroArg::Number(n) => MacroArgView::Number(n@),
            MacroArg::Other => MacroArgView::Other,
        }
    }
}

/// The views of a sequence of arguments.
pub open spec fn arg_views(args: Seq<MacroArg>) -> Seq<MacroArgView> {
    Seq::new(args.len(), |i: int| args[i]@)
}

/// The views of a sequence of points.
pub open spec fn point_views(points: Seq<PointArg>) -> Seq<PointArgView> {
    Seq::new(points.len(), |i: int| points[i]@)
}

impl MacroArgView {
    /// The argument as a number, with 0 for one that is none.
    pub open spec fn number_or_zero(self) -> NumberView {
        match self {
            MacroArgView::Number(n) => n,
            _ => NumberView::zero(),
        }
    }

    /// The argument as a well-formed point: the two coordinates of an
    /// ordered structure that holds a number at index 1 and at index 2, and
    /// nothing for any other argument.
    pub open spec fn point(self) -> Option<(NumberView, NumberView)> {
        match self {
            MacroArgView::Table(p) => match (p.x, p.y) {
                (Some(x), Some(y)) => Some((x, y)),
                _ => None,
            },
            _ => None,
        }
    }

    /// The argument as a number, and nothing for one that is none.
    pub open spec fn number(self) -> Option<NumberView> {
        match self {
            MacroArgView::Number(n) => Some(n),
            _ => None,
        }
    }
}

/// The number that stands at place `i` of `args`, with 0 where there is no
/// such argument or it is no number.
pub open spec fn number_at(args: Seq<MacroArgView>, i: int) -> NumberView {
    if 0 <= i < args.len() {
        args[i].number_or_zero()
    } else {
        NumberView::zero()
    }
}

/// Whether the arguments of `circle` are well-formed: at least two came, the
/// first is a point with both coordinates and the second is a number.
pub open spec fn is_circle(args: Seq<MacroArgView>) -> bool {
    args.len() >= 2 && args[0].point() is Some && args[1].number() is Some
}

/// Whether the arguments of `line` are well-formed: at least two came and
/// the first two are points with both coordinates.
pub open spec fn is_segment(args: Seq<MacroArgView>) -> bool {
    args.len() >= 2 && args[0].point() is Some && args[1].point() is Some
}

/// The log lines of a polyline: one per point, numbered from 1, and the
/// count at the end.
pub open spec fn polyline_lines(points: Seq<PointArgView>) -> Seq<Seq<char>> {
    Seq::new(
        points.len(),
        |i: int| polyline_point_message(i + 1, or_zero(points[i].x), or_zero(points[i].y)),
    ).push(polyline_total_message(points.len() as int))
}

impl EngineView {
    /// `setFace`.
    pub open spec fn adeko_set_face(self, face: Seq<char>) -> EngineView {
        EngineView { adeko: AdekoStateView { current_face: face, ..self.adeko }, ..self }.log(
            "Set face to: "@ + face,
        )
    }

    /// `setLayer`.
    pub open spec fn adeko_set_layer(self, layer: Seq<char>) -> EngineView {
        EngineView { adeko: AdekoStateView { current_layer: layer, ..self.adeko }, ..self }.log(
            "Set layer to: "@ + layer,
        )
    }

    /// `makePart`.
    pub open spec fn adeko_make_part(self, width: NumberView, height: NumberView) -> EngineView {
        EngineView {
            adeko: AdekoStateView { part_width: width, part_height: height, ..self.adeko },
            ..self
        }.log(part_message(width, height))
    }

    /// `setThickness`.
    pub open spec fn adeko_set_thickness(self, thickness: NumberView) -> EngineView {
        EngineView {
            adeko: AdekoStateView { current_thickness: thickness, ..self.adeko },
            ..self
        }.log(thickness_message(thickness))
    }

    /// `point`: a log line; no setting changes.
    pub open spec fn adeko_point(self, x: NumberView, y: NumberView) -> EngineView {
        self.log(point_message(x, y))
    }

    /// `pointSize`: a log line; no setting changes.
    pub open spec fn adeko_point_size(self, size: NumberView) -> EngineView {
        self.log(point_size_message(size))
    }

    /// `circle`: a log line for well-formed arguments; nothing at all for any
    /// others, be it a centre without one of its coordinates or a radius that
    /// is no number.
    pub open spec fn adeko_circle(self, args: Seq<MacroArgView>) -> EngineView {
        if is_circle(args) {
            let center = args[0].point()->Some_0;
            self.log(circle_message(center.0, center.1, args[1].number()->Some_0))
        } else {
            self
        }
    }

    /// `rectangle`: a log line from corner to corner.
    pub open spec fn adeko_rectangle(self, start: PointArgView, end: PointArgView) -> EngineView {
        self.log(corners_message(or_zero(start.x), or_zero(start.y), or_zero(end.x), or_zero(end.y)))
    }

    /// `line`: a log line for well-formed arguments, an arc where the third
    /// argument is a number other than zero and a straight line otherwise;
    /// nothing at all for any others, be it a point without one of its
    /// coordinates.
    pub open spec fn adeko_line(self, args: Seq<MacroArgView>) -> EngineView {
        if is_segment(args) {
            let start = args[0].point()->Some_0;
            let end = args[1].point()->Some_0;
            let bulge = number_at(args, 2);
            if bulge.is_zero() {
                self.log(line_message(start.0, start.1, end.0, end.1))
            } else {
                self.log(arc_message(start.0, start.1, end.0, end.1, bulge))
            }
        } else {
            self
        }
    }

    /// `polylineimp`: one log line per point, in order, and the count.
    pub open spec fn adeko_polylineimp(self, points: Seq<PointArgView>) -> EngineView {
        EngineView { output: self.output + polyline_lines(points), ..self }
    }
}

} // verus!
