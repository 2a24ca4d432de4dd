//! The functions of the CAD macro namespace.

use vstd::prelude::*;
use vstd::string::*;
use crate::engine::NativeLuaEngine;
use crate::macros::{arg_views, number_at, point_views, polyline_lines, MacroArg, PointArg};
use crate::messages::{
    polyline_point_message, write_arc, write_at, write_circle, write_pair, write_part,
    write_polyline_point, write_polyline_total, write_span,
};
use crate::model::EngineView;
use crate::number::{optional_number, or_zero, Number};

verus! {

/// The coordinate, or 0 where it is missing.
fn coordinate(c: &Option<Number>) -> (r: Number)
    ensures
        r@ == or_zero(optional_number(*c)),
{
    match c {
        Some(v) => v.clone(),
        None => Number::zero(),
    }
}

/// The argument as a well-formed point.
fn point_of(arg: &MacroArg) -> (r: Option<(Number, Number)>)
    ensures
        match r {
            Some(p) => arg@.point() == Some((p.0@, p.1@)),
            None => arg@.point() is None,
        },
{
    match arg {
        MacroArg::Table(p) => match (&p.x, &p.y) {
            (Some(x), Some(y)) => Some((x.clone(), y.clone())),
            _ => None,
        },
        _ => None,
    }
}

/// The argument as a number.
fn number_of(arg: &MacroArg) -> (r: Option<Number>)
    ensures
        optional_number(r) == arg@.number(),
{
    match arg {
        MacroArg::Number(n) => Some(n.clone()),
        _ => None,
    }
}

/// The argument at place `i` as a number, or 0.
fn numeric_argument(args: &Vec<MacroArg>, i: usize) -> (r: Number)
    ensures
        r@ == number_at(arg_views(args@), i as int),
{
    if i < args.len() {
        match &args[i] {
            MacroArg::Number(n) => n.clone(),
            _ => Number::zero(),
        }
    } else {
        Number::zero()
    }
}

impl NativeLuaEngine {
    /// `setFace(name)`: names the face that is worked on.
    pub fn adeko_set_face(&mut self, face: &str)
        ensures
            final(self)@ == old(self)@.adeko_set_face(face@),
    {
        self.adeko_state.current_face = String::from_str(face);
        self.log(write_pair("Set face to: ", face));
    }

    /// `setLayer(name)`: names the layer that is worked on.
    pub fn adeko_set_layer(&mut self, layer: &str)
        ensures
            final(self)@ == old(self)@.adeko_set_layer(layer@),
    {
        self.adeko_state.current_layer = String::from_str(layer);
        self.log(write_pair("Set layer to: ", layer));
    }

    /// `makePart(width, height)`: sets the size of the part.
    pub fn adeko_make_part(&mut self, width: Number, height: Number)
        ensures
            final(self)@ == old(self)@.adeko_make_part(width@, height@),
    {
        let line = write_part(&width, &height);
        self.adeko_state.part_width = width;
        self.adeko_state.part_height = height;
        self.log(line);
    }

    /// `setThickness(value)`: sets the thickness of the material.
    pub fn adeko_set_thickness(&mut self, thickness: Number)
        ensures
            final(self)@ == old(self)@.adeko_set_thickness(thickness@),
    {
        let line = write_pair("Set thickness to: ", thickness.plain.as_str());
        self.adeko_state.current_thickness = thickness;
        self.log(line);
    }

    /// `point(x, y)`: logs the point. Nothing is set and nothing is drawn.
    pub fn adeko_point(&mut self, x: Number, y: Number)
        ensures
            final(self)@ == old(self)@.adeko_point(x@, y@),
    {
        self.log(write_at("Point at ", &x, &y));
    }

    /// `pointSize(size)`: logs the size. Nothing is set and nothing is drawn.
    pub fn adeko_point_size(&mut self, size: Number)
        ensures
            final(self)@ == old(self)@.adeko_point_size(size@),
    {
        self.log(write_pair("Point size set to: ", size.plain.as_str()));
    }

    /// `circle(center, radius)`: logs the circle where the script gave at
    /// least two arguments, the first is a point that holds both of its
    /// coordinates and the second is a number. For any other arguments it
    /// does nothing: no log line, no error.
    pub fn adeko_circle(&mut self, args: &Vec<MacroArg>)
        ensures
            final(self)@ == old(self)@.adeko_circle(arg_views(args@)),
    {
        if args.len() >= 2 {
            match (point_of(&args[0]), number_of(&args[1])) {
                (Some(center), Some(radius)) => {
                    self.log(write_circle(&center.0, &center.1, &radius));
                },
                _ => {},
            }
        }
    }

    /// `rectangle(start, end)`: logs the rectangle between two corners, with 0
    /// for a missing coordinate.
    pub fn adeko_rectangle(&mut self, start: &PointArg, end: &PointArg)
        ensures
            final(self)@ == old(self)@.adeko_rectangle(start@, end@),
    {
        let x1 = coordinate(&start.x);
        let y1 = coordinate(&start.y);
        let x2 = coordinate(&end.x);
        let y2 = coordinate(&end.y);
        self.log(write_span("Rectangle from ", &x1, &y1, &x2, &y2));
    }

    /// `line(start, end, bulge?)`: logs the segment between two points where
    /// the script gave at least two arguments and the first two are points
    /// that hold both of their coordinates: as an arc where the third is a
    /// number other than zero, as a straight line otherwise. For any other
    /// arguments it does nothing: no log line, no error.
    pub fn adeko_line(&mut self, args: &Vec<MacroArg>)
        ensures
            final(self)@ == old(self)@.adeko_line(arg_views(args@)),
    {
        if args.len() >= 2 {
            match (point_of(&args[0]), point_of(&args[1])) {
                (Some(start), Some(end)) => {
                    let bulge = numeric_argument(args, 2);
                    if bulge.is_zero() {
                        self.log(write_span("Line from ", &start.0, &start.1, &end.0, &end.1));
                    } else {
                        self.log(write_arc(&start.0, &start.1, &end.0, &end.1, &bulge));
                    }
                },
                _ => {},
            }
        }
    }

    /// `polylineimp(points)`: logs each point in order, numbered from 1 and
    /// with 0 for a missing coordinate, and then how many there were.
    pub fn adeko_polylineimp(&mut self, points: &Vec<PointArg>)
        ensures
            final(self)@ == old(self)@.adeko_polylineimp(point_views(points@)),
    {
        let ghost start = self@;
        let ghost all = point_views(points@);
        let mut i: usize = 0;
        while i < points.len()
            invariant
                i <= points.len(),
                all == point_views(points@),
                self@ == (EngineView {
                    output: start.output + Seq::new(
                        i as nat,
                        |k: int| polyline_point_message(k + 1, or_zero(all[k].x), or_zero(all[k].y)),
                    ),
                    ..start
                }),
            decreases points.len() - i,
        {
            let x = coordinate(&points[i].x);
            let y = coordinate(&points[i].y);
            let ghost before = self@;
            self.log(write_polyline_point(i as u64 + 1, &x, &y));
            proof {
                let f = |k: int| polyline_point_message(k + 1, or_zero(all[k].x), or_zero(all[k].y));
                assert(self@.output =~= start.output + Seq::new((i + 1) as nat, f));
            }
            i = i + 1;
        }
        self.log(write_polyline_total(points.len() as u64));
        proof {
            assert(self@.output =~= start.output + polyline_lines(all));
        }
    }
}

} // verus!
