//! The two pieces of state that builtins read and write: the turtle and the
//! CAD macro settings.

use vstd::prelude::*;
use vstd::string::*;
use crate::number::{Number, NumberView};

verus! {

/// The turtle: a cursor with a heading and a pen.
#[derive(Debug)]
pub struct TurtleState {
    pub x: Number,
    pub y: Number,
    /// Heading in degrees, 0 along the positive x axis; never wrapped.
    pub angle: Number,
    pub pen_down: bool,
    pub pen_color: String,
    pub pen_size: Number,
}

/// The mathematical content of a [`TurtleState`].
pub struct TurtleStateView {
    pub x: NumberView,
    pub y: NumberView,
    pub angle: NumberView,
    pub pen_down: bool,
    pub pen_color: Seq<char>,
    pub pen_size: NumberView,
}

impl View for TurtleState {
    type V = TurtleStateView;

    open spec fn view(&self) -> TurtleStateView {
        TurtleStateView {
            x: self.x@,
            y: self.y@,
            angle: self.angle@,
            pen_down: self.pen_down,
            pen_color: self.pen_color@,
            pen_size: self.pen_size@,
        }
    }
}

impl TurtleStateView {
    /// The turtle of a fresh engine: at the origin, heading 0, pen down,
    /// black ink, pen size 1.
    pub open spec fn initial() -> TurtleStateView {
        TurtleStateView {
            x: NumberView::zero(),
            y: NumberView::zero(),
            angle: NumberView::zero(),
            pen_down: true,
            pen_color: "black"@,
            pen_size: NumberView::one(),
        }
    }
}

impl Default for TurtleState {
    fn default() -> (r: Self)
        ensures
            r@ == TurtleStateView::initial(),
    {
        TurtleState {
            x: Number::zero(),
            y: Number::zero(),
            angle: Number::zero(),
            pen_down: true,
            pen_color: String::from_str("black"),
            pen_size: Number::one(),
        }
    }
}

impl Clone for TurtleState {
    fn clone(&self) -> (r: Self)
        ensures
            r == *self,
    {
        TurtleState {
            x: self.x.clone(),
            y: self.y.clone(),
            angle: self.angle.clone(),
            pen_down: self.pen_down,
            pen_color: self.pen_color.clone(),
            pen_size: self.pen_size.clone(),
        }
    }
}

/// The settings of the CAD macro namespace.
#[derive(Debug)]
pub struct AdekoState {
    pub current_face: String,
    pub current_layer: String,
    pub current_thickness: Number,
    pub show_points_enabled: bool,
    pub listing_enabled: bool,
    pub part_width: Number,
    pub part_height: Number,
}

/// The mathematical content of an [`AdekoState`].
pub struct AdekoStateView {
    pub current_face: Seq<char>,
    pub current_layer: Seq<char>,
    pub current_thickness: NumberView,
    pub show_points_enabled: bool,
    pub listing_enabled: bool,
    pub part_width: NumberView,
    pub part_height: NumberView,
}

impl View for AdekoState {
    type V = AdekoStateView;

    open spec fn view(&self) -> AdekoStateView {
        AdekoStateView {
            current_face: self.current_face@,
            current_layer: self.current_layer@,
            current_thickness: self.current_thickness@,
            show_points_enabled: self.show_points_enabled,
            listing_enabled: self.listing_enabled,
            part_width: self.part_width@,
            part_height: self.part_height@,
        }
    }
}

impl AdekoStateView {
    /// The settings of a fresh engine: face `top`, layer `default`, no
    /// thickness, no part.
    pub open spec fn initial() -> AdekoStateView {
        AdekoStateView {
            current_face: "top"@,
            current_layer: "default"@,
            current_thickness: NumberView::zero(),
            show_points_enabled: false,
            listing_enabled: false,
            part_width: NumberView::zero(),
            part_height: NumberView::zero(),
        }
    }
}

impl Default for AdekoState {
    fn default() -> (r: Self)
        ensures
            r@ == AdekoStateView::initial(),
    {
        AdekoState {
            current_face: String::from_str("top"),
            current_layer: String::from_str("default"),
            current_thickness: Number::zero(),
            show_points_enabled: false,
            listing_enabled: false,
            part_width: Number::zero(),
            part_height: Number::zero(),
        }
    }
}

impl Clone for AdekoState {
    fn clone(&self) -> (r: Self)
        ensures
            r == *self,
    {
        AdekoState {
            current_face: self.current_face.clone(),
            current_layer: self.current_layer.clone(),
            current_thickness: self.current_thickness.clone(),
            show_points_enabled: self.show_points_enabled,
            listing_enabled: self.listing_enabled,
            part_width: self.part_width.clone(),
            part_height: self.part_height.clone(),
        }
    }
}

} // verus!
