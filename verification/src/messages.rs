//! The wording of log lines, and the code that writes them.

use vstd::prelude::*;
use vstd::string::*;
use crate::number::{optional_value, Number, NumberView, ScriptValue, ScriptValueView};
use crate::text::{decimal, integer_to_string, unsigned_to_string};

verus! {

/// A point as log lines show it: `(x, y)`, both with two decimals.
pub open spec fn point_text(x: NumberView, y: NumberView) -> Seq<char> {
    "("@ + x.fixed + ", "@ + y.fixed + ")"@
}

/// `<lead>(x1, y1) to (x2, y2)`.
pub open spec fn span_text(
    lead: Seq<char>,
    x1: NumberView,
    y1: NumberView,
    x2: NumberView,
    y2: NumberView,
) -> Seq<char> {
    lead + point_text(x1, y1) + " to "@ + point_text(x2, y2)
}

/// The log line of a move with the pen down.
pub open spec fn drawing_message(
    x1: NumberView,
    y1: NumberView,
    x2: NumberView,
    y2: NumberView,
) -> Seq<char> {
    span_text("Drawing line from "@, x1, y1, x2, y2)
}

/// The log line of a move with the pen up.
pub open spec fn moving_message(
    x1: NumberView,
    y1: NumberView,
    x2: NumberView,
    y2: NumberView,
) -> Seq<char> {
    span_text("Moving from "@, x1, y1, x2, y2)
}

/// The log line of a turn by `degrees` that ends at heading `angle`.
pub open spec fn turn_message(degrees: NumberView, angle: NumberView) -> Seq<char> {
    "Turned "@ + degrees.fixed + " degrees, now facing "@ + angle.fixed + " degrees"@
}

/// The log line of `posn`.
pub open spec fn position_message(x: NumberView, y: NumberView) -> Seq<char> {
    "Position set to "@ + point_text(x, y)
}

/// The log line of `zero`.
pub open spec fn zero_message(x: NumberView, y: NumberView) -> Seq<char> {
    "Zero position set to "@ + point_text(x, y)
}

/// The log line of `pncl`.
pub open spec fn color_message(color: Seq<char>) -> Seq<char> {
    "Pen color set to: "@ + color
}

/// The log line of `pnsz`.
pub open spec fn size_message(size: NumberView) -> Seq<char> {
    "Pen size set to: "@ + size.plain
}

/// The text that `text` places: the printed form of its first argument, and
/// the empty text where the script gave none.
pub open spec fn placed_text(content: Option<ScriptValueView>) -> Seq<char> {
    match content {
        Some(v) => v.text(),
        None => Seq::empty(),
    }
}

/// The log line of `text`.
pub open spec fn text_message(x: NumberView, y: NumberView, content: Seq<char>) -> Seq<char> {
    "Text at "@ + point_text(x, y) + ": "@ + content
}

/// The window title that `open` uses where the script gives none.
pub open spec fn window_title(title: Option<Seq<char>>) -> Seq<char> {
    match title {
        Some(t) => t,
        None => "Turtle Graphics"@,
    }
}

/// The log line of `open`.
pub open spec fn open_message(title: Option<Seq<char>>) -> Seq<char> {
    "Turtle graphics window opened: "@ + window_title(title)
}

/// The log line of a circle.
pub open spec fn circle_message(x: NumberView, y: NumberView, radius: NumberView) -> Seq<char> {
    "Circle at "@ + point_text(x, y) + " with radius "@ + radius.fixed
}

/// The log line of a straight line between two points.
pub open spec fn line_message(
    x1: NumberView,
    y1: NumberView,
    x2: NumberView,
    y2: NumberView,
) -> Seq<char> {
    span_text("Line from "@, x1, y1, x2, y2)
}

/// The log line of `rect`.
pub open spec fn rect_message(
    x: NumberView,
    y: NumberView,
    width: NumberView,
    height: NumberView,
    radius: NumberView,
) -> Seq<char> {
    "Rectangle at "@ + point_text(x, y) + " size "@ + width.fixed + "x"@ + height.fixed
        + " radius "@ + radius.fixed
}

/// What `colr` returns: `rgb(r,g,b)`, the three parts in decimal.
pub open spec fn rgb_text(r: int, g: int, b: int) -> Seq<char> {
    "rgb("@ + decimal(r) + ","@ + decimal(g) + ","@ + decimal(b) + ")"@
}

/// The log line of `makePart`.
pub open spec fn part_message(width: NumberView, height: NumberView) -> Seq<char> {
    "Created part: "@ + width.fixed + " x "@ + height.fixed
}

/// The log line of `setThickness`.
pub open spec fn thickness_message(thickness: NumberView) -> Seq<char> {
    "Set thickness to: "@ + thickness.plain
}

/// The log line of the macro `point`.
pub open spec fn point_message(x: NumberView, y: NumberView) -> Seq<char> {
    "Point at "@ + point_text(x, y)
}

/// The log line of `pointSize`.
pub open spec fn point_size_message(size: NumberView) -> Seq<char> {
    "Point size set to: "@ + size.plain
}

/// The log line of the macro `rectangle`.
pub open spec fn corners_message(
    x1: NumberView,
    y1: NumberView,
    x2: NumberView,
    y2: NumberView,
) -> Seq<char> {
    span_text("Rectangle from "@, x1, y1, x2, y2)
}

/// The log line of a macro `line` with a bulge.
pub open spec fn arc_message(
    x1: NumberView,
    y1: NumberView,
    x2: NumberView,
    y2: NumberView,
    bulge: NumberView,
) -> Seq<char> {
    span_text("Arc from "@, x1, y1, x2, y2) + " with bulge "@ + bulge.fixed
}

/// The log line of the point at place `index` of a polyline, counted from 1.
pub open spec fn polyline_point_message(index: int, x: NumberView, y: NumberView) -> Seq<char> {
    "  Point "@ + decimal(index) + ": "@ + point_text(x, y)
}

/// The closing log line of a polyline of `count` points.
pub open spec fn polyline_total_message(count: int) -> Seq<char> {
    "Polyline with "@ + decimal(count) + " points"@
}

/// Appends `(x, y)` to `s`.
pub(crate) fn push_point(s: &mut String, x: &Number, y: &Number)
    ensures
        final(s)@ == old(s)@ + point_text(x@, y@),
{
    s.append("(");
    s.append(x.fixed.as_str());
    s.append(", ");
    s.append(y.fixed.as_str());
    s.append(")");
}

/// Writes `<lead>(x1, y1) to (x2, y2)`.
pub(crate) fn write_span(lead: &str, x1: &Number, y1: &Number, x2: &Number, y2: &Number) -> (r:
    String)
    ensures
        r@ == span_text(lead@, x1@, y1@, x2@, y2@),
{
    let mut s = String::from_str(lead);
    push_point(&mut s, x1, y1);
    s.append(" to ");
    push_point(&mut s, x2, y2);
    s
}

/// Writes `<lead>(x, y)`.
pub(crate) fn write_at(lead: &str, x: &Number, y: &Number) -> (r: String)
    ensures
        r@ == lead@ + point_text(x@, y@),
{
    let mut s = String::from_str(lead);
    push_point(&mut s, x, y);
    s
}

/// Writes `<lead><tail>`.
pub(crate) fn write_pair(lead: &str, tail: &str) -> (r: String)
    ensures
        r@ == lead@ + tail@,
{
    let mut s = String::from_str(lead);
    s.append(tail);
    s
}

/// Writes the log line of a turn.
pub(crate) fn write_turn(degrees: &Number, angle: &Number) -> (r: String)
    ensures
        r@ == turn_message(degrees@, angle@),
{
    let mut s = String::from_str("Turned ");
    s.append(degrees.fixed.as_str());
    s.append(" degrees, now facing ");
    s.append(angle.fixed.as_str());
    s.append(" degrees");
    s
}

/// Writes the text that `text` places.
pub(crate) fn write_placed_text(content: Option<&ScriptValue>) -> (r: String)
    ensures
        r@ == placed_text(optional_value(content)),
{
    match content {
        Some(v) => v.to_text(),
        None => String::new(),
    }
}

/// Writes the log line of `text`.
pub(crate) fn write_text(x: &Number, y: &Number, content: &str) -> (r: String)
    ensures
        r@ == text_message(x@, y@, content@),
{
    let mut s = write_at("Text at ", x, y);
    s.append(": ");
    s.append(content);
    s
}

/// Writes the log line of a circle.
pub(crate) fn write_circle(x: &Number, y: &Number, radius: &Number) -> (r: String)
    ensures
        r@ == circle_message(x@, y@, radius@),
{
    let mut s = write_at("Circle at ", x, y);
    s.append(" with radius ");
    s.append(radius.fixed.as_str());
    s
}

/// Writes the log line of `rect`.
pub(crate) fn write_rect(x: &Number, y: &Number, width: &Number, height: &Number, radius: &Number) -> (r:
    String)
    ensures
        r@ == rect_message(x@, y@, width@, height@, radius@),
{
    let mut s = write_at("Rectangle at ", x, y);
    s.append(" size ");
    s.append(width.fixed.as_str());
    s.append("x");
    s.append(height.fixed.as_str());
    s.append(" radius ");
    s.append(radius.fixed.as_str());
    s
}

/// Writes `rgb(r,g,b)`.
pub(crate) fn write_rgb(r: i32, g: i32, b: i32) -> (out: String)
    ensures
        out@ == rgb_text(r as int, g as int, b as int),
{
    let mut s = String::from_str("rgb(");
    s.append(integer_to_string(r as i64).as_str());
    s.append(",");
    s.append(integer_to_string(g as i64).as_str());
    s.append(",");
    s.append(integer_to_string(b as i64).as_str());
    s.append(")");
    s
}

/// Writes the log line of `makePart`.
pub(crate) fn write_part(width: &Number, height: &Number) -> (r: String)
    ensures
        r@ == part_message(width@, height@),
{
    let mut s = String::from_str("Created part: ");
    s.append(width.fixed.as_str());
    s.append(" x ");
    s.append(height.fixed.as_str());
    s
}

/// Writes the log line of a macro `line` with a bulge.
pub(crate) fn write_arc(x1: &Number, y1: &Number, x2: &Number, y2: &Number, bulge: &Number) -> (r:
    String)
    ensures
        r@ == arc_message(x1@, y1@, x2@, y2@, bulge@),
{
    let mut s = write_span("Arc from ", x1, y1, x2, y2);
    s.append(" with bulge ");
    s.append(bulge.fixed.as_str());
    s
}

/// Writes the log line of one point of a polyline.
pub(crate) fn write_polyline_point(index: u64, x: &Number, y: &Number) -> (r: String)
    ensures
        r@ == polyline_point_message(index as int, x@, y@),
{
    let mut s = String::from_str("  Point ");
    s.append(unsigned_to_string(index).as_str());
    s.append(": ");
    push_point(&mut s, x, y);
    s
}

/// Writes the closing log line of a polyline.
pub(crate) fn write_polyline_total(count: u64) -> (r: String)
    ensures
        r@ == polyline_total_message(count as int),
{
    let mut s = String::from_str("Polyline with ");
    s.append(unsigned_to_string(count).as_str());
    s.append(" points");
    s
}

} // verus!
