use lua_engine::{MacroArg, NativeLuaEngine, Number, PointArg};

fn num(v: f64) -> Number {
    Number::new(v.to_bits(), format!("{:.2}", v), format!("{}", v))
}

fn value(n: &Number) -> f64 {
    f64::from_bits(n.bits)
}

fn point(x: f64, y: f64) -> PointArg {
    PointArg { x: Some(num(x)), y: Some(num(y)) }
}

#[test]
fn fresh_engine_has_default_macro_settings() {
    let e = NativeLuaEngine::new();
    let a = e.adeko_state();
    assert_eq!(a.current_face, "top");
    assert_eq!(a.current_layer, "default");
    assert_eq!(value(&a.current_thickness), 0.0);
    assert!(!a.show_points_enabled);
    assert!(!a.listing_enabled);
    assert_eq!(value(&a.part_width), 0.0);
    assert_eq!(value(&a.part_height), 0.0);
}

#[test]
fn setters_change_the_settings_and_log() {
    let mut e = NativeLuaEngine::new();
    e.adeko_set_face("bottom");
    e.adeko_set_layer("CUT");
    e.adeko_set_thickness(num(18.0));
    e.adeko_make_part(num(600.0), num(400.5));
    let a = e.adeko_state();
    assert_eq!(a.current_face, "bottom");
    assert_eq!(a.current_layer, "CUT");
    assert_eq!(value(&a.current_thickness), 18.0);
    assert_eq!(value(&a.part_width), 600.0);
    assert_eq!(value(&a.part_height), 400.5);
    assert_eq!(
        e.output().clone(),
        vec![
            "Set face to: bottom".to_string(),
            "Set layer to: CUT".to_string(),
            "Set thickness to: 18".to_string(),
            "Created part: 600.00 x 400.50".to_string(),
        ]
    );
    assert!(e.draw_commands().is_empty());
}

#[test]
fn point_and_point_size_only_log() {
    let mut e = NativeLuaEngine::new();
    e.adeko_point(num(1.0), num(2.0));
    e.adeko_point_size(num(3.5));
    assert_eq!(e.output()[0], "Point at (1.00, 2.00)");
    assert_eq!(e.output()[1], "Point size set to: 3.5");
    assert!(e.draw_commands().is_empty());
    assert_eq!(value(&e.turtle_state().x), 0.0);
    assert_eq!(value(&e.turtle_state().pen_size), 1.0);
    assert_eq!(e.adeko_state().current_face, "top");
}

#[test]
fn macro_circle_logs_for_a_point_and_a_radius() {
    let mut e = NativeLuaEngine::new();
    e.adeko_circle(&vec![MacroArg::Table(point(10.0, 20.0)), MacroArg::Number(num(5.0))]);
    assert_eq!(e.output().len(), 1);
    assert_eq!(e.output()[0], "Circle at (10.00, 20.00) with radius 5.00");
    assert!(e.draw_commands().is_empty());
}

#[test]
fn macro_circle_is_silent_without_a_coordinate_or_a_radius() {
    let mut e = NativeLuaEngine::new();
    e.adeko_circle(&vec![MacroArg::Table(PointArg { x: None, y: Some(num(2.0)) }), MacroArg::Number(num(1.0))]);
    e.adeko_circle(&vec![MacroArg::Table(PointArg { x: Some(num(2.0)), y: None }), MacroArg::Number(num(1.0))]);
    e.adeko_circle(&vec![MacroArg::Table(PointArg { x: None, y: None }), MacroArg::Other]);
    e.adeko_circle(&vec![MacroArg::Table(point(1.0, 2.0)), MacroArg::Other]);
    e.adeko_circle(&vec![MacroArg::Table(point(1.0, 2.0)), MacroArg::Table(point(1.0, 2.0))]);
    assert!(e.output().is_empty());
    assert!(e.draw_commands().is_empty());
    assert_eq!(e.adeko_state().current_face, "top");
}

#[test]
fn macro_circle_takes_further_arguments_as_they_come() {
    let mut e = NativeLuaEngine::new();
    e.adeko_circle(&vec![MacroArg::Table(point(1.0, 2.0)), MacroArg::Number(num(0.0)), MacroArg::Other]);
    assert_eq!(e.output().len(), 1);
    assert_eq!(e.output()[0], "Circle at (1.00, 2.00) with radius 0.00");
}

#[test]
fn macro_circle_ignores_malformed_arguments() {
    let mut e = NativeLuaEngine::new();
    e.adeko_circle(&vec![]);
    e.adeko_circle(&vec![MacroArg::Table(point(1.0, 1.0))]);
    e.adeko_circle(&vec![MacroArg::Number(num(1.0)), MacroArg::Number(num(2.0))]);
    e.adeko_circle(&vec![MacroArg::Other, MacroArg::Table(point(1.0, 1.0))]);
    assert!(e.output().is_empty());
    assert!(e.draw_commands().is_empty());
}

#[test]
fn macro_rectangle_logs_corner_to_corner() {
    let mut e = NativeLuaEngine::new();
    e.adeko_rectangle(&point(0.0, 0.0), &point(100.0, 50.25));
    e.adeko_rectangle(&PointArg { x: None, y: None }, &PointArg { x: Some(num(1.0)), y: None });
    assert_eq!(e.output()[0], "Rectangle from (0.00, 0.00) to (100.00, 50.25)");
    assert_eq!(e.output()[1], "Rectangle from (0.00, 0.00) to (1.00, 0.00)");
    assert!(e.draw_commands().is_empty());
}

#[test]
fn macro_line_is_an_arc_only_with_a_bulge_other_than_zero() {
    let mut e = NativeLuaEngine::new();
    let ends = || vec![MacroArg::Table(point(0.0, 0.0)), MacroArg::Table(point(10.0, 0.0))];
    e.adeko_line(&ends());
    let mut with_bulge = ends();
    with_bulge.push(MacroArg::Number(num(0.5)));
    e.adeko_line(&with_bulge);
    let mut with_zero = ends();
    with_zero.push(MacroArg::Number(num(0.0)));
    e.adeko_line(&with_zero);
    let mut with_negative_zero = ends();
    with_negative_zero.push(MacroArg::Number(num(-0.0)));
    e.adeko_line(&with_negative_zero);
    let mut with_text = ends();
    with_text.push(MacroArg::Other);
    e.adeko_line(&with_text);
    let mut with_nan = ends();
    with_nan.push(MacroArg::Number(num(f64::NAN)));
    e.adeko_line(&with_nan);
    assert_eq!(
        e.output().clone(),
        vec![
            "Line from (0.00, 0.00) to (10.00, 0.00)".to_string(),
            "Arc from (0.00, 0.00) to (10.00, 0.00) with bulge 0.50".to_string(),
            "Line from (0.00, 0.00) to (10.00, 0.00)".to_string(),
            "Line from (0.00, 0.00) to (10.00, 0.00)".to_string(),
            "Line from (0.00, 0.00) to (10.00, 0.00)".to_string(),
            "Arc from (0.00, 0.00) to (10.00, 0.00) with bulge NaN".to_string(),
        ]
    );
    assert!(e.draw_commands().is_empty());
}

#[test]
fn macro_line_ignores_malformed_arguments() {
    let mut e = NativeLuaEngine::new();
    e.adeko_line(&vec![MacroArg::Table(point(0.0, 0.0))]);
    e.adeko_line(&vec![MacroArg::Table(point(0.0, 0.0)), MacroArg::Number(num(1.0))]);
    e.adeko_line(&vec![MacroArg::Other, MacroArg::Table(point(0.0, 0.0))]);
    assert!(e.output().is_empty());
}

#[test]
fn macro_line_is_silent_for_a_point_without_a_coordinate() {
    let mut e = NativeLuaEngine::new();
    let empty = || MacroArg::Table(PointArg { x: None, y: None });
    e.adeko_line(&vec![empty(), empty()]);
    e.adeko_line(&vec![MacroArg::Table(point(0.0, 0.0)), MacroArg::Table(PointArg { x: Some(num(1.0)), y: None })]);
    e.adeko_line(&vec![MacroArg::Table(PointArg { x: None, y: Some(num(1.0)) }), MacroArg::Table(point(0.0, 0.0)), MacroArg::Number(num(1.0))]);
    assert!(e.output().is_empty());
    assert!(e.draw_commands().is_empty());
}

#[test]
fn polyline_logs_each_point_and_the_count() {
    let mut e = NativeLuaEngine::new();
    e.adeko_polylineimp(&vec![point(0.0, 0.0), point(10.0, 0.0), PointArg { x: Some(num(10.0)), y: None }]);
    assert_eq!(
        e.output().clone(),
        vec![
            "  Point 1: (0.00, 0.00)".to_string(),
            "  Point 2: (10.00, 0.00)".to_string(),
            "  Point 3: (10.00, 0.00)".to_string(),
            "Polyline with 3 points".to_string(),
        ]
    );
    e.adeko_polylineimp(&vec![]);
    assert_eq!(e.output()[4], "Polyline with 0 points");
    assert!(e.draw_commands().is_empty());
}

#[test]
fn polyline_numbers_past_nine_in_decimal() {
    let mut e = NativeLuaEngine::new();
    let points: Vec<PointArg> = (0..12).map(|i| point(i as f64, 0.0)).collect();
    e.adeko_polylineimp(&points);
    assert_eq!(e.output().len(), 13);
    assert_eq!(e.output()[9], "  Point 10: (9.00, 0.00)");
    assert_eq!(e.output()[11], "  Point 12: (11.00, 0.00)");
    assert_eq!(e.output()[12], "Polyline with 12 points");
}

#[test]
fn macro_calls_leave_turtle_and_drawing_log_alone() {
    let mut e = NativeLuaEngine::new();
    e.posn(num(3.0), num(4.0));
    e.line(num(0.0), num(0.0), num(1.0), num(1.0));
    e.adeko_set_face("left");
    e.adeko_make_part(num(1.0), num(2.0));
    e.adeko_circle(&vec![MacroArg::Table(point(1.0, 1.0)), MacroArg::Number(num(1.0))]);
    e.adeko_polylineimp(&vec![point(1.0, 1.0)]);
    assert_eq!(e.draw_commands().len(), 1);
    assert_eq!(value(&e.turtle_state().x), 3.0);
    assert_eq!(value(&e.turtle_state().y), 4.0);
    e.wipe();
    assert_eq!(e.adeko_state().current_face, "left");
    assert_eq!(value(&e.adeko_state().part_height), 2.0);
}
