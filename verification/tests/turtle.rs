use lua_engine::{CommandKind, DrawCommand, NativeLuaEngine, Number, ScriptValue};

fn num(v: f64) -> Number {
    Number::new(v.to_bits(), format!("{:.2}", v), format!("{}", v))
}

fn value(n: &Number) -> f64 {
    f64::from_bits(n.bits)
}

fn assert_command(c: &DrawCommand, kind: CommandKind, coords: [f64; 5], color: &str, size: f64, text: &str) {
    assert_eq!(c.kind, kind);
    assert_eq!(value(&c.x1), coords[0]);
    assert_eq!(value(&c.y1), coords[1]);
    assert_eq!(value(&c.x2), coords[2]);
    assert_eq!(value(&c.y2), coords[3]);
    assert_eq!(value(&c.radius), coords[4]);
    assert_eq!(c.color, color);
    assert_eq!(value(&c.size), size);
    assert_eq!(c.text, text);
}

#[test]
fn fresh_engine_has_default_turtle_and_empty_logs() {
    let e = NativeLuaEngine::new();
    let t = e.turtle_state();
    assert_eq!(value(&t.x), 0.0);
    assert_eq!(value(&t.y), 0.0);
    assert_eq!(value(&t.angle), 0.0);
    assert!(t.pen_down);
    assert_eq!(t.pen_color, "black");
    assert_eq!(value(&t.pen_size), 1.0);
    assert_eq!(t.pen_size.fixed, "1.00");
    assert_eq!(t.pen_size.plain, "1");
    assert!(e.output().is_empty());
    assert!(e.draw_commands().is_empty());
    assert!(e.lua_library_path().is_none());
}

#[test]
fn move_with_pen_down_draws_a_line_and_moves() {
    let mut e = NativeLuaEngine::new();
    e.move_to(num(10.0), num(0.0));
    assert_eq!(e.output().len(), 1);
    assert_eq!(e.output()[0], "Drawing line from (0.00, 0.00) to (10.00, 0.00)");
    assert_eq!(e.draw_commands().len(), 1);
    assert_command(&e.draw_commands()[0], CommandKind::Line, [0.0, 0.0, 10.0, 0.0, 0.0], "black", 1.0, "");
    assert_eq!(value(&e.turtle_state().x), 10.0);
    assert_eq!(value(&e.turtle_state().y), 0.0);
}

#[test]
fn move_with_pen_up_only_logs_and_moves() {
    let mut e = NativeLuaEngine::new();
    e.pnup();
    e.move_to(num(3.5), num(-2.25));
    assert_eq!(e.output().len(), 2);
    assert_eq!(e.output()[0], "Pen up");
    assert_eq!(e.output()[1], "Moving from (0.00, 0.00) to (3.50, -2.25)");
    assert!(e.draw_commands().is_empty());
    assert_eq!(value(&e.turtle_state().x), 3.5);
    assert_eq!(value(&e.turtle_state().y), -2.25);
    assert!(!e.turtle_state().pen_down);
}

#[test]
fn chained_moves_connect_end_to_start() {
    let mut e = NativeLuaEngine::new();
    let mut heading: f64 = 0.0;
    let mut x: f64 = 0.0;
    let mut y: f64 = 0.0;
    let steps: [(f64, f64); 4] = [(10.0, 90.0), (5.0, 45.0), (2.5, -30.0), (7.0, 400.0)];
    let mut corners: Vec<(f64, f64)> = vec![(x, y)];
    for (distance, degrees) in steps {
        x += distance * heading.to_radians().cos();
        y += distance * heading.to_radians().sin();
        e.move_to(num(x), num(y));
        corners.push((x, y));
        heading += degrees;
        e.turn(num(degrees), num(heading));
    }
    let commands = e.draw_commands();
    assert_eq!(commands.len(), 4);
    for (i, c) in commands.iter().enumerate() {
        assert_eq!(c.kind, CommandKind::Line);
        assert_eq!((value(&c.x1), value(&c.y1)), corners[i]);
        assert_eq!((value(&c.x2), value(&c.y2)), corners[i + 1]);
    }
    assert_eq!(value(&e.turtle_state().angle), 505.0);
    assert_eq!(e.output()[1], "Turned 90.00 degrees, now facing 90.00 degrees");
    assert_eq!(e.output()[7], "Turned 400.00 degrees, now facing 505.00 degrees");
}

#[test]
fn pen_down_and_up_log_fixed_lines() {
    let mut e = NativeLuaEngine::new();
    e.pnup();
    assert!(!e.turtle_state().pen_down);
    e.pndn();
    assert!(e.turtle_state().pen_down);
    assert_eq!(e.output().len(), 2);
    assert_eq!(e.output()[0], "Pen up");
    assert_eq!(e.output()[1], "Pen down");
}

#[test]
fn posn_teleports_without_drawing() {
    let mut e = NativeLuaEngine::new();
    e.posn(num(12.0), num(34.5));
    assert_eq!(value(&e.turtle_state().x), 12.0);
    assert_eq!(value(&e.turtle_state().y), 34.5);
    assert_eq!(e.output().len(), 1);
    assert_eq!(e.output()[0], "Position set to (12.00, 34.50)");
    assert!(e.draw_commands().is_empty());
}

#[test]
fn zero_defaults_each_coordinate_on_its_own() {
    let mut e = NativeLuaEngine::new();
    e.posn(num(9.0), num(9.0));
    e.zero(None, None);
    assert_eq!(value(&e.turtle_state().x), 0.0);
    assert_eq!(value(&e.turtle_state().y), 0.0);
    e.zero(Some(num(4.0)), None);
    assert_eq!(value(&e.turtle_state().x), 4.0);
    assert_eq!(value(&e.turtle_state().y), 0.0);
    e.zero(None, Some(num(6.0)));
    assert_eq!(value(&e.turtle_state().x), 0.0);
    assert_eq!(value(&e.turtle_state().y), 6.0);
    e.zero(Some(num(1.0)), Some(num(2.0)));
    assert_eq!(e.output()[1], "Zero position set to (0.00, 0.00)");
    assert_eq!(e.output()[2], "Zero position set to (4.00, 0.00)");
    assert_eq!(e.output()[3], "Zero position set to (0.00, 6.00)");
    assert_eq!(e.output()[4], "Zero position set to (1.00, 2.00)");
    assert!(e.draw_commands().is_empty());
}

#[test]
fn pen_colour_and_size_style_later_commands() {
    let mut e = NativeLuaEngine::new();
    e.pncl("red");
    e.pnsz(num(2.5));
    assert_eq!(e.turtle_state().pen_color, "red");
    assert_eq!(value(&e.turtle_state().pen_size), 2.5);
    assert_eq!(e.output()[0], "Pen color set to: red");
    assert_eq!(e.output()[1], "Pen size set to: 2.5");
    e.crcl(num(1.0), num(2.0), num(3.0));
    assert_eq!(e.output()[2], "Circle at (1.00, 2.00) with radius 3.00");
    assert_command(&e.draw_commands()[0], CommandKind::Circle, [1.0, 2.0, 0.0, 0.0, 3.0], "red", 2.5, "");
    assert_eq!(value(&e.turtle_state().x), 0.0);
}

#[test]
fn wipe_resets_the_turtle_and_keeps_the_logs() {
    let mut e = NativeLuaEngine::new();
    e.posn(num(5.0), num(6.0));
    e.turn(num(30.0), num(30.0));
    e.pnup();
    e.pncl("blue");
    e.pnsz(num(4.0));
    e.line(num(0.0), num(0.0), num(1.0), num(1.0));
    let lines_before = e.output().len();
    e.wipe();
    let t = e.turtle_state();
    assert_eq!(value(&t.x), 0.0);
    assert_eq!(value(&t.y), 0.0);
    assert_eq!(value(&t.angle), 0.0);
    assert!(t.pen_down);
    assert_eq!(t.pen_color, "black");
    assert_eq!(value(&t.pen_size), 1.0);
    assert_eq!(e.output().len(), lines_before + 1);
    assert_eq!(e.output()[lines_before], "Screen cleared");
    assert_eq!(e.output()[0], "Position set to (5.00, 6.00)");
    assert_eq!(e.draw_commands().len(), 1);
    assert_command(&e.draw_commands()[0], CommandKind::Line, [0.0, 0.0, 1.0, 1.0, 0.0], "blue", 4.0, "");
}

#[test]
fn text_is_placed_at_the_cursor_plus_the_offset() {
    let mut e = NativeLuaEngine::new();
    e.posn(num(1.0), num(1.0));
    let (dx, dy) = (3.0, 4.0);
    let x = value(&e.turtle_state().x) + dx;
    let y = value(&e.turtle_state().y) + dy;
    e.text(Some(&ScriptValue::Text("hi".to_string())), num(x), num(y));
    assert_eq!(e.draw_commands().len(), 1);
    let c = &e.draw_commands()[0];
    assert_command(c, CommandKind::Text, [4.0, 5.0, 0.0, 0.0, 0.0], "black", 1.0, "hi");
    assert_eq!(c.command_type(), "text");
    assert_eq!(e.output()[1], "Text at (4.00, 5.00): hi");
    assert_eq!(value(&e.turtle_state().x), 1.0);
    assert_eq!(value(&e.turtle_state().y), 1.0);
}

#[test]
fn text_prints_each_kind_of_value() {
    let mut e = NativeLuaEngine::new();
    e.text(Some(&ScriptValue::Nil), num(0.0), num(0.0));
    e.text(Some(&ScriptValue::Boolean(true)), num(0.0), num(0.0));
    e.text(Some(&ScriptValue::Boolean(false)), num(0.0), num(0.0));
    e.text(Some(&ScriptValue::Integer(-42)), num(0.0), num(0.0));
    e.text(Some(&ScriptValue::Number(num(1.5))), num(0.0), num(0.0));
    e.text(Some(&ScriptValue::Other("Table(Ref(0x1))".to_string())), num(0.0), num(0.0));
    e.text(None, num(0.0), num(0.0));
    let texts: Vec<&str> = e.draw_commands().iter().map(|c| c.text.as_str()).collect();
    assert_eq!(texts, vec!["nil", "true", "false", "-42", "1.5", "Table(Ref(0x1))", ""]);
    assert_eq!(e.output()[0], "Text at (0.00, 0.00): nil");
    assert_eq!(e.output()[6], "Text at (0.00, 0.00): ");
}

#[test]
fn open_logs_the_title_or_the_default() {
    let mut e = NativeLuaEngine::new();
    e.open(None);
    e.open(Some("Parts"));
    assert_eq!(e.output()[0], "Turtle graphics window opened: Turtle Graphics");
    assert_eq!(e.output()[1], "Turtle graphics window opened: Parts");
    assert!(e.draw_commands().is_empty());
}

#[test]
fn line_is_absolute_and_leaves_the_cursor() {
    let mut e = NativeLuaEngine::new();
    e.posn(num(50.0), num(50.0));
    e.line(num(1.0), num(2.0), num(3.0), num(4.0));
    assert_command(&e.draw_commands()[0], CommandKind::Line, [1.0, 2.0, 3.0, 4.0, 0.0], "black", 1.0, "");
    assert_eq!(e.output()[1], "Line from (1.00, 2.00) to (3.00, 4.00)");
    assert_eq!(value(&e.turtle_state().x), 50.0);
    assert_eq!(value(&e.turtle_state().y), 50.0);
}

#[test]
fn rect_emits_a_rectangle_to_the_far_corner() {
    let mut e = NativeLuaEngine::new();
    let (x, y, w, h, r) = (0.0, 0.0, 10.0, 5.0, 2.0);
    e.rect(Some(num(x)), Some(num(y)), Some(num(w)), Some(num(h)), Some(num(r)), num(x + w), num(y + h));
    assert_eq!(e.draw_commands().len(), 1);
    let c = &e.draw_commands()[0];
    assert_command(c, CommandKind::Rectangle, [0.0, 0.0, 10.0, 5.0, 2.0], "black", 1.0, "");
    assert_eq!(c.command_type(), "rectangle");
    assert_eq!(e.output()[0], "Rectangle at (0.00, 0.00) size 10.00x5.00 radius 2.00");
}

#[test]
fn rect_counts_a_missing_argument_as_zero_and_keeps_negative_sizes() {
    let mut e = NativeLuaEngine::new();
    e.rect(Some(num(4.0)), Some(num(4.0)), Some(num(-3.0)), Some(num(-1.0)), None, num(1.0), num(3.0));
    assert_command(&e.draw_commands()[0], CommandKind::Rectangle, [4.0, 4.0, 1.0, 3.0, 0.0], "black", 1.0, "");
    assert_eq!(e.output()[0], "Rectangle at (4.00, 4.00) size -3.00x-1.00 radius 0.00");
    e.rect(None, None, None, None, None, num(0.0), num(0.0));
    assert_command(&e.draw_commands()[1], CommandKind::Rectangle, [0.0, 0.0, 0.0, 0.0, 0.0], "black", 1.0, "");
    assert_eq!(e.output()[1], "Rectangle at (0.00, 0.00) size 0.00x0.00 radius 0.00");
}

#[test]
fn colr_formats_without_touching_the_engine() {
    let e = NativeLuaEngine::new();
    assert_eq!(NativeLuaEngine::colr(255, 0, 0), "rgb(255,0,0)");
    assert_eq!(NativeLuaEngine::colr(-1, 300, i32::MIN), "rgb(-1,300,-2147483648)");
    assert_eq!(NativeLuaEngine::colr(i32::MAX, 7, 10), "rgb(2147483647,7,10)");
    assert!(e.output().is_empty());
    assert!(e.draw_commands().is_empty());
    assert_eq!(e.turtle_state().pen_color, "black");
}

#[test]
fn wait_logs_one_line_and_returns() {
    let mut e = NativeLuaEngine::new();
    e.wait();
    assert_eq!(e.output().len(), 1);
    assert_eq!(e.output()[0], "Waiting for user input...");
}

#[test]
fn print_joins_the_printed_forms_with_tabs() {
    let mut e = NativeLuaEngine::new();
    e.print(&vec![
        ScriptValue::Text("a".to_string()),
        ScriptValue::Integer(7),
        ScriptValue::Number(num(0.5)),
        ScriptValue::Boolean(false),
        ScriptValue::Nil,
    ]);
    e.print(&vec![]);
    e.print(&vec![ScriptValue::Integer(i64::MIN)]);
    assert_eq!(e.output()[0], "a\t7\t0.5\tfalse\tnil");
    assert_eq!(e.output()[1], "");
    assert_eq!(e.output()[2], "-9223372036854775808");
}

#[test]
fn command_names_are_the_four_kinds() {
    assert_eq!(CommandKind::Line.name(), "line");
    assert_eq!(CommandKind::Circle.name(), "circle");
    assert_eq!(CommandKind::Rectangle.name(), "rectangle");
    assert_eq!(CommandKind::Text.name(), "text");
}
