use lua_engine::{assemble_script, DebugLibrary, NativeLuaEngine, ScriptMode, ScriptValue};

fn header() -> String {
    [
        "-- Using built-in turtle graphics\n",
        "-- open('Lua Debug - Turtle Graphics')\n",
    ]
    .concat()
}

fn globals() -> String {
    [
        "X = 500\nY = 700\nmaterialThickness = 18\noffset = 20\n",
        "edge1layer=\"LMM0\"\nedge2layer=\"LMM1\"\nedge3layer=\"LMM2\"\nedge4layer=\"LMM3\"\n",
        "edge1thickness=0.1\nedge2thickness=0.2\nedge3thickness=0.3\nedge4thickness=0.4\n",
        "doesSizeIncludeEdgeThickness=\"false\"\nmodelParameters=\"\"\n",
    ]
    .concat()
}

fn fallback_call() -> String {
    [
        "print('üîß Setting up basic debug environment')\n",
        "if ADekoLib then ADekoLib.start() end\n",
        "if modelMain then\n",
        "  print('üìû Calling modelMain() function')\n",
        "  modelMain()\n",
        "  print('‚úÖ modelMain() execution completed')\n",
        "else\n",
        "  print('‚ùå modelMain function not found in script')\n",
        "end\n",
        "if ADekoLib then ADekoLib.finish() end\n",
    ]
    .concat()
}

#[test]
fn a_plain_run_is_the_header_and_the_script() {
    let text = assemble_script("move(10)\nturn(90)", &ScriptMode::Plain);
    assert_eq!(
        text,
        "-- Using built-in turtle graphics\n-- open('Lua Debug - Turtle Graphics')\n\n-- User Script:\nmove(10)\nturn(90)"
    );
}

#[test]
fn a_plain_run_of_an_empty_script() {
    assert_eq!(
        assemble_script("", &ScriptMode::Plain),
        "-- Using built-in turtle graphics\n-- open('Lua Debug - Turtle Graphics')\n\n-- User Script:\n"
    );
}

#[test]
fn a_plain_run_holds_no_bootstrap() {
    let text = assemble_script("x = 1", &ScriptMode::Plain);
    assert!(!text.contains("X = 500"));
    assert!(!text.contains("modelMain"));
}

#[test]
fn a_debug_run_sets_the_globals_before_the_script_and_runs_the_library_after() {
    let text = assemble_script(
        "function modelMain() end",
        &ScriptMode::Debug(DebugLibrary::Text("modelMain()".to_string())),
    );
    let expected = [
        header().as_str(),
        globals().as_str(),
        "\n-- ===== USER SCRIPT (defines modelMain function) =====\n",
        "function modelMain() end",
        "\n\n",
        "-- ===== ADEKOLIB DEBUG MODE (ZeroBrane-style 6-face layout) =====\n",
        "print('üéØ Starting ZeroBrane-style debug mode with 6-face layout')\n",
        "modelMain()",
        "\nprint('‚úÖ Debug mode execution completed')\n",
    ]
    .concat();
    assert_eq!(text, expected);
}

#[test]
fn a_debug_run_without_the_library_calls_model_main_from_the_simplified_fallback() {
    let text = assemble_script("x = 1", &ScriptMode::Debug(DebugLibrary::Missing));
    let expected = [
        header().as_str(),
        globals().as_str(),
        "\n-- ===== USER SCRIPT (defines modelMain function) =====\n",
        "x = 1",
        "\n\n",
        "-- ===== SIMPLIFIED DEBUG ENVIRONMENT =====\n",
        "print('‚ö†Ô∏è  ADekoDebugMode.lua not found, using simplified debug environment')\n",
        fallback_call().as_str(),
    ]
    .concat();
    assert_eq!(text, expected);
}

#[test]
fn a_debug_run_with_an_unreadable_library_calls_model_main_from_the_fallback() {
    let text = assemble_script("x = 1", &ScriptMode::Debug(DebugLibrary::Unreadable));
    let expected = [
        header().as_str(),
        globals().as_str(),
        "\n-- ===== USER SCRIPT (defines modelMain function) =====\n",
        "x = 1",
        "\n\n",
        "-- ===== FALLBACK DEBUG ENVIRONMENT =====\n",
        "print('‚ö†Ô∏è  Using fallback debug environment (ADekoDebugMode.lua not found)')\n",
        fallback_call().as_str(),
    ]
    .concat();
    assert_eq!(text, expected);
}

#[test]
fn in_every_debug_run_the_globals_stand_before_the_user_script() {
    let user = "-- the body of the user\nprint(X)";
    let libraries = [
        DebugLibrary::Missing,
        DebugLibrary::Unreadable,
        DebugLibrary::Text("modelMain()".to_string()),
    ];
    for library in libraries {
        let text = assemble_script(user, &ScriptMode::Debug(library));
        let globals_at = text.find("X = 500\nY = 700\n").unwrap();
        let last_global_at = text.find("modelParameters=\"\"\n").unwrap();
        let user_at = text.find(user).unwrap();
        let call_at = text.rfind("modelMain()").unwrap();
        assert!(globals_at < last_global_at);
        assert!(last_global_at < user_at);
        assert!(user_at + user.len() <= call_at);
        assert_eq!(text.matches("X = 500").count(), 1);
    }
}

#[test]
fn the_fallback_ends_with_the_finish_of_the_macro_namespace() {
    let text = assemble_script("", &ScriptMode::Debug(DebugLibrary::Missing));
    assert!(text.contains("edge1thickness=0.1\nedge2thickness=0.2\nedge3thickness=0.3\nedge4thickness=0.4\n"));
    assert!(text.contains("if modelMain then\n"));
    assert!(text.ends_with("if ADekoLib then ADekoLib.finish() end\n"));
}

#[test]
fn debug_variables_are_the_documented_defaults() {
    let globals = NativeLuaEngine::debug_variables();
    let names: Vec<&str> = globals.iter().map(|g| g.name.as_str()).collect();
    assert_eq!(
        names,
        vec![
            "X",
            "Y",
            "modelParameters",
            "materialThickness",
            "offset",
            "edge1layer",
            "edge2layer",
            "edge3layer",
            "edge4layer",
            "edge1thickness",
            "edge2thickness",
            "edge3thickness",
            "edge4thickness",
            "doesSizeIncludeEdgeThickness",
        ]
    );
    let numbers: [(usize, f64); 8] =
        [(0, 500.0), (1, 700.0), (3, 18.0), (4, 20.0), (9, 0.1), (10, 0.2), (11, 0.3), (12, 0.4)];
    for (i, expected) in numbers {
        match &globals[i].value {
            ScriptValue::Number(n) => {
                assert_eq!(f64::from_bits(n.bits), expected);
                assert_eq!(n.fixed, format!("{:.2}", expected));
                assert_eq!(n.plain, format!("{}", expected));
            }
            _ => panic!("a default that should be a number is none"),
        }
    }
    let texts: [(usize, &str); 6] =
        [(2, ""), (5, "LMM0"), (6, "LMM1"), (7, "LMM2"), (8, "LMM3"), (13, "false")];
    for (i, expected) in texts {
        match &globals[i].value {
            ScriptValue::Text(t) => assert_eq!(t, expected),
            _ => panic!("a default that should be a text is none"),
        }
    }
}
