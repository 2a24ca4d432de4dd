use lua_engine::{after_lookup, module_not_found, NativeLuaEngine, RequirePlan};

fn path_of(plan: &RequirePlan) -> Option<&str> {
    match plan {
        RequirePlan::File { path } => Some(path.as_str()),
        _ => None,
    }
}

#[test]
fn a_cached_name_is_answered_from_the_cache() {
    let e = NativeLuaEngine::new_with_library_path(Some("/lib".to_string()));
    for name in ["shapes", "ADekoLib", "turtle", "ADekoDebugMode", ""] {
        assert!(matches!(e.plan_require(name, true), RequirePlan::Cached));
    }
}

#[test]
fn reserved_names_never_go_to_disk() {
    for library in [None, Some("/lib".to_string())] {
        let e = NativeLuaEngine::new_with_library_path(library);
        assert!(matches!(e.plan_require("ADekoLib", false), RequirePlan::MacroLibrary));
        assert!(matches!(e.plan_require("turtle", false), RequirePlan::Marker));
        assert!(matches!(e.plan_require("ADekoDebugMode", false), RequirePlan::Marker));
    }
}

#[test]
fn names_close_to_reserved_ones_are_ordinary() {
    let e = NativeLuaEngine::new_with_library_path(Some("lib".to_string()));
    assert_eq!(path_of(&e.plan_require("adekolib", false)), Some("lib/adekolib.lua"));
    assert_eq!(path_of(&e.plan_require("Turtle", false)), Some("lib/Turtle.lua"));
    assert_eq!(path_of(&e.plan_require("turtle2", false)), Some("lib/turtle2.lua"));
}

#[test]
fn other_names_are_looked_up_in_the_library_directory() {
    let e = NativeLuaEngine::new_with_library_path(Some("/opt/lua library".to_string()));
    assert_eq!(path_of(&e.plan_require("shapes", false)), Some("/opt/lua library/shapes.lua"));
    assert_eq!(path_of(&e.plan_require("sub/mod", false)), Some("/opt/lua library/sub/mod.lua"));
    assert_eq!(path_of(&e.plan_require("", false)), Some("/opt/lua library/.lua"));
}

#[test]
fn without_a_library_directory_other_names_fail() {
    let e = NativeLuaEngine::new();
    match e.plan_require("shapes", false) {
        RequirePlan::NotFound { message } => assert_eq!(message, "module 'shapes' not found"),
        _ => panic!("a plan other than failure"),
    }
}

#[test]
fn second_require_after_a_load_is_cached() {
    let e = NativeLuaEngine::new_with_library_path(Some("/lib".to_string()));
    let first = e.plan_require("shapes", false);
    assert_eq!(path_of(&first), Some("/lib/shapes.lua"));
    let second = e.plan_require("shapes", true);
    assert!(matches!(second, RequirePlan::Cached));
}

#[test]
fn not_found_message_names_the_module() {
    assert_eq!(module_not_found("a.b"), "module 'a.b' not found");
    assert_eq!(module_not_found(""), "module '' not found");
}

#[test]
fn package_path_appends_the_library_patterns() {
    let e = NativeLuaEngine::new_with_library_path(Some("/lib".to_string()));
    assert_eq!(e.package_path(Some("./?.lua")), "./?.lua;/lib/?.lua;/lib/?/init.lua");
    assert_eq!(e.package_path(None), "?.lua;?/init.lua;/lib/?.lua;/lib/?/init.lua");
}

#[test]
fn package_path_without_a_library_is_unchanged() {
    let e = NativeLuaEngine::new();
    assert_eq!(e.package_path(Some("./?.lua;/usr/?.lua")), "./?.lua;/usr/?.lua");
    assert_eq!(e.package_path(None), "?.lua;?/init.lua");
    assert_eq!(e.package_path(Some("")), "");
}

#[test]
fn library_path_is_kept_as_given() {
    let e = NativeLuaEngine::new_with_library_path(Some("C:/lua".to_string()));
    assert_eq!(e.lua_library_path().as_deref(), Some("C:/lua"));
}

#[test]
fn a_file_that_was_read_is_handed_on_to_run() {
    assert_eq!(after_lookup("shapes", Some("return 4".to_string())), Ok("return 4".to_string()));
    assert_eq!(after_lookup("shapes", Some(String::new())), Ok(String::new()));
}

#[test]
fn a_file_that_is_missing_or_unreadable_ends_in_module_not_found() {
    assert_eq!(after_lookup("shapes", None), Err("module 'shapes' not found".to_string()));
    assert_eq!(after_lookup("a/b", None), Err(module_not_found("a/b")));
}
