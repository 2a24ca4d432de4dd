//! The module resolver: what `require` does for a module name.
//!
//! The cache of loaded modules belongs to the interpreter, and files belong
//! to the host. The resolver decides, from the name and from whether the
//! cache holds a value for it, what the host has to do: the lookup order is
//! cache, then built-in names, then disk.

use vstd::prelude::*;
use vstd::string::*;
use crate::engine::NativeLuaEngine;
use crate::text::{optional_str, optional_text, text_result};

verus! {

/// What the host does to answer one `require`.
#[derive(Debug)]
pub enum RequirePlan {
    /// Hand back the value that the cache holds for the name.
    Cached,
    /// Hand back the macro namespace object, and store it in the cache under
    /// the name.
    MacroLibrary,
    /// Hand back `true`, and store it in the cache under the name.
    Marker,
    /// Look for the file at `path` and hand what was found to
    /// [`after_lookup`]: its text where the file is there and can be read as
    /// text, nothing otherwise. Where that answers with a text, run it as a
    /// chunk, store what it returns in the cache under the name and hand
    /// that back; where it answers with an error, fail with it.
    File { path: String },
    /// Fail with `message`.
    NotFound { message: String },
}

/// The mathematical content of a [`RequirePlan`].
pub enum RequirePlanView {
    Cached,
    MacroLibrary,
    Marker,
    File { path: Seq<char> },
    NotFound { message: Seq<char> },
}

impl View for RequirePlan {
    type V = RequirePlanView;

    open spec fn view(&self) -> RequirePlanView {
        match self {
            RequirePlan::Cached => RequirePlanView::Cached,
            RequirePlan::MacroLibrary => RequirePlanView::MacroLibrary,
            RequirePlan::Marker => RequirePlanView::Marker,
            RequirePlan::File { path } => RequirePlanView::File { path: path@ },
            RequirePlan::NotFound { message } => RequirePlanView::NotFound { message: message@ },
        }
    }
}

/// The name under which the macro namespace is required.
pub open spec fn macro_library_name() -> Seq<char> {
    "ADekoLib"@
}

/// The name that marks the turtle builtins as present.
pub open spec fn turtle_marker_name() -> Seq<char> {
    "turtle"@
}

/// The name that marks the debug bootstrap as present.
pub open spec fn debug_marker_name() -> Seq<char> {
    "ADekoDebugMode"@
}

/// Whether `name` is one of the three names that are never looked up on
/// disk.
pub open spec fn is_reserved(name: Seq<char>) -> bool {
    name == macro_library_name() || name == turtle_marker_name() || name == debug_marker_name()
}

/// The file of module `name` in directory `dir`: `dir/name.lua`.
pub open spec fn module_file(dir: Seq<char>, name: Seq<char>) -> Seq<char> {
    dir + "/"@ + name + ".lua"@
}

/// The error text for a module that cannot be found.
pub open spec fn not_found_message(name: Seq<char>) -> Seq<char> {
    "module '"@ + name + "' not found"@
}

/// The plan for `require(name)`: the cache first, then the built-in names,
/// then the module directory, and failure where none is configured.
pub open spec fn require_plan(
    name: Seq<char>,
    cached: bool,
    library_path: Option<Seq<char>>,
) -> RequirePlanView {
    if cached {
        RequirePlanView::Cached
    } else if name == macro_library_name() {
        RequirePlanView::MacroLibrary
    } else if name == turtle_marker_name() || name == debug_marker_name() {
        RequirePlanView::Marker
    } else {
        match library_path {
            Some(dir) => RequirePlanView::File { path: module_file(dir, name) },
            None => RequirePlanView::NotFound { message: not_found_message(name) },
        }
    }
}

/// What becomes of a lookup on disk: the text to run where the file was
/// found and read, and the error for a module that cannot be found where it
/// was not.
pub open spec fn lookup_outcome(name: Seq<char>, content: Option<Seq<char>>) -> Result<
    Seq<char>,
    Seq<char>,
> {
    match content {
        Some(text) => Ok(text),
        None => Err(not_found_message(name)),
    }
}

/// Whether `require(name)` fails in the resolver: there is no directory to
/// look in, or the look on disk found no file that could be read. `found`
/// says whether it did, and counts only for a plan that goes to disk.
pub open spec fn require_fails(
    name: Seq<char>,
    cached: bool,
    library_path: Option<Seq<char>>,
    found: bool,
) -> bool {
    match require_plan(name, cached, library_path) {
        RequirePlanView::NotFound { .. } => true,
        RequirePlanView::File { .. } => !found,
        _ => false,
    }
}

impl RequirePlanView {
    /// Whether carrying out the plan reads the disk.
    pub open spec fn touches_disk(self) -> bool {
        self is File
    }

    /// Whether the cache holds a value for the name once the plan is carried
    /// out. `loaded` says, for a plan that goes to disk, whether the file was
    /// there and its chunk returned a value other than nil.
    pub open spec fn leaves_cached(self, loaded: bool) -> bool {
        match self {
            RequirePlanView::Cached => true,
            RequirePlanView::MacroLibrary => true,
            RequirePlanView::Marker => true,
            RequirePlanView::File { .. } => loaded,
            RequirePlanView::NotFound { .. } => false,
        }
    }
}

/// The search path for module files: the interpreter's own path, or
/// `?.lua;?/init.lua` where it has none, followed by the two patterns of the
/// module directory where one is configured.
pub open spec fn search_path(current: Option<Seq<char>>, library_path: Option<Seq<char>>) -> Seq<
    char,
> {
    let base = match current {
        Some(p) => p,
        None => "?.lua;?/init.lua"@,
    };
    match library_path {
        Some(dir) => base + ";"@ + dir + "/?.lua;"@ + dir + "/?/init.lua"@,
        None => base,
    }
}

/// Whether two texts are the same.
fn same_text(a: &str, b: &str) -> (r: bool)
    ensures
        r == (a@ == b@),
{
    let left = String::from_str(a);
    let right = String::from_str(b);
    left == right
}

/// The error text for a module that cannot be found: `module '<name>' not
/// found`.
pub fn module_not_found(module_name: &str) -> (r: String)
    ensures
        r@ == not_found_message(module_name@),
{
    let mut s = String::from_str("module '");
    s.append(module_name);
    s.append("' not found");
    s
}

/// Decides what follows a lookup on disk for `module_name`. `content` is the
/// text of the module file, or nothing where the file is missing or cannot
/// be read as text. With a text the answer is that text, to be run as a
/// chunk; without one it is the error for a module that cannot be found.
pub fn after_lookup(module_name: &str, content: Option<String>) -> (r: Result<String, String>)
    ensures
        match content {
            Some(text) => r == Ok::<String, String>(text),
            None => r is Err && r->Err_0@ == not_found_message(module_name@),
        },
        text_result(r) == lookup_outcome(
            module_name@,
            optional_text(content),
        ),
{
    match content {
        Some(text) => Ok(text),
        None => Err(module_not_found(module_name)),
    }
}

impl NativeLuaEngine {
    /// Decides how `require(module_name)` is answered. `cached` says whether
    /// the cache of loaded modules holds a value other than nil for the name.
    pub fn plan_require(&self, module_name: &str, cached: bool) -> (r: RequirePlan)
        ensures
            r@ == require_plan(module_name@, cached, self@.library_path),
    {
        if cached {
            RequirePlan::Cached
        } else if same_text(module_name, "ADekoLib") {
            RequirePlan::MacroLibrary
        } else if same_text(module_name, "turtle") || same_text(module_name, "ADekoDebugMode") {
            RequirePlan::Marker
        } else {
            match self.lua_library_path() {
                Some(dir) => {
                    let mut path = dir.clone();
                    path.append("/");
                    path.append(module_name);
                    path.append(".lua");
                    RequirePlan::File { path }
                },
                None => RequirePlan::NotFound { message: module_not_found(module_name) },
            }
        }
    }

    /// The search path to install in the interpreter, given the one it has.
    pub fn package_path(&self, current: Option<&str>) -> (r: String)
        ensures
            r@ == search_path(optional_str(current), self@.library_path),
    {
        let mut path = match current {
            Some(p) => String::from_str(p),
            None => String::from_str("?.lua;?/init.lua"),
        };
        match self.lua_library_path() {
            Some(dir) => {
                path.append(";");
                path.append(dir.as_str());
                path.append("/?.lua;");
                path.append(dir.as_str());
                path.append("/?/init.lua");
            },
            None => {},
        }
        path
    }
}

} // verus!
