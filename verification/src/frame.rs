//! Frames of a backtrace and how they are classified.
use vstd::prelude::*;
use crate::style::Styles;
use crate::text::{has_prefix_among, occurs_in, same_text, starts_with_any, contains, str_views};

verus! {

broadcast use vstd::string::group_string_axioms;

/// A frame of a backtrace or of a span trace.
#[derive(Debug)]
#[non_exhaustive]
pub struct Frame {
    /// Frame index, counted from 1.
    pub n: usize,
    /// Symbol name.
    pub name: Option<String>,
    /// Source line number.
    pub lineno: Option<u32>,
    /// Source file path, as text; where the path is not valid Unicode, the
    /// text has replacement characters in place of what is not.
    pub filename: Option<String>,
    /// Whether the source file path is valid Unicode, so that its text is
    /// the path itself.
    pub filename_is_unicode: bool,
    /// The styles that the frame is printed with.
    pub styles: Styles,
}

/// The characters of an optional string.
pub open spec fn opt_view(o: Option<String>) -> Option<Seq<char>> {
    match o {
        Some(s) => Some(s@),
        None => None,
    }
}

/// Symbol prefixes of code that is not part of the user's crate.
pub open spec fn dependency_symbol_prefixes() -> Seq<Seq<char>> {
    seq![
        "std::"@,
        "core::"@,
        "backtrace::backtrace::"@,
        "_rust_begin_unwind"@,
        "color_traceback::"@,
        "__rust_"@,
        "___rust_"@,
        "__pthread"@,
        "_main"@,
        "main"@,
        "__scrt_common_main_seh"@,
        "BaseThreadInitThunk"@,
        "_start"@,
        "__libc_start_main"@,
        "start_thread"@,
    ]
}

/// File prefixes of code that is not part of the user's crate.
pub open spec fn dependency_file_prefixes() -> Seq<Seq<char>> {
    seq!["/rustc/"@, "src/libstd/"@, "src/libpanic_unwind/"@, "src/libtest/"@]
}

/// The part of a path that marks a crate downloaded from a registry.
pub open spec fn registry_marker() -> Seq<char> {
    "/.cargo/registry/src/"@
}

/// Symbol prefixes of functions called after a panic has begun.
pub open spec fn post_panic_symbol_prefixes() -> Seq<Seq<char>> {
    seq![
        "_rust_begin_unwind"@,
        "rust_begin_unwind"@,
        "core::result::unwrap_failed"@,
        "core::option::expect_none_failed"@,
        "core::panicking::panic_fmt"@,
        "color_backtrace::create_panic_handler"@,
        "std::panicking::begin_panic"@,
        "begin_panic_fmt"@,
        "failure::backtrace::Backtrace::new"@,
        "backtrace::capture"@,
        "failure::error_message::err_msg"@,
        "<failure::error::Error as core::convert::From<F>>::from"@,
    ]
}

/// Symbol prefixes of the language runtime's start-up code.
pub open spec fn runtime_init_symbol_prefixes() -> Seq<Seq<char>> {
    seq![
        "std::rt::lang_start::"@,
        "test::run_test::run_test_inner::"@,
        "std::sys_common::backtrace::__rust_begin_short_backtrace"@,
    ]
}

/// A frame with this name and file is code that is not part of the user's crate.
pub open spec fn is_dependency(name: Option<Seq<char>>, file: Option<Seq<char>>) -> bool {
    ||| (name matches Some(n) && has_prefix_among(n, dependency_symbol_prefixes()))
    ||| (file matches Some(f) && (has_prefix_among(f, dependency_file_prefixes())
        || occurs_in(registry_marker(), f)))
}

/// A frame with this name was called after the panic began.
pub open spec fn is_post_panic(name: Option<Seq<char>>) -> bool {
    name matches Some(n) && has_prefix_among(n, post_panic_symbol_prefixes())
}

/// A frame with this name and file belongs to the language runtime's start-up code.
pub open spec fn is_runtime_init(name: Option<Seq<char>>, file: Option<Seq<char>>) -> bool {
    match (name, file) {
        (Some(n), Some(f)) => has_prefix_among(n, runtime_init_symbol_prefixes()) || (n
            == "{{closure}}"@ && f == "src/libtest/lib.rs"@),
        _ => false,
    }
}

fn dependency_symbol_prefix_list() -> (v: Vec<&'static str>)
    ensures
        str_views(v@) == dependency_symbol_prefixes(),
{
    let mut v: Vec<&'static str> = Vec::new();
    v.push("std::");
    v.push("core::");
    v.push("backtrace::backtrace::");
    v.push("_rust_begin_unwind");
    v.push("color_traceback::");
    v.push("__rust_");
    v.push("___rust_");
    v.push("__pthread");
    v.push("_main");
    v.push("main");
    v.push("__scrt_common_main_seh");
    v.push("BaseThreadInitThunk");
    v.push("_start");
    v.push("__libc_start_main");
    v.push("start_thread");
    assert(str_views(v@) =~= dependency_symbol_prefixes());
    v
}

fn dependency_file_prefix_list() -> (v: Vec<&'static str>)
    ensures
        str_views(v@) == dependency_file_prefixes(),
{
    let mut v: Vec<&'static str> = Vec::new();
    v.push("/rustc/");
    v.push("src/libstd/");
    v.push("src/libpanic_unwind/");
    v.push("src/libtest/");
    assert(str_views(v@) =~= dependency_file_prefixes());
    v
}

fn post_panic_symbol_prefix_list() -> (v: Vec<&'static str>)
    ensures
        str_views(v@) == post_panic_symbol_prefixes(),
{
    let mut v: Vec<&'static str> = Vec::new();
    v.push("_rust_begin_unwind");
    v.push("rust_begin_unwind");
    v.push("core::result::unwrap_failed");
    v.push("core::option::expect_none_failed");
    v.push("core::panicking::panic_fmt");
    v.push("color_backtrace::create_panic_handler");
    v.push("std::panicking::begin_panic");
    v.push("begin_panic_fmt");
    v.push("failure::backtrace::Backtrace::new");
    v.push("backtrace::capture");
    v.push("failure::error_message::err_msg");
    v.push("<failure::error::Error as core::convert::From<F>>::from");
    assert(str_views(v@) =~= post_panic_symbol_prefixes());
    v
}

fn runtime_init_symbol_prefix_list() -> (v: Vec<&'static str>)
    ensures
        str_views(v@) == runtime_init_symbol_prefixes(),
{
    let mut v: Vec<&'static str> = Vec::new();
    v.push("std::rt::lang_start::");
    v.push("test::run_test::run_test_inner::");
    v.push("std::sys_common::backtrace::__rust_begin_short_backtrace");
    assert(str_views(v@) =~= runtime_init_symbol_prefixes());
    v
}

/// What a backtrace tells of one frame: the symbol's name and the source
/// location, where known.
pub struct FrameSymbol {
    pub name: Option<String>,
    pub lineno: Option<u32>,
    pub filename: Option<String>,
    pub filename_is_unicode: bool,
}

impl Frame {
    /// A frame with the given number, symbol, location and styles.
    pub fn new(
        n: usize,
        name: Option<String>,
        lineno: Option<u32>,
        filename: Option<String>,
        filename_is_unicode: bool,
        styles: Styles,
    ) -> (f: Frame)
        ensures
            f.n == n,
            f.name == name,
            f.lineno == lineno,
            f.filename == filename,
            f.filename_is_unicode == filename_is_unicode,
            f.styles == styles,
    {
        Frame { n, name, lineno, filename, filename_is_unicode, styles }
    }

    /// This frame is code that is not part of the user's crate.
    pub open spec fn spec_is_dependency_code(&self) -> bool {
        is_dependency(opt_view(self.name), opt_view(self.filename))
    }

    /// This frame was called after the panic began.
    pub open spec fn spec_is_post_panic_code(&self) -> bool {
        is_post_panic(opt_view(self.name))
    }

    /// This frame belongs to the language runtime's start-up code.
    pub open spec fn spec_is_runtime_init_code(&self) -> bool {
        is_runtime_init(opt_view(self.name), opt_view(self.filename))
    }

    /// Whether this frame is code that is not part of the user's crate: its
    /// symbol starts with a prefix of the standard library or of the
    /// runtime, or its file lies in the compiler's sources, in the standard
    /// library or in the registry of downloaded crates.
    pub fn is_dependency_code(&self) -> (r: bool)
        ensures
            r == self.spec_is_dependency_code(),
    {
        if let Some(name) = &self.name {
            let prefixes = dependency_symbol_prefix_list();
            if starts_with_any(name.as_str(), &prefixes) {
                return true;
            }
        }
        if let Some(filename) = &self.filename {
            let prefixes = dependency_file_prefix_list();
            if starts_with_any(filename.as_str(), &prefixes) || contains(
                filename.as_str(),
                "/.cargo/registry/src/",
            ) {
                return true;
            }
        }
        false
    }

    /// Heuristically determine whether a frame is likely to be a post panic
    /// frame.
    ///
    /// Post panic frames are frames of a functions called after the actual panic
    /// is already in progress and don't contain any useful information for a
    /// reader of the backtrace.
    pub fn is_post_panic_code(&self) -> (r: bool)
        ensures
            r == self.spec_is_post_panic_code(),
    {
        match &self.name {
            Some(name) => {
                let prefixes = post_panic_symbol_prefix_list();
                starts_with_any(name.as_str(), &prefixes)
            },
            None => false,
        }
    }

    /// Heuristically determine whether a frame is likely to be part of language
    /// runtime.
    pub fn is_runtime_init_code(&self) -> (r: bool)
        ensures
            r == self.spec_is_runtime_init_code(),
    {
        match (&self.name, &self.filename) {
            (Some(name), Some(file)) => {
                let prefixes = runtime_init_symbol_prefix_list();
                if starts_with_any(name.as_str(), &prefixes) {
                    return true;
                }
                // For Linux, this is the best rule for skipping test init.
                same_text(name.as_str(), "{{closure}}") && same_text(
                    file.as_str(),
                    "src/libtest/lib.rs",
                )
            },
            _ => false,
        }
    }
}

/// The frames of a backtrace, numbered from 1 in the order of its symbols,
/// each with the given styles.
pub fn number_frames(symbols: Vec<FrameSymbol>, styles: Styles) -> (frames: Vec<Frame>)
    ensures
        frames@.len() == symbols@.len(),
        forall|i: int|
            #![trigger frames@[i]]
            0 <= i < frames@.len() ==> {
                &&& frames@[i].n == i + 1
                &&& frames@[i].name == symbols@[i].name
                &&& frames@[i].lineno == symbols@[i].lineno
                &&& frames@[i].filename == symbols@[i].filename
                &&& frames@[i].filename_is_unicode == symbols@[i].filename_is_unicode
                &&& frames@[i].styles == styles
            },
{
    let ghost all_symbols = symbols@;
    let count = symbols.len();
    let mut frames: Vec<Frame> = Vec::new();
    let mut rest = symbols;
    let mut i: usize = 0;
    while i < count
        invariant
            i + rest@.len() == all_symbols.len(),
            count == all_symbols.len(),
            rest@ =~= all_symbols.subrange(i as int, all_symbols.len() as int),
            frames@.len() == i,
            forall|k: int|
                #![trigger frames@[k]]
                0 <= k < i ==> {
                    &&& frames@[k].n == k + 1
                    &&& frames@[k].name == all_symbols[k].name
                    &&& frames@[k].lineno == all_symbols[k].lineno
                    &&& frames@[k].filename == all_symbols[k].filename
                    &&& frames@[k].filename_is_unicode == all_symbols[k].filename_is_unicode
                    &&& frames@[k].styles == styles
                },
        decreases rest.len(),
    {
        let symbol = rest.remove(0);
        assert(symbol == all_symbols[i as int]);
        frames.push(Frame {
            n: i + 1,
            name: symbol.name,
            lineno: symbol.lineno,
            filename: symbol.filename,
            filename_is_unicode: symbol.filename_is_unicode,
            styles,
        });
        i = i + 1;
    }
    frames
}

} // verus!
