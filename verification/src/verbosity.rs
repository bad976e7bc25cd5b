//! How much a report shows, as set by environment variables. The caller
//! reads the variables; a variable that is unset, or whose value is not
//! Unicode, is `None`.
use vstd::prelude::*;
use crate::text::same_text;

verus! {

broadcast use vstd::string::group_string_axioms;

/// How much of a backtrace is captured and shown.
#[derive(Clone, Copy, Debug, PartialEq, Eq, PartialOrd, Ord, Structural)]
pub enum Verbosity {
    /// No backtrace.
    Minimal,
    /// A backtrace without source.
    Medium,
    /// A backtrace with the source around each frame.
    Full,
}

/// The verbosity that a backtrace setting asks for: "full" is full, any
/// other value but "0" is medium, and "0" or no value is minimal.
pub open spec fn verbosity_of(setting: Option<Seq<char>>) -> Verbosity {
    match setting {
        Some(s) => if s == "full"@ {
            Verbosity::Full
        } else if s != "0"@ {
            Verbosity::Medium
        } else {
            Verbosity::Minimal
        },
        None => Verbosity::Minimal,
    }
}

/// The characters of an optional string slice.
pub open spec fn opt_str_view(o: Option<&str>) -> Option<Seq<char>> {
    match o {
        Some(s) => Some(s@),
        None => None,
    }
}

/// The verbosity that a backtrace setting asks for.
pub fn verbosity_from(setting: Option<&str>) -> (v: Verbosity)
    ensures
        v == verbosity_of(opt_str_view(setting)),
{
    match setting {
        Some(s) => {
            if same_text(s, "full") {
                Verbosity::Full
            } else if !same_text(s, "0") {
                Verbosity::Medium
            } else {
                Verbosity::Minimal
            }
        },
        None => Verbosity::Minimal,
    }
}

/// The verbosity of panic reports, from the value of `RUST_BACKTRACE`.
pub fn panic_verbosity(rust_backtrace: Option<&str>) -> (v: Verbosity)
    ensures
        v == verbosity_of(opt_str_view(rust_backtrace)),
{
    verbosity_from(rust_backtrace)
}

/// The verbosity of error reports, from the values of `RUST_LIB_BACKTRACE`
/// and `RUST_BACKTRACE`: the first where it is set, else the second.
pub fn lib_verbosity(rust_lib_backtrace: Option<&str>, rust_backtrace: Option<&str>) -> (v:
    Verbosity)
    ensures
        v == verbosity_of(
            if rust_lib_backtrace is Some {
                opt_str_view(rust_lib_backtrace)
            } else {
                opt_str_view(rust_backtrace)
            },
        ),
{
    match rust_lib_backtrace {
        Some(_) => verbosity_from(rust_lib_backtrace),
        None => verbosity_from(rust_backtrace),
    }
}

/// The verbosity a frame is printed with: that of panic reports while the
/// thread panics, else that of error reports.
pub fn frame_verbosity(
    panicking: bool,
    rust_lib_backtrace: Option<&str>,
    rust_backtrace: Option<&str>,
) -> (v: Verbosity)
    ensures
        v == if panicking {
            verbosity_of(opt_str_view(rust_backtrace))
        } else {
            verbosity_of(
                if rust_lib_backtrace is Some {
                    opt_str_view(rust_lib_backtrace)
                } else {
                    opt_str_view(rust_backtrace)
                },
            )
        },
{
    if panicking {
        panic_verbosity(rust_backtrace)
    } else {
        lib_verbosity(rust_lib_backtrace, rust_backtrace)
    }
}

/// Whether a frame printed with verbosity `v` shows its source: only at
/// full verbosity.
pub fn shows_source(v: Verbosity) -> (r: bool)
    ensures
        r == (v == Verbosity::Full),
{
    match v {
        Verbosity::Full => true,
        _ => false,
    }
}

/// Whether a report captures a backtrace at verbosity `v`: at any but
/// minimal.
pub fn captures_backtrace(v: Verbosity) -> (r: bool)
    ensures
        r == (v != Verbosity::Minimal),
{
    match v {
        Verbosity::Minimal => false,
        _ => true,
    }
}

/// Whether span traces are captured, from the value of `RUST_SPANTRACE`:
/// any value but "0" turns capture on, "0" turns it off, and without a
/// value the hook's default holds.
pub fn spantrace_capture_enabled(rust_spantrace: Option<&str>, by_default: bool) -> (r: bool)
    ensures
        r == match rust_spantrace {
            Some(s) => s@ != "0"@,
            None => by_default,
        },
{
    match rust_spantrace {
        Some(s) => !same_text(s, "0"),
        None => by_default,
    }
}

/// Whether the frame filters are bypassed, from the value of
/// `COLORBT_SHOW_HIDDEN`: only "1", "on" and "y" bypass them.
pub fn shows_hidden_frames(colorbt_show_hidden: Option<&str>) -> (r: bool)
    ensures
        r == match colorbt_show_hidden {
            Some(s) => s@ == "1"@ || s@ == "on"@ || s@ == "y"@,
            None => false,
        },
{
    match colorbt_show_hidden {
        Some(s) => same_text(s, "1") || same_text(s, "on") || same_text(s, "y"),
        None => false,
    }
}

/// The backtrace setting decides the verbosity as documented: "full" shows
/// source, "0" or an unset variable shows no backtrace, and every other
/// value, whatever it is, captures a backtrace and shows it without source.
pub proof fn any_other_setting_is_medium(s: Seq<char>)
    ensures
        verbosity_of(Some("full"@)) == Verbosity::Full,
        verbosity_of(Some("0"@)) == Verbosity::Minimal,
        verbosity_of(None) == Verbosity::Minimal,
        s != "full"@ && s != "0"@ ==> verbosity_of(Some(s)) == Verbosity::Medium,
        verbosity_of(Some(s)) != Verbosity::Minimal <==> s != "0"@,
        verbosity_of(Some(s)) == Verbosity::Full <==> s == "full"@,
{
    reveal_strlit("full");
    reveal_strlit("0");
    assert("full"@.len() == 4 && "0"@.len() == 1);
    assert("full"@ != "0"@);
}

} // verus!
