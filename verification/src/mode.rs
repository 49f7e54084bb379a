//! Resolving the run's target format from the program's own file name, and
//! reading the command-line flags.
//!
//! The name is searched, ASCII case-insensitively, for a format hint:
//! "gif", then "jpeg"/"jpg", then "png". A name with no hint asks for the
//! help document instead of a conversion (a substring looser than "help"
//! is deliberately not treated as a help request: every name without a
//! format hint already falls back to help). A run whose own name cannot be
//! read at all converts to PNG.

use vstd::prelude::*;
use crate::text::{contains_ci, str_contains_ci};

verus! {

/// The raster format every recognized image is converted to.
#[derive(Clone, Copy, PartialEq, Eq, Structural, Debug)]
pub enum TargetFormat {
    Png,
    Gif,
    Jpeg,
}

/// What the invocation name asks for: a conversion run, or the help text.
pub enum Mode {
    Help,
    Convert { format: TargetFormat, ext: String },
}

pub open spec fn gif_hint() -> Seq<char> {
    seq!['g', 'i', 'f']
}

pub open spec fn jpeg_hint() -> Seq<char> {
    seq!['j', 'p', 'e', 'g']
}

pub open spec fn jpg_hint() -> Seq<char> {
    seq!['j', 'p', 'g']
}

pub open spec fn png_hint() -> Seq<char> {
    seq!['p', 'n', 'g']
}

/// The format hinted at by the program name, if any; hints are tried in
/// the order gif, jpeg/jpg, png.
pub open spec fn spec_format_choice(name: Seq<char>) -> Option<TargetFormat> {
    if contains_ci(name, gif_hint()) {
        Some(TargetFormat::Gif)
    } else if contains_ci(name, jpeg_hint()) || contains_ci(name, jpg_hint()) {
        Some(TargetFormat::Jpeg)
    } else if contains_ci(name, png_hint()) {
        Some(TargetFormat::Png)
    } else {
        None
    }
}

/// The extension that goes with the hinted format: it mirrors which
/// spelling of the JPEG hint occurs in the name.
pub open spec fn spec_ext_choice(name: Seq<char>) -> Seq<char> {
    if contains_ci(name, gif_hint()) {
        gif_hint()
    } else if contains_ci(name, jpeg_hint()) || contains_ci(name, jpg_hint()) {
        if contains_ci(name, jpg_hint()) {
            jpg_hint()
        } else {
            jpeg_hint()
        }
    } else {
        png_hint()
    }
}

/// Resolve the run's mode from the program's file name. A missing name
/// (`None`) defaults to a PNG conversion run.
pub fn resolve_mode(name: &Option<String>) -> (m: Mode)
    ensures
        match name {
            None => m matches Mode::Convert { format, ext } && format == TargetFormat::Png
                && ext@ == png_hint(),
            Some(n) => match spec_format_choice(n@) {
                None => m is Help,
                Some(f) => m matches Mode::Convert { format, ext } && format == f && ext@
                    == spec_ext_choice(n@),
            },
        },
{
    proof {
        reveal_strlit("gif");
        reveal_strlit("jpeg");
        reveal_strlit("jpg");
        reveal_strlit("png");
        assert("gif"@ =~= gif_hint());
        assert("jpeg"@ =~= jpeg_hint());
        assert("jpg"@ =~= jpg_hint());
        assert("png"@ =~= png_hint());
    }
    match name {
        None => Mode::Convert { format: TargetFormat::Png, ext: String::from_str("png") },
        Some(n) => {
            let s = n.as_str();
            if str_contains_ci(s, "gif") {
                Mode::Convert { format: TargetFormat::Gif, ext: String::from_str("gif") }
            } else if str_contains_ci(s, "jpeg") || str_contains_ci(s, "jpg") {
                let ext = if str_contains_ci(s, "jpg") {
                    String::from_str("jpg")
                } else {
                    String::from_str("jpeg")
                };
                Mode::Convert { format: TargetFormat::Jpeg, ext }
            } else if str_contains_ci(s, "png") {
                Mode::Convert { format: TargetFormat::Png, ext: String::from_str("png") }
            } else {
                Mode::Help
            }
        },
    }
}

/// The two command-line flags the program understands.
pub struct CliOptions {
    pub help: bool,
    pub dry_run: bool,
}

pub open spec fn help_long() -> Seq<char> {
    seq!['-', '-', 'h', 'e', 'l', 'p']
}

pub open spec fn help_short() -> Seq<char> {
    seq!['-', 'h']
}

pub open spec fn dry_long() -> Seq<char> {
    seq!['-', '-', 'd', 'r', 'y', '-', 'r', 'u', 'n']
}

pub open spec fn dry_short() -> Seq<char> {
    seq!['-', 'n']
}

pub open spec fn is_help_flag(a: Seq<char>) -> bool {
    a == help_long() || a == help_short()
}

pub open spec fn is_dry_run_flag(a: Seq<char>) -> bool {
    a == dry_long() || a == dry_short()
}

pub open spec fn spec_wants_help(args: Seq<Seq<char>>) -> bool {
    exists|i: int| 0 <= i < args.len() && is_help_flag(args[i])
}

pub open spec fn spec_wants_dry_run(args: Seq<Seq<char>>) -> bool {
    exists|i: int| 0 <= i < args.len() && is_dry_run_flag(args[i])
}

/// Scan the argument list (exact, case-sensitive comparison) for the help
/// and dry-run flags.
pub fn parse_args(args: &Vec<String>) -> (o: CliOptions)
    ensures
        o.help == spec_wants_help(args.deep_view()),
        o.dry_run == spec_wants_dry_run(args.deep_view()),
{
    proof {
        reveal_strlit("--help");
        reveal_strlit("-h");
        reveal_strlit("--dry-run");
        reveal_strlit("-n");
        assert("--help"@ =~= help_long());
        assert("-h"@ =~= help_short());
        assert("--dry-run"@ =~= dry_long());
        assert("-n"@ =~= dry_short());
    }
    let hl = String::from_str("--help");
    let hs = String::from_str("-h");
    let dl = String::from_str("--dry-run");
    let ds = String::from_str("-n");
    let mut help = false;
    let mut dry = false;
    let mut i: usize = 0;
    while i < args.len()
        invariant
            i <= args.len(),
            hl@ == help_long(),
            hs@ == help_short(),
            dl@ == dry_long(),
            ds@ == dry_short(),
            help == exists|j: int| 0 <= j < i && is_help_flag(args.deep_view()[j]),
            dry == exists|j: int| 0 <= j < i && is_dry_run_flag(args.deep_view()[j]),
        decreases args.len() - i,
    {
        let a = &args[i];
        if *a == hl || *a == hs {
            help = true;
        }
        if *a == dl || *a == ds {
            dry = true;
        }
        proof {
            assert(args.deep_view()[i as int] == args@[i as int]@);
        }
        i = i + 1;
    }
    CliOptions { help, dry_run: dry }
}

} // verus!
