//! Selection of the session's operating mode from the command line.
//!
//! The first argument after the program name picks the mode: a `cap`
//! prefix selects capture, a `play` prefix selects playout, and
//! otherwise a `440` or `880` substring selects one of the two
//! calibration tones.  Anything else, or no argument at all, falls back
//! to capture.

use crate::strutil::contains_seq;
use crate::strutil::str_contains;
use crate::strutil::str_starts_with;
use vstd::prelude::*;

verus! {

/// The mode that a given argument list selects, by the precedence
/// above.
pub open spec fn selected_mode(args: Seq<Seq<char>>) -> Seq<char> {
    if args.len() > 1 {
        let a = args[1];
        if "cap"@.is_prefix_of(a) {
            "capture"@
        } else if "play"@.is_prefix_of(a) {
            "playout"@
        } else if contains_seq(a, "440"@) {
            "sine440"@
        } else if contains_seq(a, "880"@) {
            "sine880"@
        } else {
            "capture"@
        }
    } else {
        "capture"@
    }
}

/// Picks the operating mode named by the command-line arguments.
pub fn mom_mode_from_cli_args(cli_args: &Vec<String>) -> (mode: &'static str)
    ensures
        mode@ == selected_mode(cli_args.deep_view()),
{
    let mut mode: &'static str = "capture";
    if cli_args.len() > 1 {
        let arg: &str = cli_args[1].as_str();
        if str_starts_with(arg, "cap") {
            mode = "capture";
        } else if str_starts_with(arg, "play") {
            mode = "playout";
        } else if str_contains(arg, "440") {
            mode = "sine440";
        } else if str_contains(arg, "880") {
            mode = "sine880";
        }
    }
    mode
}

} // verus!
