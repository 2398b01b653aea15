//! The options record that the command-line tokens select.

use vstd::prelude::*;
use vstd::string::StringExecFns;
use crate::text::{same_text, starts_with_dash};

verus! {

/// The switches that govern one rendering.
#[derive(Clone, Copy, Debug, PartialEq, Eq, Structural)]
pub struct EchoOptions {
    /// Emit a trailing newline after the body.
    pub add_newline_at_end: bool,
    /// Decode backslash escapes inside the operands.
    pub interpret_escaped_characters: bool,
    /// Print the help text instead of the operands.
    pub show_help_info: bool,
    /// Print the version line instead of the operands.
    pub show_version_info: bool,
}

/// The options in force before any token is read.
pub open spec fn default_options() -> EchoOptions {
    EchoOptions {
        add_newline_at_end: true,
        interpret_escaped_characters: false,
        show_help_info: false,
        show_version_info: false,
    }
}

impl EchoOptions {
    pub fn new() -> (r: EchoOptions)
        ensures
            r == default_options(),
    {
        EchoOptions {
            add_newline_at_end: true,
            interpret_escaped_characters: false,
            show_help_info: false,
            show_version_info: false,
        }
    }
}

/// The characters of each string, in order.
pub open spec fn texts(v: Seq<String>) -> Seq<Seq<char>> {
    v.map_values(|s: String| s@)
}

/// How far a scan of the tokens has come.
pub struct Scan {
    /// The options selected so far.
    pub options: EchoOptions,
    /// The operands collected so far, in order.
    pub operands: Seq<Seq<char>>,
    /// The dash tokens that name no option, in order.
    pub unknown: Seq<Seq<char>>,
    /// Whether a version or help token ended the scan.
    pub stopped: bool,
}

pub open spec fn is_version_token(t: Seq<char>) -> bool {
    t == seq!['-', '-', 'v', 'e', 'r', 's', 'i', 'o', 'n'] || t == seq!['-', 'v']
}

pub open spec fn is_help_token(t: Seq<char>) -> bool {
    t == seq!['-', '-', 'h', 'e', 'l', 'p'] || t == seq!['-', 'h']
}

/// Whether the token ends the scan.
pub open spec fn is_stop_token(t: Seq<char>) -> bool {
    is_version_token(t) || is_help_token(t)
}

/// The scan after reading one more token.
pub open spec fn step(st: Scan, t: Seq<char>) -> Scan {
    if t == seq!['-', 'n'] {
        Scan { options: EchoOptions { add_newline_at_end: false, ..st.options }, ..st }
    } else if t == seq!['-', 'e'] {
        Scan { options: EchoOptions { interpret_escaped_characters: true, ..st.options }, ..st }
    } else if is_version_token(t) {
        Scan {
            options: EchoOptions { show_version_info: true, ..st.options },
            stopped: true,
            ..st
        }
    } else if is_help_token(t) {
        Scan { options: EchoOptions { show_help_info: true, ..st.options }, stopped: true, ..st }
    } else if t.len() > 0 && t[0] == '-' {
        Scan { unknown: st.unknown.push(t), ..st }
    } else {
        Scan { operands: st.operands.push(t), ..st }
    }
}

/// The scan after the first `k` tokens of `args`; once stopped it reads no
/// further.
pub open spec fn scan(args: Seq<Seq<char>>, k: nat) -> Scan
    decreases k,
{
    if k == 0 {
        Scan {
            options: default_options(),
            operands: Seq::empty(),
            unknown: Seq::empty(),
            stopped: false,
        }
    } else {
        let prev = scan(args, (k - 1) as nat);
        if prev.stopped {
            prev
        } else {
            step(prev, args[k - 1])
        }
    }
}

/// The result of classifying the whole token list.
pub open spec fn classified(args: Seq<Seq<char>>) -> Scan {
    scan(args, args.len())
}

/// Once a scan has stopped, later tokens change nothing.
pub proof fn lemma_scan_stays_stopped(args: Seq<Seq<char>>, k: nat, j: nat)
    requires
        k <= j,
        scan(args, k).stopped,
    ensures
        scan(args, j) == scan(args, k),
    decreases j - k,
{
    if j > k {
        lemma_scan_stays_stopped(args, k, (j - 1) as nat);
    }
}

/// Until a scan stops, neither the version line nor the help text is asked
/// for.
pub proof fn lemma_running_scan_shows_operands(args: Seq<Seq<char>>, k: nat)
    requires
        !scan(args, k).stopped,
    ensures
        !scan(args, k).options.show_version_info,
        !scan(args, k).options.show_help_info,
    decreases k,
{
    if k > 0 {
        lemma_running_scan_shows_operands(args, (k - 1) as nat);
    }
}

/// The characters of the option tokens.
pub proof fn lemma_flag_texts()
    ensures
        "-n"@ == seq!['-', 'n'],
        "-e"@ == seq!['-', 'e'],
        "--version"@ == seq!['-', '-', 'v', 'e', 'r', 's', 'i', 'o', 'n'],
        "-v"@ == seq!['-', 'v'],
        "--help"@ == seq!['-', '-', 'h', 'e', 'l', 'p'],
        "-h"@ == seq!['-', 'h'],
{
    reveal_strlit("-n");
    reveal_strlit("-e");
    reveal_strlit("--version");
    reveal_strlit("-v");
    reveal_strlit("--help");
    reveal_strlit("-h");
    assert("-n"@ =~= seq!['-', 'n']);
    assert("-e"@ =~= seq!['-', 'e']);
    assert("--version"@ =~= seq!['-', '-', 'v', 'e', 'r', 's', 'i', 'o', 'n']);
    assert("-v"@ =~= seq!['-', 'v']);
    assert("--help"@ =~= seq!['-', '-', 'h', 'e', 'l', 'p']);
    assert("-h"@ =~= seq!['-', 'h']);
}

/// Reads the tokens (without the program name) left to right and returns
/// the options, the operands in order, and the dash tokens that name no
/// option. A version or help token ends the scan; later tokens are ignored.
pub fn process_args(v: &Vec<String>) -> (r: (EchoOptions, Vec<String>, Vec<String>))
    ensures
        r.0 == classified(texts(v@)).options,
        texts(r.1@) == classified(texts(v@)).operands,
        texts(r.2@) == classified(texts(v@)).unknown,
{
    let ghost args = texts(v@);
    let mut o = EchoOptions::new();
    let mut operands: Vec<String> = Vec::new();
    let mut unknown: Vec<String> = Vec::new();
    let mut i: usize = 0;
    proof {
        lemma_flag_texts();
    }
    while i < v.len()
        invariant_except_break
            !scan(args, i as nat).stopped,
            o == scan(args, i as nat).options,
            texts(operands@) == scan(args, i as nat).operands,
            texts(unknown@) == scan(args, i as nat).unknown,
        invariant
            args == texts(v@),
            i <= v.len(),
            "-n"@ == seq!['-', 'n'],
            "-e"@ == seq!['-', 'e'],
            "--version"@ == seq!['-', '-', 'v', 'e', 'r', 's', 'i', 'o', 'n'],
            "-v"@ == seq!['-', 'v'],
            "--help"@ == seq!['-', '-', 'h', 'e', 'l', 'p'],
            "-h"@ == seq!['-', 'h'],
        ensures
            o == classified(args).options,
            texts(operands@) == classified(args).operands,
            texts(unknown@) == classified(args).unknown,
        decreases v.len() - i,
    {
        let a = v[i].as_str();
        assert(a@ == args[i as int]);
        if same_text(a, "-n") {
            o.add_newline_at_end = false;
        } else if same_text(a, "-e") {
            o.interpret_escaped_characters = true;
        } else if same_text(a, "--version") || same_text(a, "-v") {
            o.show_version_info = true;
            proof {
                lemma_scan_stays_stopped(args, (i + 1) as nat, args.len());
            }
            break;
        } else if same_text(a, "--help") || same_text(a, "-h") {
            o.show_help_info = true;
            proof {
                lemma_scan_stays_stopped(args, (i + 1) as nat, args.len());
            }
            break;
        } else if starts_with_dash(a) {
            unknown.push(v[i].clone());
            assert(texts(unknown@) =~= scan(args, (i + 1) as nat).unknown);
        } else {
            operands.push(v[i].clone());
            assert(texts(operands@) =~= scan(args, (i + 1) as nat).operands);
        }
        i = i + 1;
    }
    (o, operands, unknown)
}

pub const UNKNOWN_OPTION_PREFIX: &'static str = "Ignoring unknown option: ";

/// The diagnostic line for a dash token that names no option.
pub fn unknown_option_message(token: &str) -> (r: String)
    ensures
        r@ == UNKNOWN_OPTION_PREFIX@ + token@,
{
    let mut s = String::from_str(UNKNOWN_OPTION_PREFIX);
    s.append(token);
    s
}

} // verus!
