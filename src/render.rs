//! The text that one invocation writes: the version line, the help text, or
//! the operands joined by spaces, each followed by an optional newline.

use vstd::prelude::*;
use vstd::string::StringExecFns;
use crate::escape::{decoded, push_decoded};
use crate::options::{classified, process_args, texts, EchoOptions};

verus! {

/// The program name, version and author that the build supplies.
pub struct BuildInfo {
    pub name: String,
    pub version: String,
    pub author: String,
}

pub const VERSION_PREFIX: &'static str = "Version ";

pub const HELP_OPENING: &'static str = "\n        ";

pub const DESCRIPTION_HEADING: &'static str = "DESCRIPTION:";

pub const DESCRIPTION_BODY: &'static str =
    "\n        Print Strings passed as arguments to the standard output.\n\n        ";

pub const USAGE_HEADING: &'static str = "USAGE:";

pub const USAGE_LEAD: &'static str = "\n        ";

pub const USAGE_TAIL: &'static str = " [OPTION] ... [STRING] ...\n\n        VERSION:\n        ";

pub const AUTHOR_LEAD: &'static str = "\n\n        AUTHOR:\n        ";

pub const OPTIONS_LEAD: &'static str = "\n\n        ";

pub const OPTIONS_HEADING: &'static str = "OPTIONS:";

pub const OPTIONS_BODY: &'static str = "\n         -n         Don't add newline at the end of the output (default is to add the line).\n         -e         Process escaped sequences (default is to ignore).\n         --version  Show installed version of the program.\n         --help     Display this help message.\n\n        ";

pub const ESCAPES_HEADING: &'static str = "ESCAPED SEQUENCES:";

pub const ESCAPES_BODY: &'static str = "\n            \\\\      backslash\n            \\a      alert (BEL)\n            \\b      backspace\n            \\c      produce no further output\n            \\e      escape\n            \\f      form feed\n            \\n      new line\n            \\r      carriage return\n            \\t      horizontal tab\n            \\v      vertical tab\n            \\0NNN   byte with octal value NNN (1 to 3 digits)\n            \\xHH    byte with hexadecimal value HH (1 to 2 digits)\n        ";

/// The version line.
pub open spec fn version_text(version: Seq<char>) -> Seq<char> {
    VERSION_PREFIX@ + version
}

/// The help text, with the program name, the version line and the author
/// filled in.
pub open spec fn help_text(name: Seq<char>, version: Seq<char>, author: Seq<char>) -> Seq<char> {
    HELP_OPENING@ + DESCRIPTION_HEADING@ + DESCRIPTION_BODY@ + USAGE_HEADING@ + USAGE_LEAD@ + name
        + USAGE_TAIL@ + version_text(version) + AUTHOR_LEAD@ + author + OPTIONS_LEAD@
        + OPTIONS_HEADING@ + OPTIONS_BODY@ + ESCAPES_HEADING@ + ESCAPES_BODY@
}

/// The texts joined with one space between neighbours.
pub open spec fn joined(ts: Seq<Seq<char>>) -> Seq<char>
    decreases ts.len(),
{
    if ts.len() == 0 {
        Seq::empty()
    } else if ts.len() == 1 {
        ts[0]
    } else {
        joined(ts.drop_last()) + seq![' '] + ts.last()
    }
}

/// How one operand appears in the output.
pub open spec fn shown(o: EchoOptions, t: Seq<char>) -> Seq<char> {
    if o.interpret_escaped_characters {
        decoded(t)
    } else {
        t
    }
}

/// The output before the optional newline: the version line takes precedence
/// over the help text, which takes precedence over the operands.
pub open spec fn body(
    o: EchoOptions,
    operands: Seq<Seq<char>>,
    name: Seq<char>,
    version: Seq<char>,
    author: Seq<char>,
) -> Seq<char> {
    if o.show_version_info {
        version_text(version)
    } else if o.show_help_info {
        help_text(name, version, author)
    } else {
        joined(operands.map_values(|t: Seq<char>| shown(o, t)))
    }
}

/// The whole output for the given options and operands.
pub open spec fn rendered(
    o: EchoOptions,
    operands: Seq<Seq<char>>,
    name: Seq<char>,
    version: Seq<char>,
    author: Seq<char>,
) -> Seq<char> {
    body(o, operands, name, version, author) + if o.add_newline_at_end {
        seq!['\n']
    } else {
        Seq::empty()
    }
}

/// The whole output for a list of command-line tokens.
pub open spec fn echoed(
    args: Seq<Seq<char>>,
    name: Seq<char>,
    version: Seq<char>,
    author: Seq<char>,
) -> Seq<char> {
    rendered(classified(args).options, classified(args).operands, name, version, author)
}

/// The version line.
pub fn print_version_info(info: &BuildInfo) -> (r: String)
    ensures
        r@ == version_text(info.version@),
{
    let mut s = String::from_str(VERSION_PREFIX);
    s.append(info.version.as_str());
    s
}

/// The help text.
pub fn print_help_info(info: &BuildInfo) -> (r: String)
    ensures
        r@ == help_text(info.name@, info.version@, info.author@),
{
    let mut s = String::from_str(HELP_OPENING);
    s.append(DESCRIPTION_HEADING);
    s.append(DESCRIPTION_BODY);
    s.append(USAGE_HEADING);
    s.append(USAGE_LEAD);
    s.append(info.name.as_str());
    s.append(USAGE_TAIL);
    let v = print_version_info(info);
    s.append(v.as_str());
    s.append(AUTHOR_LEAD);
    s.append(info.author.as_str());
    s.append(OPTIONS_LEAD);
    s.append(OPTIONS_HEADING);
    s.append(OPTIONS_BODY);
    s.append(ESCAPES_HEADING);
    s.append(ESCAPES_BODY);
    s
}

/// Appends the operands to `out`, one space between neighbours, each decoded
/// when the options ask for it.
fn push_operands(out: &mut String, o: &EchoOptions, operands: &Vec<String>)
    ensures
        final(out)@ == old(out)@ + joined(texts(operands@).map_values(|t: Seq<char>| shown(*o, t))),
{
    let ghost start = out@;
    let ghost all = texts(operands@).map_values(|t: Seq<char>| shown(*o, t));
    let mut i: usize = 0;
    while i < operands.len()
        invariant
            i <= operands.len(),
            start == old(out)@,
            all == texts(operands@).map_values(|t: Seq<char>| shown(*o, t)),
            out@ == start + joined(all.take(i as int)),
        decreases operands.len() - i,
    {
        let ghost before = out@;
        if i > 0 {
            out.push(' ');
        }
        if o.interpret_escaped_characters {
            push_decoded(out, operands[i].as_str());
        } else {
            out.append(operands[i].as_str());
        }
        proof {
            let next = all.take(i + 1);
            assert(next.drop_last() =~= all.take(i as int));
            assert(all[i as int] == shown(*o, operands@[i as int]@));
            assert(out@ =~= start + joined(next));
        }
        i = i + 1;
    }
    assert(all.take(operands.len() as int) =~= all);
}

/// The whole output for the given options and operands.
pub fn render(o: &EchoOptions, operands: &Vec<String>, info: &BuildInfo) -> (r: String)
    ensures
        r@ == rendered(*o, texts(operands@), info.name@, info.version@, info.author@),
{
    let mut s = String::new();
    if o.show_version_info {
        let v = print_version_info(info);
        s.append(v.as_str());
    } else if o.show_help_info {
        let h = print_help_info(info);
        s.append(h.as_str());
    } else {
        push_operands(&mut s, o, operands);
    }
    if o.add_newline_at_end {
        s.push('\n');
    }
    assert(s@ =~= rendered(*o, texts(operands@), info.name@, info.version@, info.author@));
    s
}

/// Classifies the command-line tokens (without the program name) and
/// renders the output they ask for.
pub fn echo(args: &Vec<String>, info: &BuildInfo) -> (r: String)
    ensures
        r@ == echoed(texts(args@), info.name@, info.version@, info.author@),
{
    let (o, operands, _unknown) = process_args(args);
    render(&o, &operands, info)
}

} // verus!
