//! Properties that relate the classifier and the renderer across inputs.

use vstd::prelude::*;
use crate::options::{
    classified, default_options, lemma_flag_texts, lemma_running_scan_shows_operands,
    lemma_scan_stays_stopped, scan, step, EchoOptions, Scan,
};
use crate::render::{
    body, echoed, help_text, joined, rendered, shown, version_text, AUTHOR_LEAD, DESCRIPTION_BODY,
    DESCRIPTION_HEADING, ESCAPES_BODY, ESCAPES_HEADING, HELP_OPENING, OPTIONS_BODY, OPTIONS_HEADING,
    OPTIONS_LEAD, USAGE_HEADING, USAGE_LEAD, USAGE_TAIL,
};

verus! {

/// Whether `w` occurs in `s` as a contiguous run.
pub open spec fn contains(s: Seq<char>, w: Seq<char>) -> bool {
    exists|i: int| 0 <= i && i + w.len() <= s.len() && #[trigger] s.subrange(i, i + w.len()) == w
}

/// With plain options, the output is the operands joined by single spaces
/// and followed by one newline, with nothing else changed.
pub proof fn lemma_plain_output(
    operands: Seq<Seq<char>>,
    name: Seq<char>,
    version: Seq<char>,
    author: Seq<char>,
)
    ensures
        rendered(default_options(), operands, name, version, author) == joined(operands) + seq![
            '\n',
        ],
{
    let o = default_options();
    assert(operands.map_values(|t: Seq<char>| shown(o, t)) =~= operands);
}

/// Tokens of which none starts with a dash are all operands, and the output
/// is those tokens joined by single spaces and followed by one newline.
pub proof fn lemma_plain_tokens(
    args: Seq<Seq<char>>,
    name: Seq<char>,
    version: Seq<char>,
    author: Seq<char>,
)
    requires
        forall|i: int| 0 <= i < args.len() ==> !(args[i].len() > 0 && args[i][0] == '-'),
    ensures
        echoed(args, name, version, author) == joined(args) + seq!['\n'],
{
    lemma_scan_without_dashes(args, args.len());
    assert(args.take(args.len() as int) =~= args);
    lemma_plain_output(args, name, version, author);
}

proof fn lemma_scan_without_dashes(args: Seq<Seq<char>>, k: nat)
    requires
        k <= args.len(),
        forall|i: int| 0 <= i < args.len() ==> !(args[i].len() > 0 && args[i][0] == '-'),
    ensures
        scan(args, k) == (Scan {
            options: default_options(),
            operands: args.take(k as int),
            unknown: Seq::empty(),
            stopped: false,
        }),
    decreases k,
{
    if k > 0 {
        lemma_scan_without_dashes(args, (k - 1) as nat);
        let t = args[k - 1];
        assert(!(t.len() > 0 && t[0] == '-'));
        assert(t != seq!['-', 'n']);
        assert(t != seq!['-', 'e']);
        assert(t != seq!['-', 'v']);
        assert(t != seq!['-', 'h']);
        assert(t != seq!['-', '-', 'h', 'e', 'l', 'p']);
        assert(t != seq!['-', '-', 'v', 'e', 'r', 's', 'i', 'o', 'n']);
        assert(args.take(k - 1).push(t) =~= args.take(k as int));
    } else {
        assert(args.take(0) =~= Seq::<Seq<char>>::empty());
    }
}

/// Rendering depends on its inputs alone: two renderings of the same
/// options, operands and build information are the same text.
pub proof fn lemma_render_repeatable(
    o: EchoOptions,
    operands: Seq<Seq<char>>,
    name: Seq<char>,
    version: Seq<char>,
    author: Seq<char>,
    first: Seq<char>,
    second: Seq<char>,
)
    requires
        first == rendered(o, operands, name, version, author),
        second == rendered(o, operands, name, version, author),
    ensures
        first == second,
{
}

/// Turning the newline off removes exactly the final newline and changes
/// nothing else.
pub proof fn lemma_newline_switch(
    o: EchoOptions,
    operands: Seq<Seq<char>>,
    name: Seq<char>,
    version: Seq<char>,
    author: Seq<char>,
)
    ensures
        rendered(EchoOptions { add_newline_at_end: true, ..o }, operands, name, version, author)
            == rendered(EchoOptions { add_newline_at_end: false, ..o }, operands, name, version, author)
            + seq!['\n'],
{
    let on = EchoOptions { add_newline_at_end: true, ..o };
    let off = EchoOptions { add_newline_at_end: false, ..o };
    assert(operands.map_values(|t: Seq<char>| shown(on, t)) =~= operands.map_values(
        |t: Seq<char>| shown(off, t),
    ));
    assert(rendered(off, operands, name, version, author) =~= body(
        off,
        operands,
        name,
        version,
        author,
    ));
}

/// A scan that has read a leading `-n` is the scan without it, with the
/// newline turned off.
proof fn lemma_scan_after_leading_n(args: Seq<Seq<char>>, k: nat)
    requires
        k <= args.len(),
    ensures
        scan(seq![seq!['-', 'n']] + args, k + 1) == (Scan {
            options: EchoOptions { add_newline_at_end: false, ..scan(args, k).options },
            ..scan(args, k)
        }),
    decreases k,
{
    let c = seq![seq!['-', 'n']] + args;
    if k == 0 {
        assert(c[0] == seq!['-', 'n']);
        assert(scan(c, 0).stopped == false);
    } else {
        lemma_scan_after_leading_n(args, (k - 1) as nat);
        assert(c[k as int] == args[k - 1]);
    }
}

/// A leading `-n` token removes exactly the final newline of the output.
pub proof fn lemma_leading_n(
    args: Seq<Seq<char>>,
    name: Seq<char>,
    version: Seq<char>,
    author: Seq<char>,
)
    requires
        classified(args).options.add_newline_at_end,
    ensures
        echoed(args, name, version, author) == echoed(seq!["-n"@] + args, name, version, author)
            + seq!['\n'],
{
    lemma_flag_texts();
    let c = seq![seq!['-', 'n']] + args;
    assert(seq!["-n"@] + args =~= c);
    lemma_scan_after_leading_n(args, args.len());
    let st = classified(args);
    assert(classified(c) == (Scan {
        options: EchoOptions { add_newline_at_end: false, ..st.options },
        ..st
    }));
    assert(st.options == EchoOptions { add_newline_at_end: true, ..st.options });
    lemma_newline_switch(st.options, st.operands, name, version, author);
}

/// Two tokens that every scan reads alike leave any token list scanned
/// alike when one stands in for the other.
proof fn lemma_same_step_same_scan(
    p: Seq<Seq<char>>,
    t1: Seq<char>,
    t2: Seq<char>,
    q: Seq<Seq<char>>,
    k: nat,
)
    requires
        forall|st: Scan| #[trigger] step(st, t1) == step(st, t2),
        k <= p.len() + 1 + q.len(),
    ensures
        scan(p + seq![t1] + q, k) == scan(p + seq![t2] + q, k),
    decreases k,
{
    if k > 0 {
        lemma_same_step_same_scan(p, t1, t2, q, (k - 1) as nat);
        let a = p + seq![t1] + q;
        let b = p + seq![t2] + q;
        if k - 1 != p.len() {
            assert(a[k - 1] == b[k - 1]);
        } else {
            assert(a[k - 1] == t1);
            assert(b[k - 1] == t2);
        }
    }
}

/// Tokens after a list do not change how the list itself is scanned.
proof fn lemma_scan_prefix(p: Seq<Seq<char>>, x: Seq<Seq<char>>, k: nat)
    requires
        k <= p.len(),
    ensures
        scan(p + x, k) == scan(p, k),
    decreases k,
{
    if k > 0 {
        lemma_scan_prefix(p, x, (k - 1) as nat);
        assert((p + x)[k - 1] == p[k - 1]);
    }
}

/// The output after a stop token `t` that follows `p`, where `p` holds none.
proof fn lemma_stop_token_output(p: Seq<Seq<char>>, t: Seq<char>, q: Seq<Seq<char>>)
    requires
        !classified(p).stopped,
        step(classified(p), t).stopped,
    ensures
        classified(p + seq![t] + q) == step(classified(p), t),
{
    let c = p + seq![t] + q;
    assert(c =~= p + (seq![t] + q));
    lemma_scan_prefix(p, seq![t] + q, p.len());
    assert(c[p.len() as int] == t);
    lemma_scan_stays_stopped(c, p.len() + 1, c.len());
}

/// `--version` and `-v` give the same output wherever they stand; where no
/// version or help token comes before, the output is the version line, and
/// a newline unless `-n` came before.
pub proof fn lemma_version_flags(
    p: Seq<Seq<char>>,
    q: Seq<Seq<char>>,
    name: Seq<char>,
    version: Seq<char>,
    author: Seq<char>,
)
    ensures
        echoed(p + seq!["--version"@] + q, name, version, author) == echoed(
            p + seq!["-v"@] + q,
            name,
            version,
            author,
        ),
        !classified(p).stopped ==> echoed(p + seq!["-v"@] + q, name, version, author)
            == version_text(version) + if classified(p).options.add_newline_at_end {
            seq!['\n']
        } else {
            Seq::empty()
        },
{
    lemma_flag_texts();
    assert forall|st: Scan| #[trigger] step(st, "--version"@) == step(st, "-v"@) by {}
    let len = p.len() + 1 + q.len();
    lemma_same_step_same_scan(p, "--version"@, "-v"@, q, len);
    assert((p + seq!["--version"@] + q).len() == len);
    if !classified(p).stopped {
        lemma_stop_token_output(p, "-v"@, q);
    }
}

/// `--help` and `-h` give the same output wherever they stand; where no
/// version or help token comes before, the output is the help text, and a
/// newline unless `-n` came before.
pub proof fn lemma_help_flags(
    p: Seq<Seq<char>>,
    q: Seq<Seq<char>>,
    name: Seq<char>,
    version: Seq<char>,
    author: Seq<char>,
)
    ensures
        echoed(p + seq!["--help"@] + q, name, version, author) == echoed(
            p + seq!["-h"@] + q,
            name,
            version,
            author,
        ),
        !classified(p).stopped ==> echoed(p + seq!["-h"@] + q, name, version, author)
            == help_text(name, version, author) + if classified(p).options.add_newline_at_end {
            seq!['\n']
        } else {
            Seq::empty()
        },
{
    lemma_flag_texts();
    assert forall|st: Scan| #[trigger] step(st, "--help"@) == step(st, "-h"@) by {}
    let len = p.len() + 1 + q.len();
    lemma_same_step_same_scan(p, "--help"@, "-h"@, q, len);
    assert((p + seq!["--help"@] + q).len() == len);
    if !classified(p).stopped {
        lemma_stop_token_output(p, "-h"@, q);
        lemma_running_scan_shows_operands(p, p.len());
    }
}

/// The help text holds each of its section headings.
pub proof fn lemma_help_headings(name: Seq<char>, version: Seq<char>, author: Seq<char>)
    ensures
        contains(help_text(name, version, author), "DESCRIPTION:"@),
        contains(help_text(name, version, author), "USAGE:"@),
        contains(help_text(name, version, author), "OPTIONS:"@),
        contains(help_text(name, version, author), "ESCAPED SEQUENCES:"@),
{
    let h = help_text(name, version, author);
    let d = HELP_OPENING@;
    let u = d + DESCRIPTION_HEADING@ + DESCRIPTION_BODY@;
    let o = u + USAGE_HEADING@ + USAGE_LEAD@ + name + USAGE_TAIL@ + version_text(version)
        + AUTHOR_LEAD@ + author + OPTIONS_LEAD@;
    let e = o + OPTIONS_HEADING@ + OPTIONS_BODY@;
    let tail_e = ESCAPES_BODY@;
    let tail_o = OPTIONS_BODY@ + ESCAPES_HEADING@ + tail_e;
    let tail_u = USAGE_LEAD@ + name + USAGE_TAIL@ + version_text(version) + AUTHOR_LEAD@ + author
        + OPTIONS_LEAD@ + OPTIONS_HEADING@ + tail_o;
    let tail_d = DESCRIPTION_BODY@ + USAGE_HEADING@ + tail_u;
    assert(h =~= d + DESCRIPTION_HEADING@ + tail_d);
    assert(h =~= u + USAGE_HEADING@ + tail_u);
    assert(h =~= o + OPTIONS_HEADING@ + tail_o);
    assert(h =~= e + ESCAPES_HEADING@ + tail_e);
    lemma_occurs_after(d, DESCRIPTION_HEADING@, tail_d);
    lemma_occurs_after(u, USAGE_HEADING@, tail_u);
    lemma_occurs_after(o, OPTIONS_HEADING@, tail_o);
    lemma_occurs_after(e, ESCAPES_HEADING@, tail_e);
}

/// A run between a prefix and a suffix occurs in the whole.
proof fn lemma_occurs_after(a: Seq<char>, w: Seq<char>, b: Seq<char>)
    ensures
        contains(a + w + b, w),
{
    let s = a + w + b;
    let i = a.len() as int;
    assert(s.subrange(i, i + w.len()) =~= w);
}

} // verus!
