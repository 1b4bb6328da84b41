//! Chain-wide laws of rendering and root-cause lookup.

use crate::decimal::dec_str;
use crate::decimal::digit_char;
use crate::report::arrow_seq;
use crate::report::depth;
use crate::report::frame_prefix;
use crate::report::render_seq;
use crate::report::root_cause;
use crate::report::same_component;
use crate::report::tag_seq;
use crate::report::Cause;
use crate::report::Report;
use crate::report::TagPolicy;
use crate::report::TerminalError;
use vstd::prelude::*;

verus! {

/// How many times `c` occurs in `s`.
pub open spec fn count_char(s: Seq<char>, c: char) -> nat
    decreases s.len(),
{
    if s.len() == 0 {
        0
    } else {
        count_char(s.drop_last(), c) + (if s.last() == c {
            1nat
        } else {
            0nat
        })
    }
}

/// Occurrence counts add over concatenation.
pub proof fn lemma_count_char_concat(a: Seq<char>, b: Seq<char>, c: char)
    ensures
        count_char(a + b, c) == count_char(a, c) + count_char(b, c),
    decreases b.len(),
{
    if b.len() == 0 {
        assert(a + b =~= a);
    } else {
        lemma_count_char_concat(a, b.drop_last(), c);
        assert((a + b).drop_last() =~= a + b.drop_last());
    }
}

/// Occurrence count in a one-character sequence.
pub proof fn lemma_count_char_one(x: char, c: char)
    ensures
        count_char(seq![x], c) == (if x == c {
            1nat
        } else {
            0nat
        }),
{
    assert(count_char(Seq::<char>::empty(), c) == 0);
    assert(seq![x].drop_last() =~= Seq::<char>::empty());
    assert(seq![x].last() == x);
}

/// A character that is no decimal digit never occurs in a number's base-ten
/// notation.
pub proof fn lemma_dec_str_free(n: nat, c: char)
    requires
        forall|d: nat| d < 10 ==> c != digit_char(d),
    ensures
        count_char(dec_str(n), c) == 0,
    decreases n,
{
    if n < 10 {
        lemma_count_char_one(digit_char(n), c);
    } else {
        lemma_dec_str_free(n / 10, c);
        lemma_count_char_concat(dec_str(n / 10), seq![digit_char(n % 10)], c);
        lemma_count_char_one(digit_char(n % 10), c);
    }
}

/// `c` occurs nowhere in the strings the chain carries: no component name,
/// version or file, and no terminal failure's display or debug form.
pub open spec fn chain_free_of(r: Report, c: char) -> bool
    decreases r,
{
    count_char(r.pkg_name@, c) == 0 && count_char(r.pkg_version@, c) == 0 && count_char(
        r.file@,
        c,
    ) == 0 && match r.err {
        Cause::Frame(inner) => chain_free_of(*inner, c),
        Cause::Terminal(t) => count_char(t.display@, c) == 0 && count_char(t.debug@, c) == 0,
    }
}

/// How often `c` occurs in the component tag `{name@version} `.
pub proof fn lemma_count_tag(name: Seq<char>, version: Seq<char>, c: char)
    requires
        count_char(name, c) == 0,
        count_char(version, c) == 0,
        c != '@' && c != '}' && c != ' ',
    ensures
        count_char(tag_seq(name, version), c) == (if c == '{' {
            1nat
        } else {
            0nat
        }),
{
    assert(seq!['}', ' '] =~= seq!['}'] + seq![' ']);
    lemma_count_char_one('{', c);
    lemma_count_char_one('@', c);
    lemma_count_char_one('}', c);
    lemma_count_char_one(' ', c);
    lemma_count_char_concat(seq!['}'], seq![' '], c);
    lemma_count_char_concat(seq!['{'], name, c);
    lemma_count_char_concat(seq!['{'] + name, seq!['@'], c);
    lemma_count_char_concat(seq!['{'] + name + seq!['@'], version, c);
    lemma_count_char_concat(seq!['{'] + name + seq!['@'] + version, seq!['}', ' '], c);
}

/// How often `c` occurs in one frame's prefix (tag, file, colon, line
/// number, arrow), for a `c` outside the digits and the frame's own strings.
pub proof fn lemma_count_prefix(r: Report, tagged: bool, c: char)
    requires
        count_char(r.pkg_name@, c) == 0,
        count_char(r.pkg_version@, c) == 0,
        count_char(r.file@, c) == 0,
        forall|d: nat| d < 10 ==> c != digit_char(d),
        c != '@' && c != '}' && c != ' ' && c != ':' && c != '-',
    ensures
        count_char(frame_prefix(r, tagged), c) == (if c == '{' && tagged {
            1nat
        } else {
            0nat
        }) + (if c == '>' {
            1nat
        } else {
            0nat
        }),
{
    let head: Seq<char> = if tagged {
        tag_seq(r.pkg_name@, r.pkg_version@)
    } else {
        Seq::<char>::empty()
    };
    if tagged {
        lemma_count_tag(r.pkg_name@, r.pkg_version@, c);
    }
    lemma_dec_str_free(r.line as nat, c);
    assert(arrow_seq() =~= seq![' '] + seq!['-'] + seq!['>'] + seq![' ']);
    lemma_count_char_one(' ', c);
    lemma_count_char_one('-', c);
    lemma_count_char_one('>', c);
    lemma_count_char_one(':', c);
    lemma_count_char_concat(seq![' '], seq!['-'], c);
    lemma_count_char_concat(seq![' '] + seq!['-'], seq!['>'], c);
    lemma_count_char_concat(seq![' '] + seq!['-'] + seq!['>'], seq![' '], c);
    lemma_count_char_concat(head, r.file@, c);
    lemma_count_char_concat(head + r.file@, seq![':'], c);
    lemma_count_char_concat(head + r.file@ + seq![':'], dec_str(r.line as nat), c);
    lemma_count_char_concat(
        head + r.file@ + seq![':'] + dec_str(r.line as nat),
        arrow_seq(),
        c,
    );
}

/// *Chain length matches wrap count.*  A chain of N frames renders with
/// exactly N separators: each separator `" -> "` contributes the rendering's
/// only `'>'` characters, provided none of the chain's own strings contains
/// `'>'`.
pub proof fn lemma_arrow_count(r: Report, verbose: bool, tagged: bool, policy: TagPolicy)
    requires
        chain_free_of(r, '>'),
    ensures
        count_char(render_seq(r, verbose, tagged, policy), '>') == depth(r),
    decreases r,
{
    lemma_count_prefix(r, tagged, '>');
    match r.err {
        Cause::Frame(inner) => {
            let inner_tagged = policy is OnTransition && !same_component(r, *inner);
            lemma_arrow_count(*inner, verbose, inner_tagged, policy);
            lemma_count_char_concat(
                frame_prefix(r, tagged),
                render_seq(*inner, verbose, inner_tagged, policy),
                '>',
            );
        },
        Cause::Terminal(t) => {
            lemma_count_char_concat(
                frame_prefix(r, tagged),
                if verbose {
                    t.debug@
                } else {
                    t.display@
                },
                '>',
            );
        },
    }
}

/// How many component transitions the chain contains: nested frames whose
/// identity differs from their immediate parent's.
pub open spec fn transition_count(r: Report) -> nat
    decreases r,
{
    match r.err {
        Cause::Frame(inner) => (if same_component(r, *inner) {
            0nat
        } else {
            1nat
        }) + transition_count(*inner),
        Cause::Terminal(_) => 0,
    }
}

/// *One tag per component run.*  Provided none of the chain's own strings
/// contains `'{'`: under the outermost-only policy a rendering tagged at the
/// head contains exactly one `{..}` tag, and under the transition-aware
/// policy exactly one tag per component transition plus one for the head.
pub proof fn lemma_tag_count(r: Report, verbose: bool, tagged: bool, policy: TagPolicy)
    requires
        chain_free_of(r, '{'),
    ensures
        policy is OutermostOnly ==> count_char(render_seq(r, verbose, tagged, policy), '{') == (
        if tagged {
            1nat
        } else {
            0nat
        }),
        policy is OnTransition ==> count_char(render_seq(r, verbose, tagged, policy), '{') == (
        if tagged {
            1nat
        } else {
            0nat
        }) + transition_count(r),
    decreases r,
{
    lemma_count_prefix(r, tagged, '{');
    match r.err {
        Cause::Frame(inner) => {
            let inner_tagged = policy is OnTransition && !same_component(r, *inner);
            lemma_tag_count(*inner, verbose, inner_tagged, policy);
            lemma_count_char_concat(
                frame_prefix(r, tagged),
                render_seq(*inner, verbose, inner_tagged, policy),
                '{',
            );
        },
        Cause::Terminal(t) => {
            lemma_count_char_concat(
                frame_prefix(r, tagged),
                if verbose {
                    t.debug@
                } else {
                    t.display@
                },
                '{',
            );
        },
    }
}

/// *Idempotent root cause.*  Wrapping a chain in one more frame never
/// changes its root cause, and a frame around a terminal failure has that
/// failure as its root cause; so however many times a terminal failure is
/// wrapped, root-cause lookup returns exactly it.
pub proof fn lemma_wrap_preserves_root_cause(
    pkg_name: String,
    pkg_version: String,
    file: String,
    line: u32,
    cause: Cause,
)
    ensures
        cause matches Cause::Frame(inner) ==> root_cause(
            (Report { pkg_name, pkg_version, file, line, err: cause }),
        ) == root_cause(*inner),
        cause matches Cause::Terminal(t) ==> root_cause(
            (Report { pkg_name, pkg_version, file, line, err: cause }),
        ) == t,
{
}

/// Wrapping a chain in one more frame lengthens it by exactly one.
pub proof fn lemma_wrap_extends_depth(
    pkg_name: String,
    pkg_version: String,
    file: String,
    line: u32,
    cause: Cause,
)
    ensures
        cause matches Cause::Frame(inner) ==> depth(
            (Report { pkg_name, pkg_version, file, line, err: cause }),
        ) == depth(*inner) + 1,
        cause matches Cause::Terminal(t) ==> depth(
            (Report { pkg_name, pkg_version, file, line, err: cause }),
        ) == 1,
{
}

/// *Outermost tag only for a one-component chain.*  A frame wrapping a
/// same-component frame wrapping a terminal failure renders, terse and
/// transition-aware, as the outer tag, the two call sites and the failure's
/// display form — the inner frame repeats no tag.
pub proof fn lemma_same_component_render(outer: Report, inner: Report, t: TerminalError)
    requires
        outer.err matches Cause::Frame(b) && *b == inner,
        inner.err == Cause::Terminal(t),
        same_component(outer, inner),
    ensures
        render_seq(outer, false, true, TagPolicy::OnTransition) == tag_seq(
            outer.pkg_name@,
            outer.pkg_version@,
        ) + outer.file@ + seq![':'] + dec_str(outer.line as nat) + arrow_seq() + inner.file@
            + seq![':'] + dec_str(inner.line as nat) + arrow_seq() + t.display@,
{
    assert(render_seq(inner, false, false, TagPolicy::OnTransition) == frame_prefix(inner, false)
        + t.display@);
    assert(render_seq(outer, false, true, TagPolicy::OnTransition) == frame_prefix(outer, true)
        + render_seq(inner, false, false, TagPolicy::OnTransition));
    assert(render_seq(outer, false, true, TagPolicy::OnTransition) =~= tag_seq(
        outer.pkg_name@,
        outer.pkg_version@,
    ) + outer.file@ + seq![':'] + dec_str(outer.line as nat) + arrow_seq() + inner.file@
        + seq![':'] + dec_str(inner.line as nat) + arrow_seq() + t.display@);
}

/// *Cross-component tagging.*  A frame wrapping a frame from a different
/// component renders, transition-aware, with a fresh tag before the inner
/// frame's call site.
pub proof fn lemma_cross_component_render(outer: Report, inner: Report, t: TerminalError)
    requires
        outer.err matches Cause::Frame(b) && *b == inner,
        inner.err == Cause::Terminal(t),
        !same_component(outer, inner),
    ensures
        render_seq(outer, false, true, TagPolicy::OnTransition) == tag_seq(
            outer.pkg_name@,
            outer.pkg_version@,
        ) + outer.file@ + seq![':'] + dec_str(outer.line as nat) + arrow_seq() + tag_seq(
            inner.pkg_name@,
            inner.pkg_version@,
        ) + inner.file@ + seq![':'] + dec_str(inner.line as nat) + arrow_seq() + t.display@,
{
    assert(render_seq(inner, false, true, TagPolicy::OnTransition) == frame_prefix(inner, true)
        + t.display@);
    assert(render_seq(outer, false, true, TagPolicy::OnTransition) == frame_prefix(outer, true)
        + render_seq(inner, false, true, TagPolicy::OnTransition));
    assert(render_seq(outer, false, true, TagPolicy::OnTransition) =~= tag_seq(
        outer.pkg_name@,
        outer.pkg_version@,
    ) + outer.file@ + seq![':'] + dec_str(outer.line as nat) + arrow_seq() + tag_seq(
        inner.pkg_name@,
        inner.pkg_version@,
    ) + inner.file@ + seq![':'] + dec_str(inner.line as nat) + arrow_seq() + t.display@);
}

/// *No mutation.*  Rendering and root-cause lookup are functions of the
/// chain alone: any two renderings of one chain under one mode and policy
/// agree, and so do any two root-cause lookups.
pub proof fn lemma_traversals_pure(
    r: Report,
    verbose: bool,
    policy: TagPolicy,
    s1: Seq<char>,
    s2: Seq<char>,
    t1: TerminalError,
    t2: TerminalError,
)
    requires
        s1 == render_seq(r, verbose, true, policy),
        s2 == render_seq(r, verbose, true, policy),
        t1 == root_cause(r),
        t2 == root_cause(r),
    ensures
        s1 == s2,
        t1 == t2,
{
}

} // verus!
