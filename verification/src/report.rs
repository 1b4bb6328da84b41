//! The annotated-error chain: frames, rendering, root-cause lookup, wrapping.
//!
//! A [`Report`] is one frame: the identity of the component that wrapped the
//! failure, the call site of the wrap, and the wrapped cause.  The cause is
//! either another frame (the chain continues) or a terminal failure (the
//! chain ends).  Rendering linearizes the chain outermost-first; root-cause
//! lookup walks past every frame to the terminal failure.

use crate::decimal::dec_str;
use crate::decimal::u32_to_dec;
use vstd::prelude::*;
use vstd::string::StringExecFns;

verus! {

/// A terminal failure: the true root of a chain, described by its
/// user-facing display form and its diagnostic debug form.
pub struct TerminalError {
    pub display: String,
    pub debug: String,
}

/// What a frame wraps: either a nested frame or a terminal failure.
pub enum Cause {
    Frame(Box<Report>),
    Terminal(TerminalError),
}

/// One annotation frame: the component that performed the wrap, the call
/// site where it happened, and the wrapped cause.
pub struct Report {
    pub pkg_name: String,
    pub pkg_version: String,
    pub file: String,
    pub line: u32,
    pub err: Cause,
}

/// Where the renderer prints a `{name@version}` component tag.
#[derive(Clone, Copy)]
pub enum TagPolicy {
    /// Only the outermost frame is tagged.
    OutermostOnly,
    /// The outermost frame is tagged, and so is every frame whose component
    /// identity differs from its immediate parent's.
    OnTransition,
}

/// The number of frames in the chain.
pub open spec fn depth(r: Report) -> nat
    decreases r,
{
    match r.err {
        Cause::Frame(inner) => 1 + depth(*inner),
        Cause::Terminal(_) => 1,
    }
}

/// The first non-frame failure in the chain.
pub open spec fn root_cause(r: Report) -> TerminalError
    decreases r,
{
    match r.err {
        Cause::Frame(inner) => root_cause(*inner),
        Cause::Terminal(t) => t,
    }
}

/// The component tag printed before a tagged frame: `{name@version} `.
pub open spec fn tag_seq(name: Seq<char>, version: Seq<char>) -> Seq<char> {
    seq!['{'] + name + seq!['@'] + version + seq!['}', ' ']
}

/// The separator printed between a frame's call site and its cause.
pub open spec fn arrow_seq() -> Seq<char> {
    seq![' ', '-', '>', ' ']
}

/// Everything one frame contributes before its cause's text: an optional
/// component tag, then `file:line -> `.
pub open spec fn frame_prefix(r: Report, tagged: bool) -> Seq<char> {
    (if tagged {
        tag_seq(r.pkg_name@, r.pkg_version@)
    } else {
        Seq::<char>::empty()
    }) + r.file@ + seq![':'] + dec_str(r.line as nat) + arrow_seq()
}

/// Whether two frames carry the same component identity.
pub open spec fn same_component(outer: Report, inner: Report) -> bool {
    inner.pkg_name@ == outer.pkg_name@ && inner.pkg_version@ == outer.pkg_version@
}

/// The rendered text of the whole chain rooted at `r`.
///
/// `verbose` selects each terminal failure's debug form over its display
/// form; `tagged` says whether this frame prints its component tag (`true`
/// at the head of a report); `policy` decides whether a nested frame from a
/// different component starts a new tag.
pub open spec fn render_seq(r: Report, verbose: bool, tagged: bool, policy: TagPolicy) -> Seq<
    char,
>
    decreases r,
{
    frame_prefix(r, tagged) + match r.err {
        Cause::Frame(inner) => render_seq(
            *inner,
            verbose,
            policy is OnTransition && !same_component(r, *inner),
            policy,
        ),
        Cause::Terminal(t) => if verbose {
            t.debug@
        } else {
            t.display@
        },
    }
}

impl Report {
    /// Renders the chain rooted at `self`, printing this frame's component
    /// tag exactly when `tagged` holds.
    fn render_at(&self, verbose: bool, tagged: bool, policy: TagPolicy) -> (out: String)
        ensures
            out@ == render_seq(*self, verbose, tagged, policy),
        decreases *self,
    {
        let mut out = String::new();
        if tagged {
            out.append("{");
            out.append(self.pkg_name.as_str());
            out.append("@");
            out.append(self.pkg_version.as_str());
            out.append("} ");
            proof {
                reveal_strlit("{");
                reveal_strlit("@");
                reveal_strlit("} ");
                assert(out@ =~= tag_seq(self.pkg_name@, self.pkg_version@));
            }
        }
        out.append(self.file.as_str());
        out.append(":");
        let line_text = u32_to_dec(self.line);
        out.append(line_text.as_str());
        out.append(" -> ");
        proof {
            reveal_strlit(":");
            reveal_strlit(" -> ");
            assert(out@ =~= frame_prefix(*self, tagged));
        }
        let tail: String = match &self.err {
            Cause::Frame(inner) => {
                let inner_tagged: bool = match policy {
                    TagPolicy::OnTransition => !(inner.pkg_name == self.pkg_name
                        && inner.pkg_version == self.pkg_version),
                    TagPolicy::OutermostOnly => false,
                };
                inner.render_at(verbose, inner_tagged, policy)
            },
            Cause::Terminal(t) => if verbose {
                t.debug.clone()
            } else {
                t.display.clone()
            },
        };
        out.append(tail.as_str());
        proof {
            assert(out@ =~= render_seq(*self, verbose, tagged, policy));
        }
        out
    }

    /// Renders the chain under the transition-aware tag policy, exactly as
    /// `render_seq` states it.  `is_debug` selects the terminal failures'
    /// debug forms; the frame prints its component tag exactly when `index`
    /// is zero, so a whole report is rendered with `index == 0`.
    pub fn to_string(&self, is_debug: bool, index: u16) -> (out: String)
        ensures
            out@ == render_seq(*self, is_debug, index == 0, TagPolicy::OnTransition),
    {
        self.render_at(is_debug, index == 0, TagPolicy::OnTransition)
    }

    /// Renders the whole chain under the chosen tag policy, debug forms when
    /// `verbose`.
    pub fn render(&self, verbose: bool, policy: TagPolicy) -> (out: String)
        ensures
            out@ == render_seq(*self, verbose, true, policy),
    {
        self.render_at(verbose, true, policy)
    }

    /// Walks past every frame and returns the first real failure, without
    /// allocating or cloning.
    pub fn source(&self) -> (r: Option<&TerminalError>)
        ensures
            r matches Some(t) && *t == root_cause(*self),
        decreases *self,
    {
        match &self.err {
            Cause::Frame(inner) => inner.source(),
            Cause::Terminal(t) => Some(t),
        }
    }

    /// Wraps a fallible result: a success value passes through unchanged and
    /// no frame is created; a failure is wrapped in one new frame that
    /// records the wrapping component's identity and the call site.
    pub fn wrap<T>(
        res: Result<T, Cause>,
        pkg_name: String,
        pkg_version: String,
        file: String,
        line: u32,
    ) -> (out: Result<T, Report>)
        ensures
            match res {
                Ok(v) => out matches Ok(w) && w == v,
                Err(c) => out matches Err(rep) && rep.pkg_name == pkg_name && rep.pkg_version
                    == pkg_version && rep.file == file && rep.line == line && rep.err == c,
            },
    {
        match res {
            Ok(v) => Ok(v),
            Err(c) => Err(
                Report { pkg_name, pkg_version, file, line, err: c },
            ),
        }
    }
}

} // verus!
