//! Preparing a document for the typesetter and reporting what it said back.

use vstd::prelude::*;
use vstd::string::*;
use crate::text::{trim, strip_prefix, strip_suffix, trim_view, has_prefix, has_suffix};
use crate::reply::{Embed, Rgb, red, yellow, red_view, yellow_view};

verus! {

/// Three backticks: the fence of a multi-line code block.
pub open spec fn triple_fence() -> Seq<char> {
    seq!['`', '`', '`']
}

/// One backtick: the fence of an inline code block.
pub open spec fn single_fence() -> Seq<char> {
    seq!['`']
}

/// The text between the fences when `t` is wrapped in `fence` on both sides.
pub open spec fn fenced_by(t: Seq<char>, fence: Seq<char>) -> bool {
    has_prefix(t, fence) && has_suffix(t.skip(fence.len() as int), fence)
}

/// What lies inside the fences; meaningful where `fenced_by(t, fence)` holds.
pub open spec fn unfenced(t: Seq<char>, fence: Seq<char>) -> Seq<char> {
    let inner = t.skip(fence.len() as int);
    inner.take(inner.len() - fence.len())
}

/// The document that is handed to the typesetter: where the document, once
/// trimmed, is a code block (between three backticks, or else between single
/// backticks), its content; otherwise the document unchanged.
pub open spec fn typst_doc_view(d: Seq<char>) -> Seq<char> {
    let t = trim_view(d);
    if fenced_by(t, triple_fence()) {
        unfenced(t, triple_fence())
    } else if fenced_by(t, single_fence()) {
        unfenced(t, single_fence())
    } else {
        d
    }
}

/// If the document text (excluding leading white space) is a chat code block,
/// that is, starts and ends with ` or ```, strips the code block and the
/// surrounding white space; otherwise the document is returned unchanged.
pub fn trim_typst_doc(document: String) -> (r: String)
    ensures
        r@ == typst_doc_view(document@),
{
    proof {
        reveal_strlit("```");
        reveal_strlit("`");
        assert("```"@ =~= triple_fence());
        assert("`"@ =~= single_fence());
    }
    let trimmed = trim(document.as_str());
    if let Some(s) = strip_prefix(trimmed, "```") {
        if let Some(t) = strip_suffix(s, "```") {
            return String::from_str(t);
        }
    }
    if let Some(s) = strip_prefix(trimmed, "`") {
        if let Some(t) = strip_suffix(s, "`") {
            return String::from_str(t);
        }
    }
    document
}

/// The name under which a rendered picture is attached.
pub const RENDERED_FILE: &'static str = "rendered.png";

/// How serious a typesetter message is.
#[derive(Clone, Copy, Debug, PartialEq, Eq, Structural)]
pub enum Severity {
    Error,
    Warning,
}

/// A message of the typesetter about the document.
#[derive(Debug)]
pub struct Diagnostic {
    pub severity: Severity,
    pub message: String,
}

/// The label printed for a severity.
pub open spec fn severity_label(s: Severity) -> Seq<char> {
    match s {
        Severity::Error => "error"@,
        Severity::Warning => "warning"@,
    }
}

/// One line per diagnostic, each introduced by a line break:
/// `\n[<severity>] <message>`.
pub open spec fn diagnostics_view(ds: Seq<Diagnostic>) -> Seq<char>
    decreases ds.len(),
{
    if ds.len() == 0 {
        Seq::empty()
    } else {
        diagnostics_view(ds.drop_last()) + "\n["@ + severity_label(ds.last().severity) + "] "@
            + ds.last().message@
    }
}

/// Basic formatting: a new line for each diagnostic.
pub fn format_diagnostics(diags: &[Diagnostic]) -> (r: String)
    ensures
        r@ == diagnostics_view(diags@),
{
    let mut acc = String::new();
    let mut i: usize = 0;
    assert(diags@.take(0) =~= Seq::<Diagnostic>::empty());
    while i < diags.len()
        invariant
            i <= diags@.len(),
            acc@ == diagnostics_view(diags@.take(i as int)),
        decreases diags@.len() - i,
    {
        let d = &diags[i];
        acc.append("\n[");
        match d.severity {
            Severity::Error => acc.append("error"),
            Severity::Warning => acc.append("warning"),
        }
        acc.append("] ");
        acc.append(d.message.as_str());
        proof {
            let next = diags@.take(i + 1);
            assert(next.drop_last() =~= diags@.take(i as int));
            assert(next.last() == diags@[i as int]);
        }
        i = i + 1;
    }
    assert(diags@.take(diags@.len() as int) =~= diags@);
    acc
}

/// The embed that accompanies a typesetting result: none when the typesetter
/// said nothing; otherwise the diagnostics, titled "Warnings" in yellow when a
/// picture was produced and "Compilation failed" in red when none was.
pub open spec fn typst_embed_view(rendered: bool, diagnostics: Seq<char>) -> Option<
    (Seq<char>, Rgb, Seq<char>),
> {
    if diagnostics.len() == 0 {
        None
    } else if rendered {
        Some(("Warnings"@, yellow_view(), diagnostics))
    } else {
        Some(("Compilation failed"@, red_view(), diagnostics))
    }
}

/// The typesetter's messages are never lost: there is an embed exactly when
/// there are messages, and its text is the whole message list, whether or not
/// a picture was rendered; it is titled "Warnings" in yellow with a picture
/// and "Compilation failed" in red without one.
pub proof fn lemma_typst_embed_keeps_diagnostics(rendered: bool, diagnostics: Seq<char>)
    ensures
        (typst_embed_view(rendered, diagnostics) is None) <==> diagnostics.len() == 0,
        diagnostics.len() > 0 ==> typst_embed_view(rendered, diagnostics) == Some(
            (
                if rendered {
                    "Warnings"@
                } else {
                    "Compilation failed"@
                },
                if rendered {
                    yellow_view()
                } else {
                    red_view()
                },
                diagnostics,
            ),
        ),
{
}

/// The embed to send with the outcome of a typesetting run; `rendered` tells
/// whether a picture came out, `diagnostics` is the formatted message list.
pub fn typst_embed(rendered: bool, diagnostics: String) -> (r: Option<Embed>)
    ensures
        match typst_embed_view(rendered, diagnostics@) {
            None => r is None,
            Some((title, color, description)) => r matches Some(e) && e@.title == Some(title)
                && e@.color == Some(color) && e@.description == Some(description)
                && e@.author is None && e@.footer is None,
        },
        diagnostics@.len() == 0 ==> r is None,
        diagnostics@.len() > 0 ==> (r matches Some(e) && e@.description == Some(diagnostics@)
            && e@.title == Some(if rendered { "Warnings"@ } else { "Compilation failed"@ })
            && e@.color == Some(if rendered { yellow_view() } else { red_view() })),
{
    if diagnostics.as_str().is_empty() {
        return None;
    }
    let (title, color) = if rendered {
        (String::from_str("Warnings"), yellow())
    } else {
        (String::from_str("Compilation failed"), red())
    };
    Some(
        Embed {
            author: None,
            title: Some(title),
            description: Some(diagnostics),
            color: Some(color),
            footer: None,
        },
    )
}

} // verus!
