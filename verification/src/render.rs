//! The renderer: turns a collection of items into the single markdown
//! document, specified down to the exact character sequence.

use vstd::prelude::*;
use vstd::string::StringExecFns;
use crate::repo::Repository;
use crate::textfmt::dec_digits;
use crate::textfmt::dec_string;

verus! {

/// The rendered description segment: the item's text when present, the
/// empty string when absent.
pub open spec fn description_text(d: Option<String>) -> Seq<char> {
    match d {
        Some(s) => s@,
        None => Seq::<char>::empty(),
    }
}

/// One rendered entry: a markdown link line, then an indented
/// description line.
pub open spec fn entry_lines(r: Repository) -> Seq<char> {
    "- ["@ + r.name@ + "]("@ + r.html_url@ + ")\n\t- "@ + description_text(r.description)
        + "\n"@
}

/// The heading line, stating the total item count in decimal.
pub open spec fn heading_line(count: nat) -> Seq<char> {
    "# The "@ + dec_digits(count) + " Awesome List  \n"@
}

/// The entries of a collection, concatenated in order.
pub open spec fn entries_text(items: Seq<Repository>) -> Seq<char>
    decreases items.len(),
{
    if items.len() == 0 {
        Seq::<char>::empty()
    } else {
        entries_text(items.drop_last()) + entry_lines(items.last())
    }
}

/// The whole document: the heading for the collection's length, then one
/// entry per item, in collection order.
pub open spec fn document_text(items: Seq<Repository>) -> Seq<char> {
    heading_line(items.len()) + entries_text(items)
}

/// Renders a collection into its document, character for character.
pub fn render(items: &Vec<Repository>) -> (doc: String)
    ensures
        doc@ == document_text(items@),
{
    let mut doc = "# The ".to_owned();
    let count = dec_string(items.len() as u64);
    doc.append(count.as_str());
    doc.append(" Awesome List  \n");
    proof {
        assert(doc@ =~= heading_line(items@.len()));
        assert(items@.subrange(0, 0) =~= Seq::<Repository>::empty());
    }
    let n = items.len();
    for i in 0..n
        invariant
            n == items@.len(),
            doc@ == heading_line(items@.len()) + entries_text(items@.subrange(0, i as int)),
    {
        let r = &items[i];
        doc.append("- [");
        doc.append(r.name.as_str());
        doc.append("](");
        doc.append(r.html_url.as_str());
        doc.append(")\n\t- ");
        match &r.description {
            Some(d) => doc.append(d.as_str()),
            None => (),
        }
        doc.append("\n");
        proof {
            let pre = items@.subrange(0, i as int);
            let cur = items@.subrange(0, i + 1);
            assert(cur.drop_last() =~= pre);
            assert(cur.last() == items@[i as int]);
            assert(doc@ =~= heading_line(items@.len()) + entries_text(cur));
        }
    }
    proof {
        assert(items@.subrange(0, n as int) =~= items@);
    }
    doc
}

/// Law: every document begins with the heading whose stated count is the
/// collection's exact length, including zero.
pub proof fn lemma_document_starts_with_heading(items: Seq<Repository>)
    ensures
        heading_line(items.len()).len() <= document_text(items).len(),
        document_text(items).subrange(0, heading_line(items.len()).len() as int)
            == heading_line(items.len()),
{
    assert(document_text(items).subrange(0, heading_line(items.len()).len() as int)
        =~= heading_line(items.len()));
}

/// Law: rendering is deterministic — two documents rendered from the same
/// collection are byte-identical.
pub proof fn lemma_render_deterministic(
    items: Seq<Repository>,
    doc1: Seq<char>,
    doc2: Seq<char>,
)
    requires
        doc1 == document_text(items),
        doc2 == document_text(items),
    ensures
        doc1 == doc2,
{
}

/// Law: an absent description renders as the empty segment — the entry's
/// second line is exactly tab, dash, space, line break.
pub proof fn lemma_absent_description_empty(r: Repository)
    requires
        r.description is None,
    ensures
        entry_lines(r) == "- ["@ + r.name@ + "]("@ + r.html_url@ + ")\n\t- \n"@,
{
    reveal_strlit(")\n\t- ");
    reveal_strlit("\n");
    reveal_strlit(")\n\t- \n");
    assert(entry_lines(r) =~= "- ["@ + r.name@ + "]("@ + r.html_url@ + ")\n\t- \n"@);
}

} // verus!
