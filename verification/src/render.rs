//! The document renderer: a title, a timestamp and an ordered sequence
//! of content blocks become one markdown document with a front-matter
//! header. Rendering is pure and total; it has no failure mode.

use vstd::prelude::*;
use crate::models::{ContentPart, Timestamp};

verus! {

/// The single line-terminated fragment a block renders to.
pub open spec fn spec_block(b: ContentPart) -> Seq<char> {
    match b {
        ContentPart::Header { text } => "## "@ + text@ + "\n"@,
        ContentPart::Paragraph { text } => text@ + "\n"@,
        ContentPart::Image { filename } => "![]("@ + filename@ + ")\n"@,
        ContentPart::Link { title, url } => "["@ + title@ + "]("@ + url@ + ")\n"@,
    }
}

/// The document body: each block's fragment, in sequence order.
pub open spec fn spec_body(blocks: Seq<ContentPart>) -> Seq<char>
    decreases blocks.len(),
{
    if blocks.len() == 0 {
        Seq::empty()
    } else {
        spec_body(blocks.drop_last()) + spec_block(blocks.last())
    }
}

/// The title slot of the front matter: the title, or empty when absent.
pub open spec fn spec_title(title: Option<String>) -> Seq<char> {
    match title {
        Some(t) => t@,
        None => Seq::empty(),
    }
}

/// The front-matter header, delimited by the fixed `---` markers.
pub open spec fn spec_front_matter(title: Option<String>, date: Timestamp) -> Seq<char> {
    "---\ntitle: \""@ + spec_title(title) + "\"\ndate: "@ + date.spec_format() + "\n---\n"@
}

/// The whole document: front matter, body, one trailing newline.
pub open spec fn spec_document(
    title: Option<String>,
    date: Timestamp,
    blocks: Seq<ContentPart>,
) -> Seq<char> {
    spec_front_matter(title, date) + spec_body(blocks) + "\n"@
}

/// Appends the one fragment a block renders to.
fn append_block(out: &mut String, b: &ContentPart)
    ensures
        final(out)@ == old(out)@ + spec_block(*b),
{
    match b {
        ContentPart::Header { text } => {
            out.append("## ");
            out.append(text.as_str());
            out.append("\n");
        },
        ContentPart::Paragraph { text } => {
            out.append(text.as_str());
            out.append("\n");
        },
        ContentPart::Image { filename } => {
            out.append("![](");
            out.append(filename.as_str());
            out.append(")\n");
        },
        ContentPart::Link { title, url } => {
            out.append("[");
            out.append(title.as_str());
            out.append("](");
            out.append(url.as_str());
            out.append(")\n");
        },
    }
    proof {
        assert(out@ =~= old(out)@ + spec_block(*b));
    }
}

/// Renders the document: the front-matter header, then exactly one
/// fragment per block in sequence order, then a trailing newline. No
/// markdown character is escaped; block text is emitted verbatim.
pub fn render_document(title: &Option<String>, date: &Timestamp, blocks: &Vec<ContentPart>) -> (r:
    String)
    requires
        date.well_formed(),
    ensures
        r@ == spec_document(*title, *date, blocks@),
{
    let mut out = String::new();
    out.append("---\ntitle: \"");
    match title {
        Some(t) => out.append(t.as_str()),
        None => (),
    }
    out.append("\"\ndate: ");
    let ts = date.format();
    out.append(ts.as_str());
    out.append("\n---\n");
    proof {
        assert(out@ =~= spec_front_matter(*title, *date));
        assert(out@ =~= spec_front_matter(*title, *date) + spec_body(
            blocks@.subrange(0, 0),
        ));
    }
    let mut i: usize = 0;
    while i < blocks.len()
        invariant
            i <= blocks.len(),
            out@ == spec_front_matter(*title, *date) + spec_body(blocks@.subrange(0, i as int)),
        decreases blocks.len() - i,
    {
        append_block(&mut out, &blocks[i]);
        proof {
            let pre = blocks@.subrange(0, i as int);
            let post = blocks@.subrange(0, i + 1);
            assert(post.drop_last() =~= pre);
            assert(post.last() == blocks@[i as int]);
            assert(out@ =~= spec_front_matter(*title, *date) + spec_body(post));
        }
        i += 1;
    }
    out.append("\n");
    proof {
        assert(blocks@.subrange(0, blocks@.len() as int) =~= blocks@);
        assert(out@ =~= spec_document(*title, *date, blocks@));
    }
    out
}

/// Renderer purity: the rendered document is a function of the title,
/// the timestamp and the block sequence alone, so any two renderings of
/// identical input are identical.
pub proof fn lemma_render_deterministic(
    title: Option<String>,
    date: Timestamp,
    blocks: Seq<ContentPart>,
    r1: Seq<char>,
    r2: Seq<char>,
)
    requires
        r1 == spec_document(title, date, blocks),
        r2 == spec_document(title, date, blocks),
    ensures
        r1 == r2,
{
}

/// An empty block sequence renders to a document holding the front-matter
/// header and the trailing newline alone: no body lines.
pub proof fn lemma_render_empty_body(title: Option<String>, date: Timestamp, blocks: Seq<
    ContentPart,
>)
    requires
        blocks.len() == 0,
    ensures
        spec_document(title, date, blocks) == spec_front_matter(title, date) + "\n"@,
{
    assert(spec_body(blocks) =~= Seq::<char>::empty());
    assert(spec_document(title, date, blocks) =~= spec_front_matter(title, date) + "\n"@);
}

} // verus!
