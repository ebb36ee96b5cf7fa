use vstd::prelude::*;

use crate::page::author_fragment;
use crate::render::{
    code_html, deeper, heading_close, heading_open, is_dropped_tag, is_known_tag, kind_of,
    math_html, render, render_cells, render_items, render_list, render_rows, unwrap_or_empty,
    Kind,
};
use crate::tree::{attr_of, flatten, has_tag, Node};

verus! {

/// The heading level `n` sectioning levels below `level`.
pub open spec fn level_from(level: nat, n: nat) -> nat
    decreases n,
{
    if n == 0 {
        level
    } else {
        level_from(deeper(level), (n - 1) as nat)
    }
}

/// `s`, `n` times over.
pub open spec fn repeat(s: Seq<char>, n: nat) -> Seq<char>
    decreases n,
{
    if n == 0 {
        Seq::empty()
    } else {
        s + repeat(s, (n - 1) as nat)
    }
}

/// Each node but the last is a section whose only child is the next node.
pub open spec fn is_section_chain(chain: Seq<Node>) -> bool {
    &&& chain.len() >= 1
    &&& forall|k: int|
        0 <= k < chain.len() - 1 ==> has_tag(#[trigger] chain[k], "section"@) && chain[k]->children@
            == seq![chain[k + 1]]
}

proof fn lemma_level_from(level: nat, n: nat)
    requires
        1 <= level <= 6,
    ensures
        level_from(level, n) == if level + n < 6 {
            level + n
        } else {
            6
        },
    decreases n,
{
    if n > 0 {
        lemma_level_from(deeper(level), (n - 1) as nat);
    }
}

proof fn lemma_repeat_back(s: Seq<char>, n: nat)
    requires
        n > 0,
    ensures
        repeat(s, n) == repeat(s, (n - 1) as nat) + s,
    decreases n,
{
    if n == 1 {
        assert(repeat(s, 0) == Seq::<char>::empty());
        assert(repeat(s, 1) =~= repeat(s, 0) + s);
    } else {
        lemma_repeat_back(s, (n - 1) as nat);
        assert(repeat(s, n) =~= repeat(s, (n - 1) as nat) + s);
    }
}

/// How the tags that the laws below speak of are classified.
proof fn lemma_tag_names()
    ensures
        forall|a: Seq<(String, String)>| #[trigger] kind_of("title"@, a) == Kind::Title,
        forall|a: Seq<(String, String)>| #[trigger] kind_of("section"@, a) == Kind::Section,
        forall|a: Seq<(String, String)>| #[trigger] kind_of("verbatim"@, a) == Kind::Verbatim,
        forall|a: Seq<(String, String)>| #[trigger] kind_of("lstlisting"@, a) == Kind::Verbatim,
        forall|a: Seq<(String, String)>| #[trigger] kind_of("math"@, a) == Kind::Math,
        forall|a: Seq<(String, String)>| #[trigger] kind_of("Math"@, a) == Kind::Math,
        forall|a: Seq<(String, String)>| #[trigger] kind_of("itemize"@, a) == Kind::Bullets,
        forall|a: Seq<(String, String)>| #[trigger] kind_of("enumerate"@, a) == Kind::Numbered,
        forall|a: Seq<(String, String)>| #[trigger] kind_of("tabular"@, a) == Kind::Table,
        forall|a: Seq<(String, String)>| #[trigger] kind_of("table"@, a) == Kind::Table,
        !is_known_tag("document"@),
        "title"@ != "section"@,
        "title"@ != "document"@,
        "section"@ != "document"@,
        "verbatim"@ != "section"@,
        "lstlisting"@ != "section"@,
        "math"@ != "section"@,
        "Math"@ != "section"@,
{
    reveal_strlit("tags");
    reveal_strlit("tag");
    reveal_strlit("ref");
    reveal_strlit("bibref");
    reveal_strlit("section");
    reveal_strlit("title");
    reveal_strlit("para");
    reveal_strlit("p");
    reveal_strlit("emph");
    reveal_strlit("em");
    reveal_strlit("text");
    reveal_strlit("itemize");
    reveal_strlit("enumerate");
    reveal_strlit("tabular");
    reveal_strlit("table");
    reveal_strlit("graphics");
    reveal_strlit("figure");
    reveal_strlit("verbatim");
    reveal_strlit("lstlisting");
    reveal_strlit("Math");
    reveal_strlit("math");
    reveal_strlit("creator");
    reveal_strlit("document");
    assert("tags"@[0] == 't');
    assert("tags"@[1] == 'a');
    assert("tag"@[0] == 't');
    assert("tag"@[1] == 'a');
    assert("ref"@[0] == 'r');
    assert("ref"@[1] == 'e');
    assert("bibref"@[0] == 'b');
    assert("bibref"@[1] == 'i');
    assert("section"@[0] == 's');
    assert("section"@[1] == 'e');
    assert("title"@[0] == 't');
    assert("title"@[1] == 'i');
    assert("para"@[0] == 'p');
    assert("para"@[1] == 'a');
    assert("p"@[0] == 'p');
    assert("emph"@[0] == 'e');
    assert("emph"@[1] == 'm');
    assert("em"@[0] == 'e');
    assert("em"@[1] == 'm');
    assert("text"@[0] == 't');
    assert("text"@[1] == 'e');
    assert("itemize"@[0] == 'i');
    assert("itemize"@[1] == 't');
    assert("enumerate"@[0] == 'e');
    assert("enumerate"@[1] == 'n');
    assert("tabular"@[0] == 't');
    assert("tabular"@[1] == 'a');
    assert("table"@[0] == 't');
    assert("table"@[1] == 'a');
    assert("graphics"@[0] == 'g');
    assert("graphics"@[1] == 'r');
    assert("figure"@[0] == 'f');
    assert("figure"@[1] == 'i');
    assert("verbatim"@[0] == 'v');
    assert("verbatim"@[1] == 'e');
    assert("lstlisting"@[0] == 'l');
    assert("lstlisting"@[1] == 's');
    assert("Math"@[0] == 'M');
    assert("Math"@[1] == 'a');
    assert("math"@[0] == 'm');
    assert("math"@[1] == 'a');
    assert("creator"@[0] == 'c');
    assert("creator"@[1] == 'r');
    assert("document"@[0] == 'd');
    assert("document"@[1] == 'o');
    assert("tags"@[2] == 'g');
    assert("tags"@[3] == 's');
    assert("tag"@[2] == 'g');
    assert("ref"@[2] == 'f');
    assert("bibref"@[2] == 'b');
    assert("bibref"@[3] == 'r');
    assert("section"@[2] == 'c');
    assert("section"@[3] == 't');
    assert("title"@[2] == 't');
    assert("title"@[3] == 'l');
    assert("para"@[2] == 'r');
    assert("para"@[3] == 'a');
    assert("emph"@[2] == 'p');
    assert("emph"@[3] == 'h');
    assert("text"@[2] == 'x');
    assert("text"@[3] == 't');
    assert("itemize"@[2] == 'e');
    assert("itemize"@[3] == 'm');
    assert("enumerate"@[2] == 'u');
    assert("enumerate"@[3] == 'm');
    assert("tabular"@[2] == 'b');
    assert("tabular"@[3] == 'u');
    assert("table"@[2] == 'b');
    assert("table"@[3] == 'l');
    assert("graphics"@[2] == 'a');
    assert("graphics"@[3] == 'p');
    assert("figure"@[2] == 'g');
    assert("figure"@[3] == 'u');
    assert("verbatim"@[2] == 'r');
    assert("verbatim"@[3] == 'b');
    assert("lstlisting"@[2] == 't');
    assert("lstlisting"@[3] == 'l');
    assert("Math"@[2] == 't');
    assert("Math"@[3] == 'h');
    assert("math"@[2] == 't');
    assert("math"@[3] == 'h');
    assert("creator"@[2] == 'e');
    assert("creator"@[3] == 'a');
    assert("document"@[2] == 'c');
    assert("document"@[3] == 'u');
}

/// A title below `n` nested sections, none of them the document root, is a heading of
/// level `min(n + 1, 6)` when the outermost section stands where a title would be a
/// first-level heading; in general `n` levels further down, capped at 6.
pub proof fn law_heading_level(chain: Seq<Node>, level: nat)
    requires
        is_section_chain(chain),
        has_tag(chain.last(), "title"@),
        1 <= level <= 6,
    ensures
        level_from(level, (chain.len() - 1) as nat) == if level + chain.len() - 1 < 6 {
            (level + chain.len() - 1) as nat
        } else {
            6
        },
        render(chain[0], level, false) == repeat("<section>"@, (chain.len() - 1) as nat)
            + heading_open(level_from(level, (chain.len() - 1) as nat)) + render_list(
            chain.last()->children@,
            level_from(level, (chain.len() - 1) as nat),
            false,
        ) + heading_close(level_from(level, (chain.len() - 1) as nat)) + repeat(
            "</section>"@,
            (chain.len() - 1) as nat,
        ),
    decreases chain.len(),
{
    let n = (chain.len() - 1) as nat;
    lemma_tag_names();
    lemma_level_from(level, n);
    let t = chain.last();
    let inner = render_list(t->children@, level_from(level, n), false);
    let h = level_from(level, n);
    if n == 0 {
        assert(kind_of(t->tag@, t->attrs@) == Kind::Title);
        assert(render(chain[0], level, false) =~= Seq::<char>::empty() + heading_open(h) + inner
            + heading_close(h) + Seq::<char>::empty());
    } else {
        let rest = chain.drop_first();
        assert forall|k: int| 0 <= k < rest.len() - 1 implies has_tag(#[trigger] rest[k], "section"@)
            && rest[k]->children@ == seq![rest[k + 1]] by {
            assert(rest[k] == chain[k + 1]);
        }
        assert(rest.last() == t);
        law_heading_level(rest, deeper(level));
        let c0 = chain[0];
        assert(has_tag(c0, "section"@));
        assert(c0->children@ == seq![chain[1]]);
        assert(kind_of(c0->tag@, c0->attrs@) == Kind::Section);
        lemma_render_list_single(chain[1], deeper(level), false);
        assert(rest[0] == chain[1]);
        let below = render(chain[1], deeper(level), false);
        assert(render(c0, level, false) == "<section>"@ + below + "</section>"@);
        lemma_repeat_back("</section>"@, n);
        assert(render(c0, level, false) =~= repeat("<section>"@, n) + heading_open(h) + inner
            + heading_close(h) + repeat("</section>"@, n));
    }
}

/// A node that is not a title renders the same whatever its parent is.
proof fn lemma_parent_irrelevant(c: Node, level: nat)
    requires
        !has_tag(c, "title"@),
    ensures
        render(c, level, true) == render(c, level, false),
{
    lemma_tag_names();
    if c is Element {
        assert(c->tag@ != "title"@);
    }
}

/// Rendering a list of nodes distributes over concatenation.
pub proof fn lemma_render_list_concat(a: Seq<Node>, b: Seq<Node>, level: nat, under_doc: bool)
    ensures
        render_list(a + b, level, under_doc) == render_list(a, level, under_doc) + render_list(
            b,
            level,
            under_doc,
        ),
    decreases b.len(),
{
    if b.len() == 0 {
        assert(a + b == a);
    } else {
        assert((a + b).drop_last() == a + b.drop_last());
        lemma_render_list_concat(a, b.drop_last(), level, under_doc);
    }
}

pub proof fn lemma_render_items_concat(a: Seq<Node>, b: Seq<Node>, level: nat)
    ensures
        render_items(a + b, level) == render_items(a, level) + render_items(b, level),
    decreases b.len(),
{
    if b.len() == 0 {
        assert(a + b == a);
    } else {
        assert((a + b).drop_last() == a + b.drop_last());
        lemma_render_items_concat(a, b.drop_last(), level);
    }
}

pub proof fn lemma_render_rows_concat(a: Seq<Node>, b: Seq<Node>, level: nat)
    ensures
        render_rows(a + b, level) == render_rows(a, level) + render_rows(b, level),
    decreases b.len(),
{
    if b.len() == 0 {
        assert(a + b == a);
    } else {
        assert((a + b).drop_last() == a + b.drop_last());
        lemma_render_rows_concat(a, b.drop_last(), level);
    }
}

pub proof fn lemma_render_cells_concat(a: Seq<Node>, b: Seq<Node>, level: nat)
    ensures
        render_cells(a + b, level) == render_cells(a, level) + render_cells(b, level),
    decreases b.len(),
{
    if b.len() == 0 {
        assert(a + b == a);
    } else {
        assert((a + b).drop_last() == a + b.drop_last());
        lemma_render_cells_concat(a, b.drop_last(), level);
    }
}

/// A one-element list renders as its element.
proof fn lemma_render_list_single(c: Node, level: nat, under_doc: bool)
    ensures
        render_list(seq![c], level, under_doc) == render(c, level, under_doc),
{
    assert(seq![c].drop_last() =~= Seq::<Node>::empty());
    assert(seq![c].last() == c);
    assert(render_list(Seq::<Node>::empty(), level, under_doc) == Seq::<char>::empty());
    assert(Seq::<char>::empty() + render(c, level, under_doc) =~= render(c, level, under_doc));
}

/// Removing `c` from between `a` and `b` leaves the rendering of the list unchanged
/// when `c` renders as nothing.
proof fn lemma_render_list_skip(a: Seq<Node>, c: Node, b: Seq<Node>, level: nat, under_doc: bool)
    requires
        render(c, level, under_doc) == Seq::<char>::empty(),
    ensures
        render_list(a + seq![c] + b, level, under_doc) == render_list(a + b, level, under_doc),
{
    lemma_render_list_concat(a + seq![c], b, level, under_doc);
    lemma_render_list_concat(a, seq![c], level, under_doc);
    lemma_render_list_concat(a, b, level, under_doc);
    lemma_render_list_single(c, level, under_doc);
    assert(render_list(a, level, under_doc) + Seq::<char>::empty() =~= render_list(
        a,
        level,
        under_doc,
    ));
}

/// The document root's own title is never rendered in the body: the root's children are
/// rendered as children of the root, where a title renders as nothing and so leaves the
/// rendering of its siblings as it would be without it.
pub proof fn law_document_title_hidden(
    doc: Node,
    title: Node,
    before: Seq<Node>,
    after: Seq<Node>,
    level: nat,
    under_doc: bool,
)
    requires
        has_tag(doc, "document"@),
        has_tag(title, "title"@),
    ensures
        render(doc, level, under_doc) == render_list(doc->children@, level, true),
        render(title, level, true) == Seq::<char>::empty(),
        render_list(before + seq![title] + after, level, true) == render_list(
            before + after,
            level,
            true,
        ),
{
    lemma_tag_names();
    assert(kind_of(doc->tag@, doc->attrs@) == Kind::Transparent);
    assert(kind_of(title->tag@, title->attrs@) == Kind::Title);
    lemma_render_list_skip(before, title, after, level, true);
}

/// The metadata tags render as nothing, whatever they hold, and leave the rendering of
/// their siblings as it would be without them.
pub proof fn law_dropped_tags(n: Node, before: Seq<Node>, after: Seq<Node>, level: nat, under_doc: bool)
    requires
        n is Element,
        is_dropped_tag(n->tag@),
    ensures
        render(n, level, under_doc) == Seq::<char>::empty(),
        render_list(before + seq![n] + after, level, under_doc) == render_list(
            before + after,
            level,
            under_doc,
        ),
{
    lemma_render_list_skip(before, n, after, level, under_doc);
}

/// An element with a tag of no known meaning renders as its children do; with a single
/// child that is not a title, exactly as that child does on its own.
pub proof fn law_unknown_transparent(n: Node, level: nat, under_doc: bool)
    requires
        n is Element,
        !is_known_tag(n->tag@),
        n->tag@ != "document"@,
    ensures
        render(n, level, under_doc) == render_list(n->children@, level, false),
        n->children@.len() == 1 && !has_tag(n->children@[0], "title"@) ==> render(
            n,
            level,
            under_doc,
        ) == render(n->children@[0], level, under_doc),
{
    lemma_tag_names();
    if n->children@.len() == 1 {
        let c = n->children@[0];
        assert(n->children@ == seq![c]);
        lemma_render_list_single(c, level, false);
        if !has_tag(c, "title"@) {
            lemma_parent_irrelevant(c, level);
        }
    }
}

/// Lists render one entry per `item` child: any other child leaves the entries as they
/// would be without it.
pub proof fn law_lists_skip_non_items(a: Seq<Node>, c: Node, b: Seq<Node>, level: nat)
    requires
        !has_tag(c, "item"@),
    ensures
        render_items(a + seq![c] + b, level) == render_items(a + b, level),
{
    lemma_render_items_concat(a + seq![c], b, level);
    lemma_render_items_concat(a, seq![c], level);
    lemma_render_items_concat(a, b, level);
    assert(seq![c].drop_last() =~= Seq::<Node>::empty());
    assert(seq![c].last() == c);
    assert(render_items(Seq::<Node>::empty(), level) == Seq::<char>::empty());
        assert(render_items(seq![c], level) =~= Seq::<char>::empty());
    assert(render_items(a, level) + Seq::<char>::empty() =~= render_items(a, level));
}

/// Tables render one row per `tr` child and one cell per `td` or `th` child of a row:
/// any other child leaves the rows, or the cells, as they would be without it.
pub proof fn law_tables_skip_others(a: Seq<Node>, c: Node, b: Seq<Node>, level: nat)
    ensures
        !has_tag(c, "tr"@) ==> render_rows(a + seq![c] + b, level) == render_rows(a + b, level),
        !has_tag(c, "td"@) && !has_tag(c, "th"@) ==> render_cells(a + seq![c] + b, level)
            == render_cells(a + b, level),
{
    lemma_render_rows_concat(a + seq![c], b, level);
    lemma_render_rows_concat(a, seq![c], level);
    lemma_render_rows_concat(a, b, level);
    lemma_render_cells_concat(a + seq![c], b, level);
    lemma_render_cells_concat(a, seq![c], level);
    lemma_render_cells_concat(a, b, level);
    assert(seq![c].drop_last() =~= Seq::<Node>::empty());
    assert(seq![c].last() == c);
    if !has_tag(c, "tr"@) {
        assert(render_rows(Seq::<Node>::empty(), level) == Seq::<char>::empty());
        assert(render_rows(seq![c], level) =~= Seq::<char>::empty());
        assert(render_rows(a, level) + Seq::<char>::empty() =~= render_rows(a, level));
    }
    if !has_tag(c, "td"@) && !has_tag(c, "th"@) {
        assert(render_cells(Seq::<Node>::empty(), level) == Seq::<char>::empty());
        assert(render_cells(seq![c], level) =~= Seq::<char>::empty());
        assert(render_cells(a, level) + Seq::<char>::empty() =~= render_cells(a, level));
    }
}

/// Code blocks show their text escaped; math passes its text through unescaped, since
/// the math renderer reads the markup as written.
pub proof fn law_code_escaped_math_verbatim(code: Node, math: Node, level: nat, under_doc: bool)
    requires
        has_tag(code, "verbatim"@) || has_tag(code, "lstlisting"@),
        has_tag(math, "math"@) || has_tag(math, "Math"@),
    ensures
        render(code, level, under_doc) == code_html(
            unwrap_or_empty(attr_of(code->attrs@, "language"@)),
            flatten(code),
        ),
        render(math, level, under_doc) == math_html(
            attr_of(math->attrs@, "mode"@) == Some("display"@),
            flatten(math),
        ),
{
    lemma_tag_names();
    assert(kind_of(code->tag@, code->attrs@) == Kind::Verbatim);
    assert(kind_of(math->tag@, math->attrs@) == Kind::Math);
}

/// No author paragraph for a missing or empty author; one paragraph holding a
/// non-empty author text.
pub proof fn law_author_paragraph(author: Seq<char>)
    ensures
        author_fragment(None) == Seq::<char>::empty(),
        author_fragment(Some(Seq::empty())) == Seq::<char>::empty(),
        author.len() > 0 ==> author_fragment(Some(author)) == "<p class=\"author\">"@ + author
            + "</p>"@,
{
}

} // verus!
