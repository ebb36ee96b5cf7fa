use vstd::prelude::*;

use crate::text::{escape, html_escape, str_eq, trim, trim_of};
use crate::tree::{
    attr_of, find_element, find_first, flatten, get_all_text, get_attr, has_tag,
    lemma_grandchildren_decrease, Node,
};

verus! {

/// How an element is rendered, as decided by its tag and attributes.
#[derive(PartialEq, Eq, Structural, Clone, Copy, Debug)]
pub enum Kind {
    /// Cross-reference and label metadata: no output at all.
    Dropped,
    Section,
    Title,
    Para,
    Emph,
    Strong,
    Mono,
    /// Only the children are rendered.
    Transparent,
    Bullets,
    Numbered,
    Table,
    Figure,
    Verbatim,
    Math,
    /// The author, shown in the page header instead.
    Creator,
}

pub open spec fn is_dropped_tag(tag: Seq<char>) -> bool {
    tag == "tags"@ || tag == "tag"@ || tag == "ref"@ || tag == "bibref"@
}

/// The tags that are given a rendering of their own.
pub open spec fn is_known_tag(tag: Seq<char>) -> bool {
    is_dropped_tag(tag) || tag == "section"@ || tag == "title"@ || tag == "para"@ || tag == "p"@
        || tag == "emph"@ || tag == "em"@ || tag == "text"@ || tag == "itemize"@ || tag
        == "enumerate"@ || tag == "tabular"@ || tag == "table"@ || tag == "graphics"@ || tag
        == "figure"@ || tag == "verbatim"@ || tag == "lstlisting"@ || tag == "Math"@ || tag
        == "math"@ || tag == "creator"@
}

pub open spec fn kind_of(tag: Seq<char>, attrs: Seq<(String, String)>) -> Kind {
    if is_dropped_tag(tag) {
        Kind::Dropped
    } else if tag == "section"@ {
        Kind::Section
    } else if tag == "title"@ {
        Kind::Title
    } else if tag == "para"@ || tag == "p"@ {
        Kind::Para
    } else if tag == "emph"@ || tag == "em"@ {
        Kind::Emph
    } else if tag == "text"@ {
        if attr_of(attrs, "font"@) == Some("bold"@) {
            Kind::Strong
        } else if attr_of(attrs, "font"@) == Some("typewriter"@) {
            Kind::Mono
        } else {
            Kind::Transparent
        }
    } else if tag == "itemize"@ {
        Kind::Bullets
    } else if tag == "enumerate"@ {
        Kind::Numbered
    } else if tag == "tabular"@ || tag == "table"@ {
        Kind::Table
    } else if tag == "graphics"@ || tag == "figure"@ {
        if attr_of(attrs, "graphic"@) is Some {
            Kind::Figure
        } else {
            Kind::Transparent
        }
    } else if tag == "verbatim"@ || tag == "lstlisting"@ {
        Kind::Verbatim
    } else if tag == "Math"@ || tag == "math"@ {
        Kind::Math
    } else if tag == "creator"@ {
        Kind::Creator
    } else {
        Kind::Transparent
    }
}

/// The heading level of a title one sectioning level further down.
pub open spec fn deeper(level: nat) -> nat {
    if level < 6 {
        level + 1
    } else {
        6
    }
}

pub open spec fn heading_open(level: nat) -> Seq<char> {
    if level <= 1 {
        "<h1>"@
    } else if level == 2 {
        "<h2>"@
    } else if level == 3 {
        "<h3>"@
    } else if level == 4 {
        "<h4>"@
    } else if level == 5 {
        "<h5>"@
    } else {
        "<h6>"@
    }
}

pub open spec fn heading_close(level: nat) -> Seq<char> {
    if level <= 1 {
        "</h1>"@
    } else if level == 2 {
        "</h2>"@
    } else if level == 3 {
        "</h3>"@
    } else if level == 4 {
        "</h4>"@
    } else if level == 5 {
        "</h5>"@
    } else {
        "</h6>"@
    }
}

/// What a text node becomes: its trimmed text and one space, or nothing if it is blank.
pub open spec fn render_text(t: Seq<char>) -> Seq<char> {
    if trim_of(t).len() > 0 {
        trim_of(t) + " "@
    } else {
        Seq::empty()
    }
}

pub open spec fn unwrap_or_empty(v: Option<Seq<char>>) -> Seq<char> {
    match v {
        Some(s) => s,
        None => Seq::empty(),
    }
}

/// The text of the first caption below `n`, or nothing.
pub open spec fn caption_of(n: Node) -> Seq<char> {
    match find_first(n, "caption"@) {
        Some(c) => flatten(c),
        None => Seq::empty(),
    }
}

pub open spec fn figure_html(src: Seq<char>, caption: Seq<char>) -> Seq<char> {
    "<figure><img src=\""@ + src + "\" alt=\""@ + caption + "\">"@ + (if caption.len() > 0 {
        "<figcaption>"@ + caption + "</figcaption>"@
    } else {
        Seq::empty()
    }) + "</figure>"@
}

pub open spec fn code_html(language: Seq<char>, body: Seq<char>) -> Seq<char> {
    "<pre><code class=\"language-"@ + language + "\">"@ + escape(body) + "</code></pre>"@
}

pub open spec fn math_html(display: bool, body: Seq<char>) -> Seq<char> {
    if display {
        "<div class=\"math-display\">\\["@ + body + "\\]</div>"@
    } else {
        "\\("@ + body + "\\)"@
    }
}

/// The markup for `n`, where `level` is the heading level that a title in `n`'s place
/// gets and `under_doc` says whether `n`'s parent is the document root element.
pub open spec fn render(n: Node, level: nat, under_doc: bool) -> Seq<char>
    decreases n,
{
    match n {
        Node::Text { text } => render_text(text@),
        Node::Element { tag, attrs, children } => {
            let inner_level = if tag@ == "section"@ {
                deeper(level)
            } else {
                level
            };
            let inner = render_list(children@, inner_level, tag@ == "document"@);
            match kind_of(tag@, attrs@) {
                Kind::Dropped => Seq::empty(),
                Kind::Creator => Seq::empty(),
                Kind::Section => "<section>"@ + inner + "</section>"@,
                Kind::Title => if under_doc {
                    Seq::empty()
                } else {
                    heading_open(level) + inner + heading_close(level)
                },
                Kind::Para => "<p>"@ + inner + "</p>"@,
                Kind::Emph => "<em>"@ + inner + "</em>"@,
                Kind::Strong => "<strong>"@ + inner + "</strong>"@,
                Kind::Mono => "<code>"@ + inner + "</code>"@,
                Kind::Transparent => inner,
                Kind::Bullets => "<ul>"@ + render_items(children@, level) + "</ul>"@,
                Kind::Numbered => "<ol>"@ + render_items(children@, level) + "</ol>"@,
                Kind::Table => "<div class=\"table-wrapper\"><table>"@ + render_rows(
                    children@,
                    level,
                ) + "</table></div>"@,
                Kind::Figure => figure_html(
                    unwrap_or_empty(attr_of(attrs@, "graphic"@)),
                    caption_of(n),
                ),
                Kind::Verbatim => code_html(
                    unwrap_or_empty(attr_of(attrs@, "language"@)),
                    flatten(n),
                ),
                Kind::Math => math_html(attr_of(attrs@, "mode"@) == Some("display"@), flatten(n)),
            }
        },
    }
}

/// The markup of the nodes of `s`, concatenated in order.
pub open spec fn render_list(s: Seq<Node>, level: nat, under_doc: bool) -> Seq<char>
    decreases s,
{
    if s.len() == 0 {
        Seq::empty()
    } else {
        render_list(s.drop_last(), level, under_doc) + render(s.last(), level, under_doc)
    }
}

/// The list entries of a list's children: one per `item` element, the rest ignored.
pub open spec fn render_items(s: Seq<Node>, level: nat) -> Seq<char>
    decreases s,
{
    if s.len() == 0 {
        Seq::empty()
    } else {
        let c = s.last();
        render_items(s.drop_last(), level) + if has_tag(c, "item"@) {
            "<li>"@ + render_list(c->children@, level, false) + "</li>"@
        } else {
            Seq::empty()
        }
    }
}

/// The rows of a table's children: one per `tr` element, the rest ignored.
pub open spec fn render_rows(s: Seq<Node>, level: nat) -> Seq<char>
    decreases s,
{
    if s.len() == 0 {
        Seq::empty()
    } else {
        let c = s.last();
        render_rows(s.drop_last(), level) + if has_tag(c, "tr"@) {
            "<tr>"@ + render_cells(c->children@, level) + "</tr>"@
        } else {
            Seq::empty()
        }
    }
}

/// The cells of a row's children: one per `td` or `th` element, the rest ignored.
pub open spec fn render_cells(s: Seq<Node>, level: nat) -> Seq<char>
    decreases s,
{
    if s.len() == 0 {
        Seq::empty()
    } else {
        let c = s.last();
        render_cells(s.drop_last(), level) + if has_tag(c, "td"@) {
            "<td>"@ + render_list(c->children@, level, false) + "</td>"@
        } else if has_tag(c, "th"@) {
            "<th>"@ + render_list(c->children@, level, false) + "</th>"@
        } else {
            Seq::empty()
        }
    }
}

} // verus!

verus! {

/// Decides how an element with this tag and these attributes is rendered.
pub fn classify(tag: &str, attrs: &Vec<(String, String)>) -> (k: Kind)
    ensures
        k == kind_of(tag@, attrs@),
{
    if str_eq(tag, "tags") || str_eq(tag, "tag") || str_eq(tag, "ref") || str_eq(tag, "bibref") {
        Kind::Dropped
    } else if str_eq(tag, "section") {
        Kind::Section
    } else if str_eq(tag, "title") {
        Kind::Title
    } else if str_eq(tag, "para") || str_eq(tag, "p") {
        Kind::Para
    } else if str_eq(tag, "emph") || str_eq(tag, "em") {
        Kind::Emph
    } else if str_eq(tag, "text") {
        match get_attr(attrs, "font") {
            Some(v) => if str_eq(v.as_str(), "bold") {
                Kind::Strong
            } else if str_eq(v.as_str(), "typewriter") {
                Kind::Mono
            } else {
                Kind::Transparent
            },
            None => Kind::Transparent,
        }
    } else if str_eq(tag, "itemize") {
        Kind::Bullets
    } else if str_eq(tag, "enumerate") {
        Kind::Numbered
    } else if str_eq(tag, "tabular") || str_eq(tag, "table") {
        Kind::Table
    } else if str_eq(tag, "graphics") || str_eq(tag, "figure") {
        if get_attr(attrs, "graphic").is_some() {
            Kind::Figure
        } else {
            Kind::Transparent
        }
    } else if str_eq(tag, "verbatim") || str_eq(tag, "lstlisting") {
        Kind::Verbatim
    } else if str_eq(tag, "Math") || str_eq(tag, "math") {
        Kind::Math
    } else if str_eq(tag, "creator") {
        Kind::Creator
    } else {
        Kind::Transparent
    }
}

/// The opening and closing tags of a heading of the given level.
fn heading_tags(level: usize) -> (r: (&'static str, &'static str))
    ensures
        r.0@ == heading_open(level as nat),
        r.1@ == heading_close(level as nat),
{
    if level <= 1 {
        ("<h1>", "</h1>")
    } else if level == 2 {
        ("<h2>", "</h2>")
    } else if level == 3 {
        ("<h3>", "</h3>")
    } else if level == 4 {
        ("<h4>", "</h4>")
    } else if level == 5 {
        ("<h5>", "</h5>")
    } else {
        ("<h6>", "</h6>")
    }
}

/// `open`, then `inner`, then `close`.
fn wrap(open: &str, inner: String, close: &str) -> (r: String)
    ensures
        r@ == open@ + inner@ + close@,
{
    let mut r = String::from_str(open);
    r.append(inner.as_str());
    r.append(close);
    r
}

/// Renders `n`, where `level` is the heading level that a title in `n`'s place gets and
/// `under_doc` says whether `n`'s parent is the document root element.
pub fn render_node(n: &Node, level: usize, under_doc: bool) -> (r: String)
    requires
        1 <= level <= 6,
    ensures
        r@ == render(*n, level as nat, under_doc),
    decreases n,
{
    match n {
        Node::Text { text } => {
            let mut t = trim(text.as_str());
            if t.as_str().is_empty() {
                t
            } else {
                t.append(" ");
                t
            }
        },
        Node::Element { tag, attrs, children } => {
            let kind = classify(tag.as_str(), attrs);
            let inner_level: usize = if str_eq(tag.as_str(), "section") {
                if level < 6 {
                    level + 1
                } else {
                    6
                }
            } else {
                level
            };
            let inner_doc = str_eq(tag.as_str(), "document");
            match kind {
                Kind::Dropped => String::new(),
                Kind::Creator => String::new(),
                Kind::Section => wrap(
                    "<section>",
                    render_children(children, inner_level, inner_doc),
                    "</section>",
                ),
                Kind::Title => {
                    if under_doc {
                        String::new()
                    } else {
                        let (open, close) = heading_tags(level);
                        wrap(open, render_children(children, inner_level, inner_doc), close)
                    }
                },
                Kind::Para => wrap("<p>", render_children(children, inner_level, inner_doc), "</p>"),
                Kind::Emph => wrap(
                    "<em>",
                    render_children(children, inner_level, inner_doc),
                    "</em>",
                ),
                Kind::Strong => wrap(
                    "<strong>",
                    render_children(children, inner_level, inner_doc),
                    "</strong>",
                ),
                Kind::Mono => wrap(
                    "<code>",
                    render_children(children, inner_level, inner_doc),
                    "</code>",
                ),
                Kind::Transparent => render_children(children, inner_level, inner_doc),
                Kind::Bullets => wrap("<ul>", render_item_list(children, level), "</ul>"),
                Kind::Numbered => wrap("<ol>", render_item_list(children, level), "</ol>"),
                Kind::Table => wrap(
                    "<div class=\"table-wrapper\"><table>",
                    render_table_rows(children, level),
                    "</table></div>",
                ),
                Kind::Figure => {
                    let caption = match find_element(n, "caption") {
                        Some(c) => get_all_text(c),
                        None => String::new(),
                    };
                    let mut r = String::from_str("<figure><img src=\"");
                    match get_attr(attrs, "graphic") {
                        Some(src) => r.append(src.as_str()),
                        None => {},
                    }
                    r.append("\" alt=\"");
                    r.append(caption.as_str());
                    r.append("\">");
                    if !caption.as_str().is_empty() {
                        r.append("<figcaption>");
                        r.append(caption.as_str());
                        r.append("</figcaption>");
                    }
                    r.append("</figure>");
                    r
                },
                Kind::Verbatim => {
                    let body = html_escape(get_all_text(n).as_str());
                    let mut r = String::from_str("<pre><code class=\"language-");
                    match get_attr(attrs, "language") {
                        Some(lang) => r.append(lang.as_str()),
                        None => {},
                    }
                    r.append("\">");
                    r.append(body.as_str());
                    r.append("</code></pre>");
                    r
                },
                Kind::Math => {
                    let display = match get_attr(attrs, "mode") {
                        Some(m) => str_eq(m.as_str(), "display"),
                        None => false,
                    };
                    let body = get_all_text(n);
                    if display {
                        wrap("<div class=\"math-display\">\\[", body, "\\]</div>")
                    } else {
                        wrap("\\(", body, "\\)")
                    }
                },
            }
        },
    }
}

/// Renders each node of `children` in order and concatenates the results.
pub fn render_children(children: &Vec<Node>, level: usize, under_doc: bool) -> (r: String)
    requires
        1 <= level <= 6,
    ensures
        r@ == render_list(children@, level as nat, under_doc),
    decreases children,
{
    let mut r = String::new();
    let mut i: usize = 0;
    while i < children.len()
        invariant
            1 <= level <= 6,
            0 <= i <= children@.len(),
            r@ == render_list(children@.subrange(0, i as int), level as nat, under_doc),
        decreases children@.len() - i,
    {
        let part = render_node(&children[i], level, under_doc);
        r.append(part.as_str());
        assert(children@.subrange(0, i + 1).drop_last() == children@.subrange(0, i as int));
        i = i + 1;
    }
    assert(children@.subrange(0, i as int) == children@);
    r
}

/// The list entries for the `item` elements among `children`.
pub fn render_item_list(children: &Vec<Node>, level: usize) -> (r: String)
    requires
        1 <= level <= 6,
    ensures
        r@ == render_items(children@, level as nat),
    decreases children,
{
    let mut r = String::new();
    let mut i: usize = 0;
    while i < children.len()
        invariant
            1 <= level <= 6,
            0 <= i <= children@.len(),
            r@ == render_items(children@.subrange(0, i as int), level as nat),
        decreases children@.len() - i,
    {
        let c = &children[i];
        assert(children@.subrange(0, i + 1).drop_last() == children@.subrange(0, i as int));
        if c.has_tag_name("item") {
            match c {
                Node::Element { children: inner, .. } => {
                    proof {
                        lemma_grandchildren_decrease(*children, i as int);
                    }
                    let entry = wrap("<li>", render_children(inner, level, false), "</li>");
                    r.append(entry.as_str());
                },
                Node::Text { .. } => {},
            }
        }
        i = i + 1;
    }
    assert(children@.subrange(0, i as int) == children@);
    r
}

/// The table rows for the `tr` elements among `children`.
pub fn render_table_rows(children: &Vec<Node>, level: usize) -> (r: String)
    requires
        1 <= level <= 6,
    ensures
        r@ == render_rows(children@, level as nat),
    decreases children,
{
    let mut r = String::new();
    let mut i: usize = 0;
    while i < children.len()
        invariant
            1 <= level <= 6,
            0 <= i <= children@.len(),
            r@ == render_rows(children@.subrange(0, i as int), level as nat),
        decreases children@.len() - i,
    {
        let c = &children[i];
        assert(children@.subrange(0, i + 1).drop_last() == children@.subrange(0, i as int));
        if c.has_tag_name("tr") {
            match c {
                Node::Element { children: inner, .. } => {
                    proof {
                        lemma_grandchildren_decrease(*children, i as int);
                    }
                    let row = wrap("<tr>", render_row_cells(inner, level), "</tr>");
                    r.append(row.as_str());
                },
                Node::Text { .. } => {},
            }
        }
        i = i + 1;
    }
    assert(children@.subrange(0, i as int) == children@);
    r
}

/// The table cells for the `td` and `th` elements among `children`.
pub fn render_row_cells(children: &Vec<Node>, level: usize) -> (r: String)
    requires
        1 <= level <= 6,
    ensures
        r@ == render_cells(children@, level as nat),
    decreases children,
{
    let mut r = String::new();
    let mut i: usize = 0;
    while i < children.len()
        invariant
            1 <= level <= 6,
            0 <= i <= children@.len(),
            r@ == render_cells(children@.subrange(0, i as int), level as nat),
        decreases children@.len() - i,
    {
        let c = &children[i];
        assert(children@.subrange(0, i + 1).drop_last() == children@.subrange(0, i as int));
        let is_td = c.has_tag_name("td");
        if is_td || c.has_tag_name("th") {
            match c {
                Node::Element { children: inner, .. } => {
                    proof {
                        lemma_grandchildren_decrease(*children, i as int);
                    }
                    let cell = if is_td {
                        wrap("<td>", render_children(inner, level, false), "</td>")
                    } else {
                        wrap("<th>", render_children(inner, level, false), "</th>")
                    };
                    r.append(cell.as_str());
                },
                Node::Text { .. } => {},
            }
        }
        i = i + 1;
    }
    assert(children@.subrange(0, i as int) == children@);
    r
}

/// Renders a body subtree whose root has no sectioning ancestors.
pub fn process_node(node: &Node) -> (r: String)
    ensures
        r@ == render(*node, 1, false),
{
    render_node(node, 1, false)
}

} // verus!
