use latex2web::render::{classify, Kind};
use latex2web::text::{is_whitespace, trim};
use latex2web::{
    author_html, extract_text_by_tag, find_element, get_all_text, get_theme_css, html_escape,
    process_node, render_node, tree_to_html, Node,
};

fn el(tag: &str, children: Vec<Node>) -> Node {
    Node::Element { tag: tag.to_string(), attrs: vec![], children }
}

fn el_attr(tag: &str, name: &str, value: &str, children: Vec<Node>) -> Node {
    Node::Element {
        tag: tag.to_string(),
        attrs: vec![(name.to_string(), value.to_string())],
        children,
    }
}

fn txt(s: &str) -> Node {
    Node::Text { text: s.to_string() }
}

fn nested_title(depth: usize) -> Node {
    let mut n = el("title", vec![txt("T")]);
    for _ in 0..depth {
        n = el("section", vec![n]);
    }
    n
}

#[test]
fn heading_level_follows_section_depth() {
    for (depth, level) in [(0, 1), (1, 2), (2, 3), (3, 4), (4, 5), (5, 6), (10, 6)] {
        let out = process_node(&nested_title(depth));
        let expected = format!(
            "{}<h{}>T </h{}>{}",
            "<section>".repeat(depth),
            level,
            level,
            "</section>".repeat(depth)
        );
        assert_eq!(out, expected);
    }
}

#[test]
fn title_in_section_is_level_two() {
    let n = el("section", vec![el("title", vec![txt("S")]), el("para", vec![txt("x")])]);
    assert_eq!(process_node(&n), "<section><h2>S </h2><p>x </p></section>");
}

#[test]
fn document_title_not_in_body() {
    let doc = el("document", vec![el("title", vec![txt("Hi")]), el("para", vec![txt("body")])]);
    assert_eq!(process_node(&doc), "<p>body </p>");
    let page = tree_to_html(&doc, "clean-serif");
    assert_eq!(page.matches("Hi").count(), 2);
    assert!(page.contains("<title>Hi</title>"));
    assert!(page.contains("<h1 class=\"title\">Hi</h1>"));
}

#[test]
fn title_elsewhere_is_rendered() {
    let n = el("para", vec![el("title", vec![txt("Inline")])]);
    assert_eq!(process_node(&n), "<p><h1>Inline </h1></p>");
    assert_eq!(render_node(&el("title", vec![txt("X")]), 3, true), "");
    assert_eq!(render_node(&el("title", vec![txt("X")]), 3, false), "<h3>X </h3>");
}

#[test]
fn dropped_tags_hide_their_content() {
    for tag in ["tags", "tag", "ref", "bibref"] {
        let n = el(
            "para",
            vec![txt("a"), el(tag, vec![el("para", vec![txt("hidden")])]), txt("b")],
        );
        assert_eq!(process_node(&n), "<p>a b </p>");
    }
}

#[test]
fn unknown_tags_are_transparent() {
    let wrapped = el("foo", vec![el("para", vec![txt("x")])]);
    let bare = el("para", vec![txt("x")]);
    assert_eq!(process_node(&wrapped), process_node(&bare));
    assert_eq!(process_node(&wrapped), "<p>x </p>");
}

#[test]
fn lists_ignore_non_items() {
    let kids = || {
        vec![
            el("item", vec![txt("a")]),
            el("para", vec![txt("b")]),
            txt("loose"),
            el("item", vec![txt("c")]),
        ]
    };
    assert_eq!(process_node(&el("itemize", kids())), "<ul><li>a </li><li>c </li></ul>");
    assert_eq!(process_node(&el("enumerate", kids())), "<ol><li>a </li><li>c </li></ol>");
}

#[test]
fn tables_ignore_other_children() {
    let row = el(
        "tr",
        vec![el("td", vec![txt("1")]), el("para", vec![txt("x")]), el("th", vec![txt("2")])],
    );
    for tag in ["tabular", "table"] {
        let t = el(tag, vec![row_clone(&row), el("para", vec![txt("y")])]);
        assert_eq!(
            process_node(&t),
            "<div class=\"table-wrapper\"><table><tr><td>1 </td><th>2 </th></tr></table></div>"
        );
    }
}

fn row_clone(n: &Node) -> Node {
    match n {
        Node::Element { tag, attrs, children } => Node::Element {
            tag: tag.clone(),
            attrs: attrs.clone(),
            children: children.iter().map(row_clone).collect(),
        },
        Node::Text { text } => Node::Text { text: text.clone() },
    }
}

#[test]
fn code_is_escaped_math_is_not() {
    let code = el_attr("verbatim", "language", "py", vec![txt("a<b")]);
    assert_eq!(process_node(&code), "<pre><code class=\"language-py\">a&lt;b</code></pre>");
    let listing = el("lstlisting", vec![txt("x && y")]);
    assert_eq!(process_node(&listing), "<pre><code class=\"language-\">x &amp;&amp; y</code></pre>");
    let inline = el("Math", vec![txt("a<b")]);
    assert_eq!(process_node(&inline), "\\(a<b\\)");
    let display = el_attr("math", "mode", "display", vec![txt("a<b")]);
    assert_eq!(process_node(&display), "<div class=\"math-display\">\\[a<b\\]</div>");
}

#[test]
fn theme_resolution() {
    assert_ne!(get_theme_css("dark"), get_theme_css("clean-serif"));
    assert_eq!(get_theme_css("anything-else"), get_theme_css("clean-serif"));
    assert!(get_theme_css("dark").starts_with("/* dark */"));
}

#[test]
fn author_paragraph_omission() {
    assert_eq!(author_html(Some(String::new())), "");
    assert_eq!(author_html(None), "");
    assert_eq!(author_html(Some("A. Writer".to_string())), "<p class=\"author\">A. Writer</p>");
}

#[test]
fn page_with_author() {
    let doc = el(
        "document",
        vec![
            el("title", vec![txt("Hi")]),
            el("creator", vec![el("personname", vec![txt("A. Writer")])]),
        ],
    );
    let page = tree_to_html(&doc, "dark");
    assert_eq!(page.matches("<p class=\"author\">A. Writer</p>").count(), 1);
    assert!(page.contains("/* dark */"));
    let empty = el("document", vec![el("creator", vec![])]);
    let page = tree_to_html(&empty, "dark");
    assert!(!page.contains("class=\"author\""));
    assert!(page.contains("<title>Untitled</title>"));
}

#[test]
fn end_to_end_hello_world() {
    let doc = el(
        "document",
        vec![
            el("title", vec![txt("Hi")]),
            el(
                "para",
                vec![el("text", vec![txt("Hello ")]), el_attr("text", "font", "bold", vec![txt("world")])],
            ),
        ],
    );
    let body = process_node(&doc);
    assert_eq!(body, "<p>Hello <strong>world </strong></p>");
    let page = tree_to_html(&doc, "clean-serif");
    assert!(page.contains("<title>Hi</title>"));
    assert!(page.contains("<main>\n<p>Hello <strong>world </strong></p>\n        </main>"));
    assert!(!page.contains("class=\"author\""));
}

#[test]
fn end_to_end_figure() {
    let g = el_attr("graphics", "graphic", "x.png", vec![el("caption", vec![txt("Fig 1")])]);
    assert_eq!(
        process_node(&g),
        "<figure><img src=\"x.png\" alt=\"Fig 1\"><figcaption>Fig 1</figcaption></figure>"
    );
    let bare = el_attr("figure", "graphic", "a.png", vec![]);
    assert_eq!(process_node(&bare), "<figure><img src=\"a.png\" alt=\"\"></figure>");
    let no_src = el("figure", vec![el("para", vec![txt("x")])]);
    assert_eq!(process_node(&no_src), "<p>x </p>");
}

#[test]
fn inline_styles() {
    assert_eq!(process_node(&el_attr("text", "font", "typewriter", vec![txt("x")])), "<code>x </code>");
    assert_eq!(process_node(&el_attr("text", "font", "italic", vec![txt("x")])), "x ");
    assert_eq!(process_node(&el("emph", vec![txt("x")])), "<em>x </em>");
    assert_eq!(process_node(&el("em", vec![txt("x")])), "<em>x </em>");
    assert_eq!(process_node(&el("p", vec![txt("x")])), "<p>x </p>");
    assert_eq!(process_node(&el("creator", vec![txt("x")])), "");
}

#[test]
fn text_is_trimmed() {
    assert_eq!(process_node(&txt("  \n\t ")), "");
    assert_eq!(process_node(&txt("\u{3000} a b \u{a0}")), "a b ");
    assert_eq!(trim("  x y \n"), "x y");
    assert_eq!(trim(""), "");
    assert!(is_whitespace('\u{2028}'));
    assert!(!is_whitespace('x'));
}

#[test]
fn escape_all_five() {
    assert_eq!(html_escape("&<>\"'"), "&amp;&lt;&gt;&quot;&#39;");
    assert_eq!(html_escape("plain é"), "plain é");
    assert_eq!(html_escape(""), "");
}

#[test]
fn flatten_and_search() {
    let tree = el(
        "document",
        vec![
            el("title", vec![txt("A"), el("emph", vec![txt("B")])]),
            el("section", vec![el("title", vec![txt("Second")])]),
        ],
    );
    assert_eq!(get_all_text(&tree), "ABSecond");
    assert_eq!(extract_text_by_tag(&tree, "title"), Some("AB".to_string()));
    assert_eq!(extract_text_by_tag(&tree, "creator"), None);
    let found = find_element(&tree, "document").unwrap();
    assert!(found.has_tag_name("document"));
    assert!(find_element(&tree, "missing").is_none());
}

#[test]
fn body_without_document_element() {
    let root = el("article", vec![el("para", vec![txt("x")])]);
    let page = tree_to_html(&root, "clean-serif");
    assert!(page.contains("<main>\n<p>x </p>\n"));
}

#[test]
fn classification() {
    assert_eq!(classify("section", &vec![]), Kind::Section);
    assert_eq!(classify("bibref", &vec![]), Kind::Dropped);
    assert_eq!(classify("document", &vec![]), Kind::Transparent);
    assert_eq!(
        classify("text", &vec![("font".to_string(), "bold".to_string())]),
        Kind::Strong
    );
}
