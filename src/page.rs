use vstd::prelude::*;

use crate::render::{render, render_node};
use crate::theme::{get_theme_css, theme_css};
use crate::tree::{extract_text_by_tag, find_element, find_first, text_by_tag, Node};

verus! {

/// The page up to the page title.
pub const PAGE_HEAD: &'static str = "<!DOCTYPE html>
<html lang=\"en\">
<head>
    <meta charset=\"UTF-8\">
    <meta name=\"viewport\" content=\"width=device-width, initial-scale=1.0\">
    <title>";

/// Between the page title and the theme's style sheet.
pub const PAGE_STYLE: &'static str = "</title>
    <style>
";

/// After the style sheet: the math and highlighting assets, up to the header's title.
pub const PAGE_ASSETS: &'static str = "
    </style>
    <link rel=\"stylesheet\" href=\"https://cdnjs.cloudflare.com/ajax/libs/prism/1.29.0/themes/prism-tomorrow.min.css\">
    <script>
        MathJax = {
            tex: {
                inlineMath: [['\\\\(', '\\\\)']],
                displayMath: [['\\\\[', '\\\\]']]
            }
        };
    </script>
    <script src=\"https://cdn.jsdelivr.net/npm/mathjax@3/es5/tex-mml-chtml.js\"></script>
</head>
<body>
    <article>
        <header>
            <h1 class=\"title\">";

/// Between the header's title and the author fragment.
pub const PAGE_AUTHOR: &'static str = "</h1>
            ";

/// Between the author fragment and the body.
pub const PAGE_MAIN: &'static str = "
        </header>
        <main>
";

/// After the body: the highlighting scripts and the end of the page.
pub const PAGE_TAIL: &'static str = "
        </main>
    </article>
    <script src=\"https://cdnjs.cloudflare.com/ajax/libs/prism/1.29.0/prism.min.js\"></script>
    <script src=\"https://cdnjs.cloudflare.com/ajax/libs/prism/1.29.0/components/prism-python.min.js\"></script>
    <script src=\"https://cdnjs.cloudflare.com/ajax/libs/prism/1.29.0/components/prism-java.min.js\"></script>
    <script src=\"https://cdnjs.cloudflare.com/ajax/libs/prism/1.29.0/components/prism-c.min.js\"></script>
    <script src=\"https://cdnjs.cloudflare.com/ajax/libs/prism/1.29.0/components/prism-cpp.min.js\"></script>
    <script src=\"https://cdnjs.cloudflare.com/ajax/libs/prism/1.29.0/components/prism-javascript.min.js\"></script>
    <script src=\"https://cdnjs.cloudflare.com/ajax/libs/prism/1.29.0/components/prism-bash.min.js\"></script>
</body>
</html>";

/// The whole page around a title, a style sheet, an author fragment and a body.
pub open spec fn page_html(title: Seq<char>, css: Seq<char>, author: Seq<char>, body: Seq<char>) -> Seq<char> {
    PAGE_HEAD@ + title + PAGE_STYLE@ + css + PAGE_ASSETS@ + title + PAGE_AUTHOR@ + author
        + PAGE_MAIN@ + body + PAGE_TAIL@
}

/// The author paragraph: present only for a non-empty author text.
pub open spec fn author_fragment(author: Option<Seq<char>>) -> Seq<char> {
    match author {
        Some(a) => if a.len() > 0 {
            "<p class=\"author\">"@ + a + "</p>"@
        } else {
            Seq::empty()
        },
        None => Seq::empty(),
    }
}

/// The page title: the found title text, or "Untitled".
pub open spec fn title_or_default(title: Option<Seq<char>>) -> Seq<char> {
    match title {
        Some(t) => t,
        None => "Untitled"@,
    }
}

/// The rendered body: the first `document` element, or the whole tree if there is none.
pub open spec fn body_of(root: Node) -> Seq<char> {
    match find_first(root, "document"@) {
        Some(d) => render(d, 1, false),
        None => render(root, 1, false),
    }
}

/// The page for a whole tree with the named theme.
pub open spec fn tree_page(root: Node, theme: Seq<char>) -> Seq<char> {
    page_html(
        title_or_default(text_by_tag(root, "title"@)),
        theme_css(theme),
        author_fragment(text_by_tag(root, "creator"@)),
        body_of(root),
    )
}

/// The author paragraph, or nothing for a missing or empty author.
pub fn author_html(author: Option<String>) -> (r: String)
    ensures
        r@ == author_fragment(
            match author {
                Some(a) => Some(a@),
                None => None,
            },
        ),
{
    match author {
        Some(a) => {
            if a.as_str().is_empty() {
                String::new()
            } else {
                let mut r = String::from_str("<p class=\"author\">");
                r.append(a.as_str());
                r.append("</p>");
                r
            }
        },
        None => String::new(),
    }
}

/// Fills the page template.
pub fn assemble_page(title: &str, css: &str, author: &str, body: &str) -> (r: String)
    ensures
        r@ == page_html(title@, css@, author@, body@),
{
    let mut r = String::from_str(PAGE_HEAD);
    r.append(title);
    r.append(PAGE_STYLE);
    r.append(css);
    r.append(PAGE_ASSETS);
    r.append(title);
    r.append(PAGE_AUTHOR);
    r.append(author);
    r.append(PAGE_MAIN);
    r.append(body);
    r.append(PAGE_TAIL);
    r
}

/// The complete page for a parsed tree: its title (or "Untitled"), the theme's style
/// sheet, the author paragraph if there is a non-empty author, and the rendered body.
pub fn tree_to_html(root: &Node, theme: &str) -> (r: String)
    ensures
        r@ == tree_page(*root, theme@),
{
    let title = match extract_text_by_tag(root, "title") {
        Some(t) => t,
        None => String::from_str("Untitled"),
    };
    let author = author_html(extract_text_by_tag(root, "creator"));
    let body = match find_element(root, "document") {
        Some(d) => render_node(d, 1, false),
        None => render_node(root, 1, false),
    };
    let css = get_theme_css(theme);
    assemble_page(title.as_str(), css.as_str(), author.as_str(), body.as_str())
}

} // verus!
