//! Renders the intermediate markup tree of a LaTeX document as one HTML page.

pub mod laws;
pub mod page;
pub mod render;
pub mod text;
pub mod theme;
pub mod tree;

pub use page::{author_html, tree_to_html};
pub use render::{process_node, render_node};
pub use text::html_escape;
pub use theme::get_theme_css;
pub use tree::{extract_text_by_tag, find_element, get_all_text, Node};
