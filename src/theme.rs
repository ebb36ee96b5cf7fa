use vstd::prelude::*;

use crate::text::str_eq;

verus! {

/// The default theme: serif body text on a light page.
pub const CLEAN_SERIF_CSS: &'static str = "body { margin: 0; background: #fdfdfb; color: #222; font-family: Georgia, 'Times New Roman', serif; line-height: 1.6; }
article { max-width: 42rem; margin: 0 auto; padding: 2rem 1rem; }
h1, h2, h3, h4, h5, h6 { font-weight: normal; line-height: 1.25; }
.title { font-size: 2.2rem; margin-bottom: 0.25rem; }
.author { color: #555; font-style: italic; }
pre { background: #2d2d2d; padding: 1rem; overflow-x: auto; border-radius: 4px; }
code { font-family: Menlo, Consolas, monospace; font-size: 0.9em; }
figure { margin: 1.5rem 0; text-align: center; }
figure img { max-width: 100%; }
figcaption { color: #555; font-size: 0.9rem; }
.table-wrapper { overflow-x: auto; }
table { border-collapse: collapse; margin: 1rem auto; }
td, th { border: 1px solid #ccc; padding: 0.3rem 0.6rem; }
.math-display { overflow-x: auto; margin: 1rem 0; }";

/// The dark theme: light sans-serif text on a dark page.
pub const DARK_CSS: &'static str = "body { margin: 0; background: #16181d; color: #d8dae0; font-family: -apple-system, 'Segoe UI', Helvetica, Arial, sans-serif; line-height: 1.6; }
article { max-width: 42rem; margin: 0 auto; padding: 2rem 1rem; }
a { color: #7fb4ff; }
h1, h2, h3, h4, h5, h6 { color: #f2f3f5; line-height: 1.25; }
.title { font-size: 2.2rem; margin-bottom: 0.25rem; }
.author { color: #9aa0ab; }
pre { background: #0e0f12; padding: 1rem; overflow-x: auto; border-radius: 4px; }
code { font-family: Menlo, Consolas, monospace; font-size: 0.9em; }
figure { margin: 1.5rem 0; text-align: center; }
figure img { max-width: 100%; }
figcaption { color: #9aa0ab; font-size: 0.9rem; }
.table-wrapper { overflow-x: auto; }
table { border-collapse: collapse; margin: 1rem auto; }
td, th { border: 1px solid #3a3f4b; padding: 0.3rem 0.6rem; }
.math-display { overflow-x: auto; margin: 1rem 0; }";

/// The style sheet for a theme name: "dark" has its own, every other name gets the
/// default. Each sheet opens with a comment that names it.
pub open spec fn theme_css(name: Seq<char>) -> Seq<char> {
    if name == "dark"@ {
        "/* dark */\n"@ + DARK_CSS@
    } else {
        "/* clean-serif */\n"@ + CLEAN_SERIF_CSS@
    }
}

/// The style sheet of the named theme; unknown names fall back to the default.
pub fn get_theme_css(theme: &str) -> (r: String)
    ensures
        r@ == theme_css(theme@),
{
    let mut r;
    if str_eq(theme, "dark") {
        r = String::from_str("/* dark */\n");
        r.append(DARK_CSS);
    } else {
        r = String::from_str("/* clean-serif */\n");
        r.append(CLEAN_SERIF_CSS);
    }
    r
}

/// The dark theme differs from the default, and every name other than "dark",
/// known or not, resolves to the default.
pub proof fn law_theme_fallback(name: Seq<char>)
    ensures
        theme_css("dark"@) != theme_css("clean-serif"@),
        name != "dark"@ ==> theme_css(name) == theme_css("clean-serif"@),
{
    reveal_strlit("dark");
    reveal_strlit("clean-serif");
    reveal_strlit("/* dark */\n");
    reveal_strlit("/* clean-serif */\n");
    assert("dark"@ != "clean-serif"@) by {
        assert("dark"@.len() != "clean-serif"@.len());
    }
    let d = "/* dark */\n"@ + DARK_CSS@;
    let c = "/* clean-serif */\n"@ + CLEAN_SERIF_CSS@;
    assert(d[3] == 'd');
    assert(c[3] == 'c');
}

} // verus!
