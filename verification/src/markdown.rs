//! The content of posts: written in Markdown, shown as HTML.

use vstd::prelude::*;

verus! {

/// The HTML that `comrak::markdown_to_html` renders a Markdown text as, with the default
/// options and the four extensions switched as given.
pub uninterp spec fn rendered_html(
    markdown: Seq<char>,
    strikethrough: bool,
    table: bool,
    autolink: bool,
    tasklist: bool,
) -> Seq<char>;

/// Renders Markdown as HTML.
///
/// Calls `comrak::markdown_to_html` with `comrak::Options::default()` in which the
/// extensions for strikethrough, tables, autolinks and task lists are set as given. The
/// result depends on the text and the four switches alone, and the contract gives it a name.
#[verifier::external_body]
fn markdown_to_html(
    markdown: &str,
    strikethrough: bool,
    table: bool,
    autolink: bool,
    tasklist: bool,
) -> (r: String)
    ensures
        r@ == rendered_html(markdown@, strikethrough, table, autolink, tasklist),
{
    let mut options = comrak::Options::default();
    options.extension.strikethrough = strikethrough;
    options.extension.table = table;
    options.extension.autolink = autolink;
    options.extension.tasklist = tasklist;
    comrak::markdown_to_html(markdown, &options)
}

/// The HTML that the content of a post is shown as: rendered with strikethrough, tables,
/// autolinks and task lists.
pub open spec fn spec_post_html(content: Seq<char>) -> Seq<char> {
    rendered_html(content, true, true, true, true)
}

/// Renders the content of a post.
pub fn render_post(content: &str) -> (r: String)
    ensures
        r@ == spec_post_html(content@),
{
    markdown_to_html(content, true, true, true, true)
}

} // verus!
