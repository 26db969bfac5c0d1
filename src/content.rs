//! Turning the posts of an outbox page into text.
use vstd::prelude::*;
use crate::document::{posts_of, Item, Page};

verus! {

/// The markdown text that html2md makes of an HTML fragment.
pub uninterp spec fn markdown_of(html: Seq<char>) -> Seq<char>;

/// Relies on `html2md::parse_html`: the markdown rendering of an HTML
/// fragment, which depends on the fragment alone.
#[verifier::external_body]
fn html_to_markdown(html: &str) -> (r: String)
    ensures
        r@ == markdown_of(html@),
{
    html2md::parse_html(html)
}

/// The text of an item: the markdown of a post's content, nothing for a boost.
pub open spec fn item_text(item: Item) -> Seq<char> {
    match item {
        Item::Post { object, .. } => markdown_of(object.content@),
        Item::Boost => Seq::empty(),
    }
}

/// The texts of the posts among `items`, in their order.
pub open spec fn rendered_posts(items: Seq<Item>) -> Seq<Seq<char>> {
    posts_of(items).map_values(|i: Item| item_text(i))
}

impl Item {
    /// The markdown of a post's content; the empty string for a boost.
    pub fn markdown_content(&self) -> (r: String)
        ensures
            r@ == item_text(*self),
    {
        match self {
            Item::Boost => String::new(),
            Item::Post { object, .. } => html_to_markdown(object.content.as_str()),
        }
    }
}

/// The text of each post of the page, in order, with the boosts left out.
pub fn extract(page: &Page) -> (r: Vec<String>)
    ensures
        r@.map_values(|s: String| s@) == rendered_posts(page.ordered_items@),
{
    let posts = page.posts();
    let mut texts: Vec<String> = Vec::new();
    let mut i: usize = 0;
    while i < posts.len()
        invariant
            0 <= i <= posts@.len(),
            posts@ == posts_of(page.ordered_items@),
            texts@.len() == i,
            forall|j: int| 0 <= j < i ==> #[trigger] texts@[j]@ == item_text(posts@[j]),
        decreases posts@.len() - i,
    {
        let text = posts[i].markdown_content();
        texts.push(text);
        i = i + 1;
    }
    proof {
        assert(texts@.map_values(|s: String| s@) =~= posts@.map_values(|it: Item| item_text(it)));
    }
    texts
}

} // verus!
