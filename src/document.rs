//! The WebFinger and ActivityPub documents read along the way, and the
//! address each of them leads to.
use vstd::prelude::*;
use crate::error::{ApreadErrors, NoFeedLink};

verus! {

/// One link of a WebFinger document, told apart by its `rel`.
#[derive(Debug)]
pub enum Link {
    /// The profile page of the user.
    Profile,
    /// The actor document; `href` is its address.
    Feed { href: String },
    /// The server's subscription template.
    Subscribe,
    /// A link of any other kind, kept only to be ignored.
    Other,
}

/// A WebFinger document: the links that describe an identity.
#[derive(Debug)]
pub struct Webfinger {
    pub links: Vec<Link>,
}

/// An ActivityPub actor: only the address of its outbox is read.
#[derive(Debug)]
pub struct Actor {
    pub outbox: String,
}

/// The index of an outbox collection.
#[derive(Debug)]
pub struct OutboxIndex {
    pub first: String,
    pub last: String,
    pub total_items: usize,
}

/// The body of a post.
#[derive(Debug)]
pub struct Post {
    pub content: String,
}

/// One activity of an outbox page: a `Create` is a post, anything else a boost.
#[derive(Debug)]
pub enum Item {
    Post { object: Post, published: String },
    Boost,
}

/// One page of an outbox.
#[derive(Debug)]
pub struct Page {
    pub ordered_items: Vec<Item>,
}

/// The `href` of the last feed link of `links`, if any.
pub open spec fn last_feed(links: Seq<Link>) -> Option<Seq<char>>
    decreases links.len(),
{
    if links.len() == 0 {
        None
    } else {
        match links.last() {
            Link::Feed { href } => Some(href@),
            _ => last_feed(links.drop_last()),
        }
    }
}

/// The posts of `items`, in their order, without the boosts.
pub open spec fn posts_of(items: Seq<Item>) -> Seq<Item>
    decreases items.len(),
{
    if items.len() == 0 {
        Seq::empty()
    } else {
        let rest = posts_of(items.drop_last());
        if items.last() is Post {
            rest.push(items.last())
        } else {
            rest
        }
    }
}

/// A document without a feed link resolves to no feed.
pub proof fn lemma_no_feed_link(links: Seq<Link>)
    requires
        forall|i: int| 0 <= i < links.len() ==> !(links[i] is Feed),
    ensures
        last_feed(links) is None,
    decreases links.len(),
{
    if links.len() > 0 {
        lemma_no_feed_link(links.drop_last());
    }
}

/// Of several feed links, the last one is the one resolved to.
pub proof fn lemma_last_feed_wins(links: Seq<Link>, k: int)
    requires
        0 <= k < links.len(),
        links[k] is Feed,
        forall|j: int| k < j < links.len() ==> !(links[j] is Feed),
    ensures
        last_feed(links) == Some(links[k]->Feed_href@),
    decreases links.len(),
{
    if k < links.len() - 1 {
        lemma_last_feed_wins(links.drop_last(), k);
    }
}

impl Webfinger {
    /// The address of the actor: the `href` of the last feed link, scanning in
    /// order; `NoFeedLink` when there is none.
    pub fn to_actor_url(&self) -> (r: Result<String, ApreadErrors>)
        ensures
            match last_feed(self.links@) {
                Some(href) => r matches Ok(u) && u@ == href,
                None => r matches Err(ApreadErrors::NoFeedLink(_)),
            },
    {
        let mut feed: Result<String, ApreadErrors> = Err(ApreadErrors::NoFeedLink(NoFeedLink));
        let mut i: usize = 0;
        while i < self.links.len()
            invariant
                0 <= i <= self.links@.len(),
                match last_feed(self.links@.subrange(0, i as int)) {
                    Some(href) => feed matches Ok(u) && u@ == href,
                    None => feed matches Err(ApreadErrors::NoFeedLink(_)),
                },
            decreases self.links@.len() - i,
        {
            proof {
                assert(self.links@.subrange(0, i + 1).drop_last() =~= self.links@.subrange(
                    0,
                    i as int,
                ));
            }
            match &self.links[i] {
                Link::Feed { href } => {
                    feed = Ok(href.clone());
                },
                _ => {},
            }
            i = i + 1;
        }
        proof {
            assert(self.links@.subrange(0, i as int) =~= self.links@);
        }
        feed
    }
}

/// A copy of a post item, field for field.
fn copy_post(object: &Post, published: &String) -> (r: Item)
    ensures
        r == (Item::Post { object: Post { content: object.content }, published: *published }),
{
    Item::Post { object: Post { content: object.content.clone() }, published: published.clone() }
}

impl Page {
    /// The post items of the page, in their order, without the boosts.
    pub fn posts(&self) -> (r: Vec<Item>)
        ensures
            r@ == posts_of(self.ordered_items@),
    {
        let mut posts: Vec<Item> = Vec::new();
        let mut i: usize = 0;
        while i < self.ordered_items.len()
            invariant
                0 <= i <= self.ordered_items@.len(),
                posts@ == posts_of(self.ordered_items@.subrange(0, i as int)),
            decreases self.ordered_items@.len() - i,
        {
            proof {
                assert(self.ordered_items@.subrange(0, i + 1).drop_last()
                    =~= self.ordered_items@.subrange(0, i as int));
            }
            match &self.ordered_items[i] {
                Item::Post { object, published } => {
                    posts.push(copy_post(object, published));
                },
                Item::Boost => {},
            }
            i = i + 1;
        }
        proof {
            assert(self.ordered_items@.subrange(0, i as int) =~= self.ordered_items@);
        }
        posts
    }
}

} // verus!
