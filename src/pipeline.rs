//! The resolution as a state machine: each step takes the decoded answer to
//! the last request and says which request to make next, what to show, or why
//! the resolution failed. Making the requests is left to the caller.
use vstd::prelude::*;
use crate::content::{extract, rendered_posts};
use crate::document::{last_feed, Actor, OutboxIndex, Page, Webfinger};
use crate::error::ApreadErrors;
use crate::handle::{domain_part, id_part, is_handle_text, webfinger_url_of, Handle};
use crate::present::{render, rendered_lines};

verus! {

/// The `Accept` value of the WebFinger request.
pub open spec fn webfinger_accept_text() -> Seq<char> {
    "application/activity+json"@
}

/// The `Accept` value of the ActivityPub requests.
pub open spec fn activity_accept_text() -> Seq<char> {
    "application/ld+json; profile=\"https://www.w3.org/ns/activitystreams\""@
}

/// The `Accept` value of the WebFinger request.
pub fn webfinger_accept() -> (r: String)
    ensures
        r@ == webfinger_accept_text(),
{
    String::from_str("application/activity+json")
}

/// The `Accept` value of the ActivityPub requests.
pub fn activity_accept() -> (r: String)
    ensures
        r@ == activity_accept_text(),
{
    String::from_str("application/ld+json; profile=\"https://www.w3.org/ns/activitystreams\"")
}

/// The document a resolution waits for next.
#[derive(Debug, Clone, Copy, PartialEq, Eq, Structural)]
pub enum Stage {
    Webfinger,
    Actor,
    OutboxIndex,
    Page,
    Finished,
}

/// A GET request: the address and the `Accept` header.
#[derive(Debug)]
pub struct Request {
    pub url: String,
    pub accept: String,
}

/// A decoded response body.
#[derive(Debug)]
pub enum Document {
    Webfinger(Webfinger),
    Actor(Actor),
    OutboxIndex(OutboxIndex),
    Page(Page),
}

/// What the caller does next.
#[derive(Debug)]
pub enum Action {
    /// Make this request and hand back its decoded answer.
    Fetch(Request),
    /// Print these lines; the resolution is over.
    Show(Vec<String>),
    /// Report this error; the resolution is over.
    Fail(ApreadErrors),
}

/// A resolution under way for one handle.
#[derive(Debug)]
pub struct Pipeline {
    pub handle: Handle,
    pub stage: Stage,
}

/// `doc` is the kind of document that `stage` waits for.
pub open spec fn fits(stage: Stage, doc: Document) -> bool {
    match doc {
        Document::Webfinger(_) => stage == Stage::Webfinger,
        Document::Actor(_) => stage == Stage::Actor,
        Document::OutboxIndex(_) => stage == Stage::OutboxIndex,
        Document::Page(_) => stage == Stage::Page,
    }
}

/// `a` fetches `url` with the ActivityPub `Accept` value.
pub open spec fn fetches_activity(a: Action, url: Seq<char>) -> bool {
    a matches Action::Fetch(req) && req.url@ == url && req.accept@ == activity_accept_text()
}

impl Pipeline {
    /// Begins the resolution of the handle `raw`: the pipeline waits for the
    /// WebFinger document, and the request returned fetches it. Fails with
    /// `BadHandleError` exactly when `raw` is no handle.
    pub fn start(raw: &str) -> (r: Result<(Pipeline, Request), ApreadErrors>)
        ensures
            r is Ok <==> is_handle_text(raw@),
            r matches Err(e) ==> e is BadHandleError,
            r matches Ok((p, req)) ==> {
                &&& p.handle.id@ == id_part(raw@)
                &&& p.handle.domain@ == domain_part(raw@)
                &&& p.handle.wf()
                &&& p.stage == Stage::Webfinger
                &&& req.url@ == webfinger_url_of(p.handle.id@, p.handle.domain@)
                &&& req.accept@ == webfinger_accept_text()
            },
    {
        match Handle::parse_string(raw) {
            Err(e) => Err(ApreadErrors::BadHandleError(e)),
            Ok(handle) => {
                let url = handle.to_webfinger_url();
                let req = Request { url, accept: webfinger_accept() };
                Ok((Pipeline { handle, stage: Stage::Webfinger }, req))
            },
        }
    }

    /// Takes the answer to the last request. A failed request ends the
    /// resolution with `RequestError`. The WebFinger document leads to its last
    /// feed link (or ends with `NoFeedLink`), the actor to its outbox, the
    /// outbox index to its first page, and the page ends the resolution with
    /// the lines of its posts.
    pub fn step(&mut self, event: Result<Document, String>) -> (a: Action)
        requires
            old(self).stage != Stage::Finished,
            event matches Ok(doc) ==> fits(old(self).stage, doc),
        ensures
            final(self).handle == old(self).handle,
            match event {
                Err(m) => {
                    &&& a matches Action::Fail(ApreadErrors::RequestError(t)) && t@ == m@
                    &&& final(self).stage == Stage::Finished
                },
                Ok(Document::Webfinger(w)) => match last_feed(w.links@) {
                    Some(href) => {
                        &&& fetches_activity(a, href)
                        &&& final(self).stage == Stage::Actor
                    },
                    None => {
                        &&& a matches Action::Fail(ApreadErrors::NoFeedLink(_))
                        &&& final(self).stage == Stage::Finished
                    },
                },
                Ok(Document::Actor(actor)) => {
                    &&& fetches_activity(a, actor.outbox@)
                    &&& final(self).stage == Stage::OutboxIndex
                },
                Ok(Document::OutboxIndex(index)) => {
                    &&& fetches_activity(a, index.first@)
                    &&& final(self).stage == Stage::Page
                },
                Ok(Document::Page(page)) => {
                    &&& a matches Action::Show(lines) && lines@.map_values(|s: String| s@)
                        == rendered_lines(
                        old(self).handle.id@,
                        rendered_posts(page.ordered_items@),
                    )
                    &&& final(self).stage == Stage::Finished
                },
            },
    {
        match event {
            Err(m) => {
                self.stage = Stage::Finished;
                Action::Fail(ApreadErrors::RequestError(m))
            },
            Ok(Document::Webfinger(w)) => match w.to_actor_url() {
                Ok(url) => {
                    self.stage = Stage::Actor;
                    Action::Fetch(Request { url, accept: activity_accept() })
                },
                Err(e) => {
                    self.stage = Stage::Finished;
                    Action::Fail(e)
                },
            },
            Ok(Document::Actor(actor)) => {
                self.stage = Stage::OutboxIndex;
                Action::Fetch(Request { url: actor.outbox, accept: activity_accept() })
            },
            Ok(Document::OutboxIndex(index)) => {
                self.stage = Stage::Page;
                Action::Fetch(Request { url: index.first, accept: activity_accept() })
            },
            Ok(Document::Page(page)) => {
                let texts = extract(&page);
                let lines = render(&self.handle, &texts);
                self.stage = Stage::Finished;
                Action::Show(lines)
            },
        }
    }
}

} // verus!
