use apread::content::extract;
use apread::document::{Actor, Item, Link, OutboxIndex, Page, Post, Webfinger};
use apread::error::ApreadErrors;
use apread::handle::{BadHandleError, Handle};
use apread::pipeline::{Action, Document, Pipeline, Stage};
use apread::present::{align_right, format_block, render};

const LD: &str = "application/ld+json; profile=\"https://www.w3.org/ns/activitystreams\"";

fn post(content: &str) -> Item {
    Item::Post {
        object: Post { content: content.to_string() },
        published: "2024-01-01T00:00:00Z".to_string(),
    }
}

fn feed(href: &str) -> Link {
    Link::Feed { href: href.to_string() }
}

fn handle(id: &str, domain: &str) -> Handle {
    Handle { id: id.to_string(), domain: domain.to_string() }
}

#[test]
fn parse_splits_at_the_at_sign() {
    let h = Handle::parse_string("alice@example.social").unwrap();
    assert_eq!(h.id, "alice");
    assert_eq!(h.domain, "example.social");
}

#[test]
fn parse_ignores_parts_after_a_second_at_sign() {
    let h = Handle::parse_string("a@b@c").unwrap();
    assert_eq!(h.id, "a");
    assert_eq!(h.domain, "b");
}

#[test]
fn parse_rejects_text_without_at_sign() {
    assert_eq!(Handle::parse_string("alice").unwrap_err(), BadHandleError);
    assert_eq!(Handle::parse_string("").unwrap_err(), BadHandleError);
}

#[test]
fn parse_rejects_empty_sides() {
    assert!(Handle::parse_string("@example.social").is_err());
    assert!(Handle::parse_string("alice@").is_err());
    assert!(Handle::parse_string("@").is_err());
    assert!(Handle::parse_string("a@@c").is_err());
}

#[test]
fn parse_keeps_non_ascii_text() {
    let h = Handle::parse_string("zoë@exämple.org").unwrap();
    assert_eq!(h.id, "zoë");
    assert_eq!(h.domain, "exämple.org");
}

#[test]
fn webfinger_url_of_handle() {
    let h = Handle::parse_string("alice@example.social").unwrap();
    assert_eq!(
        h.to_webfinger_url(),
        "https://example.social/.well-known/webfinger?resource=acct:alice@example.social"
    );
}

#[test]
fn last_feed_link_wins() {
    let w = Webfinger { links: vec![Link::Profile, feed("A"), feed("B"), Link::Subscribe] };
    assert_eq!(w.to_actor_url().unwrap(), "B");
}

#[test]
fn no_feed_link_is_an_error() {
    let w = Webfinger { links: vec![Link::Profile, Link::Subscribe, Link::Other] };
    assert!(matches!(w.to_actor_url(), Err(ApreadErrors::NoFeedLink(_))));
    let empty = Webfinger { links: vec![] };
    assert!(matches!(empty.to_actor_url(), Err(ApreadErrors::NoFeedLink(_))));
}

#[test]
fn feed_href_is_taken_verbatim() {
    let w = Webfinger {
        links: vec![Link::Profile, feed("https://example.social/actor/alice"), Link::Subscribe],
    };
    assert_eq!(w.to_actor_url().unwrap(), "https://example.social/actor/alice");
}

#[test]
fn posts_skip_boosts_in_order() {
    let page = Page { ordered_items: vec![post("<p>hi</p>"), Item::Boost, post("<b>x</b>")] };
    let posts = page.posts();
    assert_eq!(posts.len(), 2);
    assert!(matches!(&posts[0], Item::Post { object, .. } if object.content == "<p>hi</p>"));
    assert!(matches!(&posts[1], Item::Post { object, .. } if object.content == "<b>x</b>"));
}

#[test]
fn extract_renders_posts_in_order() {
    let page = Page { ordered_items: vec![post("<p>hi</p>"), Item::Boost, post("<b>x</b>")] };
    let texts = extract(&page);
    assert_eq!(texts.len(), 2);
    assert_eq!(texts[0], html2md::parse_html("<p>hi</p>"));
    assert_eq!(texts[1], html2md::parse_html("<b>x</b>"));
    assert!(texts[0].contains("hi") && !texts[0].contains("<p>"));
    assert!(texts[1].contains('x') && !texts[1].contains("<b>"));
}

#[test]
fn boost_has_no_text() {
    assert_eq!(Item::Boost.markdown_content(), "");
    assert_eq!(post("<p>hi</p>").markdown_content(), html2md::parse_html("<p>hi</p>"));
}

#[test]
fn align_right_pads_to_width() {
    assert_eq!(align_right("alice", 15), "          alice");
    assert_eq!(align_right("a_rather_long_user_id", 15), "a_rather_long_user_id");
    assert_eq!(align_right("", 3), "   ");
}

#[test]
fn block_has_header_indented_lines_and_blank() {
    let lines = format_block("bob", &vec!["one".to_string(), "two".to_string()]);
    assert_eq!(lines, vec!["            bob", "     one", "     two", ""]);
}

#[test]
fn render_wraps_long_posts_at_eighty_columns() {
    let words: Vec<String> = (0..40).map(|i| format!("w{:03}", i)).collect();
    let body = words.join(" ");
    assert_eq!(body.chars().count(), 199);
    let long = format!("{}x", body);
    assert_eq!(long.chars().count(), 200);
    let lines = render(&handle("alice", "example.social"), &vec![long.clone()]);
    assert_eq!(lines[0], "          alice");
    assert_eq!(lines.last().unwrap(), "");
    let body_lines: Vec<&str> = lines[1..lines.len() - 1].iter().map(|l| l.as_str()).collect();
    assert!(body_lines.len() >= 3);
    for l in &body_lines {
        assert!(l.starts_with("     "));
        assert!(l[5..].chars().count() <= 80);
    }
    let joined: Vec<&str> = body_lines.iter().map(|l| &l[5..]).collect();
    assert_eq!(joined.join(" "), long);
}

#[test]
fn render_of_no_posts_is_empty() {
    assert!(render(&handle("alice", "example.social"), &vec![]).is_empty());
}

#[test]
fn start_builds_the_webfinger_request() {
    let (p, req) = Pipeline::start("alice@example.social").unwrap();
    assert_eq!(p.stage, Stage::Webfinger);
    assert_eq!(p.handle.id, "alice");
    assert_eq!(
        req.url,
        "https://example.social/.well-known/webfinger?resource=acct:alice@example.social"
    );
    assert_eq!(req.accept, "application/activity+json");
}

#[test]
fn start_rejects_a_bad_handle() {
    let r = Pipeline::start("nobody");
    assert!(matches!(r, Err(ApreadErrors::BadHandleError(_))));
}

#[test]
fn full_resolution_walk() {
    let (mut p, _) = Pipeline::start("alice@example.social").unwrap();
    let w = Webfinger { links: vec![Link::Profile, feed("https://example.social/actor/alice")] };
    let a = p.step(Ok(Document::Webfinger(w)));
    match a {
        Action::Fetch(req) => {
            assert_eq!(req.url, "https://example.social/actor/alice");
            assert_eq!(req.accept, LD);
        }
        other => panic!("unexpected {:?}", other),
    }
    assert_eq!(p.stage, Stage::Actor);

    let a = p.step(Ok(Document::Actor(Actor {
        outbox: "https://example.social/outbox".to_string(),
    })));
    assert!(matches!(&a, Action::Fetch(r) if r.url == "https://example.social/outbox" && r.accept == LD));
    assert_eq!(p.stage, Stage::OutboxIndex);

    let index = OutboxIndex {
        first: "https://example.social/outbox?page=1".to_string(),
        last: "https://example.social/outbox?min_id=0&page=1".to_string(),
        total_items: 3,
    };
    let a = p.step(Ok(Document::OutboxIndex(index)));
    assert!(matches!(&a, Action::Fetch(r) if r.url == "https://example.social/outbox?page=1" && r.accept == LD));
    assert_eq!(p.stage, Stage::Page);

    let page = Page { ordered_items: vec![post("<p>hi</p>"), Item::Boost] };
    match p.step(Ok(Document::Page(page))) {
        Action::Show(lines) => {
            assert_eq!(lines[0], "          alice");
            assert_eq!(lines[1], format!("     {}", html2md::parse_html("<p>hi</p>")));
            assert_eq!(lines[2], "");
            assert_eq!(lines.len(), 3);
        }
        other => panic!("unexpected {:?}", other),
    }
    assert_eq!(p.stage, Stage::Finished);
}

#[test]
fn request_failure_ends_the_walk() {
    let (mut p, _) = Pipeline::start("alice@example.social").unwrap();
    let a = p.step(Err("connection refused".to_string()));
    match a {
        Action::Fail(e) => {
            assert!(matches!(&e, ApreadErrors::RequestError(m) if m == "connection refused"));
            assert_eq!(e.message(), "connection refused");
        }
        other => panic!("unexpected {:?}", other),
    }
    assert_eq!(p.stage, Stage::Finished);
}

#[test]
fn missing_feed_ends_the_walk() {
    let (mut p, _) = Pipeline::start("alice@example.social").unwrap();
    let a = p.step(Ok(Document::Webfinger(Webfinger { links: vec![Link::Profile] })));
    match a {
        Action::Fail(e) => assert_eq!(e.message(), "No feed link"),
        other => panic!("unexpected {:?}", other),
    }
    assert_eq!(p.stage, Stage::Finished);
}

#[test]
fn error_messages() {
    assert_eq!(ApreadErrors::BadHandleError(BadHandleError).message(), "Unable to read handle");
}
