use feed_fetch::feed::{
    file_name, job_from, node_text, node_url, plan_jobs, read_feed, FeedError, FeedNode, Locator,
};
use feed_fetch::job::Job;

fn element(tag: &str, text: Option<&str>, url_attr: Option<&str>) -> FeedNode {
    FeedNode {
        is_element: true,
        tag: tag.to_string(),
        text: text.map(|t| t.to_string()),
        url_attr: url_attr.map(|t| t.to_string()),
    }
}

const FEED: &str = "<?xml version=\"1.0\"?>\
<rss><channel><title>Show</title>\
<item><enclosure url=\"https://example.org/media/one.mp3\" type=\"audio/mpeg\"/></item>\
<item><enclosure url=\"https://example.org/media/two%20b.mp3\"/></item>\
<item><link>https://example.org/pages/three.html</link></item>\
</channel></rss>";

#[test]
fn read_feed_lists_the_nodes_in_document_order() {
    let nodes = read_feed("<a><b url=\"u\">t</b><!--c--></a>").expect("well-formed");
    assert_eq!(nodes.len(), 5);
    assert_eq!(
        nodes[0],
        FeedNode { is_element: false, tag: "".to_string(), text: None, url_attr: None }
    );
    assert_eq!(nodes[1], element("a", None, None));
    assert_eq!(nodes[2], element("b", Some("t"), Some("u")));
    assert_eq!(
        nodes[3],
        FeedNode { is_element: false, tag: "".to_string(), text: Some("t".to_string()), url_attr: None }
    );
    assert_eq!(
        nodes[4],
        FeedNode { is_element: false, tag: "".to_string(), text: Some("c".to_string()), url_attr: None }
    );
}

#[test]
fn read_feed_uses_local_tag_names() {
    let nodes =
        read_feed("<m:a xmlns:m=\"http://example.org/ns\"><m:b/></m:a>").expect("well-formed");
    assert_eq!(nodes[1].tag, "a");
    assert_eq!(nodes[2].tag, "b");
}

#[test]
fn read_feed_allows_a_document_type_definition() {
    let text = "<!DOCTYPE a [<!ENTITY e \"https://example.org/f.mp3\">]><a>&e;</a>";
    let nodes = read_feed(text).expect("well-formed");
    assert_eq!(nodes[1], element("a", Some("https://example.org/f.mp3"), None));
}

#[test]
fn read_feed_refuses_what_is_no_document() {
    assert_eq!(read_feed(""), Err(FeedError::Malformed));
    assert_eq!(read_feed("<a>"), Err(FeedError::Malformed));
    assert_eq!(read_feed("<a></b>"), Err(FeedError::Malformed));
    assert_eq!(read_feed("plain text"), Err(FeedError::Malformed));
}

#[test]
fn node_text_prefers_the_text_of_the_node() {
    assert_eq!(node_text(&element("e", Some("t"), Some("a"))), Some(&"t".to_string()));
    assert_eq!(node_text(&element("e", Some("t"), None)), Some(&"t".to_string()));
    assert_eq!(node_text(&element("e", None, Some("a"))), Some(&"a".to_string()));
    assert_eq!(node_text(&element("e", None, None)), None);
    assert_eq!(node_text(&element("e", Some(""), Some("a"))), Some(&"".to_string()));
}

#[test]
fn node_url_parses_the_text_of_the_node() {
    let l = node_url(&element("link", Some("https://example.org/a/b.mp3"), None)).expect("parses");
    assert_eq!(l.href, "https://example.org/a/b.mp3");
    assert_eq!(l.segments, Some(vec!["a".to_string(), "b.mp3".to_string()]));
}

#[test]
fn node_url_parses_the_attribute_where_there_is_no_text() {
    let l = node_url(&element("enclosure", None, Some("http://example.org/x.ogg"))).expect("parses");
    assert_eq!(l.href, "http://example.org/x.ogg");
    assert_eq!(l.segments, Some(vec!["x.ogg".to_string()]));
}

#[test]
fn node_url_gives_the_address_as_the_parser_writes_it() {
    let l = node_url(&element("e", Some("HTTP://EXAMPLE.org:80/a b/../c d.mp3?q=1#f"), None))
        .expect("parses");
    assert_eq!(l.href, "http://example.org/c%20d.mp3?q=1#f");
    assert_eq!(l.segments, Some(vec!["c%20d.mp3".to_string()]));
    let bare = node_url(&element("e", Some("https://example.org"), None)).expect("parses");
    assert_eq!(bare.href, "https://example.org/");
    assert_eq!(bare.segments, Some(vec!["".to_string()]));
}

#[test]
fn node_url_does_not_fall_back_to_the_attribute() {
    assert_eq!(node_url(&element("e", Some("not an address"), Some("https://example.org/a"))), None);
    assert_eq!(node_url(&element("e", Some(""), Some("https://example.org/a"))), None);
}

#[test]
fn node_url_without_address() {
    assert_eq!(node_url(&element("e", None, None)), None);
    assert_eq!(node_url(&element("e", None, Some("/relative/path.mp3"))), None);
}

#[test]
fn node_url_of_an_address_that_cannot_be_a_base() {
    let l = node_url(&element("e", Some("data:text/plain,HelloWorld"), None)).expect("parses");
    assert_eq!(l.href, "data:text/plain,HelloWorld");
    assert_eq!(l.segments, None);
}

#[test]
fn file_name_is_the_last_segment() {
    let l = Locator {
        href: "https://example.org/a/b/c.mp3".to_string(),
        segments: Some(vec!["a".to_string(), "b".to_string(), "c.mp3".to_string()]),
    };
    assert_eq!(file_name(&l), Some("c.mp3".to_string()));
    let dir = Locator {
        href: "https://example.org/a/".to_string(),
        segments: Some(vec!["a".to_string(), "".to_string()]),
    };
    assert_eq!(file_name(&dir), Some("".to_string()));
    let none = Locator { href: "mailto:a@example.org".to_string(), segments: None };
    assert_eq!(file_name(&none), None);
    let empty = Locator { href: "x".to_string(), segments: Some(Vec::new()) };
    assert_eq!(file_name(&empty), None);
}

#[test]
fn job_from_an_address() {
    let l = Locator {
        href: "https://example.org/a/c.mp3".to_string(),
        segments: Some(vec!["a".to_string(), "c.mp3".to_string()]),
    };
    assert_eq!(
        job_from(4, 2, Some(l)),
        Ok(Job {
            id: 2,
            source: "https://example.org/a/c.mp3".to_string(),
            destination: "c.mp3".to_string(),
            skip_if_exists: true,
        })
    );
    assert_eq!(job_from(4, 2, None), Err(FeedError::BadUrl { node: 4 }));
    let base = Locator { href: "data:x".to_string(), segments: None };
    assert_eq!(job_from(6, 0, Some(base)), Err(FeedError::NoFileName { node: 6 }));
}

#[test]
fn plan_jobs_makes_one_job_for_each_wanted_element() {
    let nodes = read_feed(FEED).expect("well-formed");
    let jobs = plan_jobs(&nodes, "enclosure").expect("planned");
    assert_eq!(
        jobs,
        vec![
            Job {
                id: 0,
                source: "https://example.org/media/one.mp3".to_string(),
                destination: "one.mp3".to_string(),
                skip_if_exists: true,
            },
            Job {
                id: 1,
                source: "https://example.org/media/two%20b.mp3".to_string(),
                destination: "two%20b.mp3".to_string(),
                skip_if_exists: true,
            },
        ]
    );
    let links = plan_jobs(&nodes, "link").expect("planned");
    assert_eq!(links.len(), 1);
    assert_eq!(links[0].source, "https://example.org/pages/three.html");
    assert_eq!(links[0].destination, "three.html");
    assert_eq!(links[0].id, 0);
}

#[test]
fn plan_jobs_with_no_wanted_element_is_empty() {
    let nodes = read_feed(FEED).expect("well-formed");
    assert_eq!(plan_jobs(&nodes, "missing"), Ok(Vec::new()));
    assert_eq!(plan_jobs(&nodes, "Enclosure"), Ok(Vec::new()));
    assert_eq!(plan_jobs(&nodes, ""), Ok(Vec::new()));
    assert_eq!(plan_jobs(&Vec::new(), "enclosure"), Ok(Vec::new()));
}

#[test]
fn plan_jobs_ignores_nodes_that_are_no_elements() {
    let nodes = vec![
        FeedNode {
            is_element: false,
            tag: "item".to_string(),
            text: Some("https://example.org/a.mp3".to_string()),
            url_attr: None,
        },
        element("item", Some("https://example.org/b.mp3"), None),
    ];
    let jobs = plan_jobs(&nodes, "item").expect("planned");
    assert_eq!(jobs.len(), 1);
    assert_eq!(jobs[0].destination, "b.mp3");
}

#[test]
fn plan_jobs_fails_at_the_first_wanted_node_without_address() {
    let nodes = vec![
        element("other", Some("junk"), None),
        element("item", Some("https://example.org/a.mp3"), None),
        element("item", Some("no address"), None),
        element("item", Some("data:text/plain,x"), None),
    ];
    assert_eq!(plan_jobs(&nodes, "item"), Err(FeedError::BadUrl { node: 2 }));
    let good = vec![
        element("other", Some("junk"), None),
        element("item", Some("https://example.org/a.mp3"), None),
    ];
    assert_eq!(plan_jobs(&good, "item").map(|j| j.len()), Ok(1));
}

#[test]
fn plan_jobs_fails_where_an_address_names_no_file() {
    let nodes = vec![
        element("item", Some("https://example.org/a.mp3"), None),
        element("item", Some("data:text/plain,x"), None),
        element("item", Some("no address"), None),
    ];
    assert_eq!(plan_jobs(&nodes, "item"), Err(FeedError::NoFileName { node: 1 }));
}
