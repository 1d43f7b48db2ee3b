//! From a feed to a list of jobs: the nodes of the document, the address that
//! a node carries, the file name that an address ends in, and one job for
//! each node with the wanted tag.

use vstd::prelude::*;
use crate::job::{job_views, Job, JobView};
use crate::text::{text_view, text_views};

verus! {

/// `roxmltree::Error`, the reason why a text is refused as a document.
/// Nothing is known of its value.
#[verifier::external_type_specification]
#[verifier::external_body]
pub struct ExXmlError(roxmltree::Error);

/// `url::ParseError`, the reason why a text is refused as an address.
/// Nothing is known of its value.
#[verifier::external_type_specification]
#[verifier::external_body]
pub struct ExUrlError(url::ParseError);

/// What the planning reads of one node of a document.
#[derive(Debug, PartialEq, Eq)]
pub struct FeedNode {
    /// Whether the node is an element.
    pub is_element: bool,
    /// The local name of its tag; empty where the node is no element.
    pub tag: String,
    /// Its text: for an element that of its first child, where that is a
    /// text node; for a text or a comment its own.
    pub text: Option<String>,
    /// The value of its address attribute, where it has one.
    pub url_attr: Option<String>,
}

/// A node with its texts as sequences of characters.
pub struct FeedNodeView {
    pub is_element: bool,
    pub tag: Seq<char>,
    pub text: Option<Seq<char>>,
    pub url_attr: Option<Seq<char>>,
}

impl View for FeedNode {
    type V = FeedNodeView;

    open spec fn view(&self) -> FeedNodeView {
        FeedNodeView {
            is_element: self.is_element,
            tag: self.tag@,
            text: text_view(self.text),
            url_attr: text_view(self.url_attr),
        }
    }
}

/// The nodes of a list, each by its view.
pub open spec fn node_views(nodes: Seq<FeedNode>) -> Seq<FeedNodeView> {
    Seq::new(nodes.len(), |i: int| nodes[i]@)
}

/// What the planning reads of a parsed address.
#[derive(Debug, PartialEq, Eq)]
pub struct Locator {
    /// The address as the parser writes it.
    pub href: String,
    /// The segments of its path; none for an address that cannot be a base.
    pub segments: Option<Vec<String>>,
}

/// An address with its texts as sequences of characters.
pub struct LocatorView {
    pub href: Seq<char>,
    pub segments: Option<Seq<Seq<char>>>,
}

impl View for Locator {
    type V = LocatorView;

    open spec fn view(&self) -> LocatorView {
        LocatorView {
            href: self.href@,
            segments: match self.segments {
                Some(list) => Some(text_views(list@)),
                None => None,
            },
        }
    }
}

/// The view of what may be an address.
pub open spec fn locator_view(address: Option<Locator>) -> Option<LocatorView> {
    match address {
        Some(locator) => Some(locator@),
        None => None,
    }
}

/// Why a feed gives no list of jobs.
#[derive(Clone, Copy, Debug, PartialEq, Eq, Structural)]
pub enum FeedError {
    /// The text is no well-formed document.
    Malformed,
    /// Node `node` has the wanted tag, and carries no address that parses.
    BadUrl { node: usize },
    /// Node `node` has the wanted tag, and its address ends in no file name.
    NoFileName { node: usize },
}

/// The name of the attribute that holds the address of a node.
pub open spec fn address_attribute() -> Seq<char> {
    "url"@
}

/// What `roxmltree` makes of `text`, with document type definitions allowed
/// or not: nothing if it refuses the text, else the nodes of the document in
/// document order, the root first, each with the value of its attribute
/// `attribute`.
pub uninterp spec fn xml_nodes(text: Seq<char>, allow_dtd: bool, attribute: Seq<char>) -> Option<
    Seq<FeedNodeView>,
>;

/// What `url` makes of `text`: nothing if it refuses the text, else the
/// address as it writes it, with the segments of its path.
pub uninterp spec fn url_parse(text: Seq<char>) -> Option<LocatorView>;

/// Calls `roxmltree::Document::parse_with_options` on `text`, with the option
/// `allow_dtd` as given and the others at their defaults, and reads from each
/// node that `Document::descendants` yields what `Node::is_element`,
/// `Node::tag_name` (its `name`), `Node::text` and `Node::attribute` say of
/// it. The contract claims only that the answer depends on the arguments
/// alone: it is what `xml_nodes` names.
#[verifier::external_body]
fn parse_nodes(text: &str, allow_dtd: bool, attribute: &str) -> (r: Result<
    Vec<FeedNode>,
    roxmltree::Error,
>)
    ensures
        match r {
            Ok(nodes) => xml_nodes(text@, allow_dtd, attribute@) == Some(node_views(nodes@)),
            Err(_) => xml_nodes(text@, allow_dtd, attribute@) is None,
        },
{
    let options = roxmltree::ParsingOptions { allow_dtd, ..roxmltree::ParsingOptions::default() };
    let document = roxmltree::Document::parse_with_options(text, options)?;
    Ok(
        document.descendants().map(
            |node|
                FeedNode {
                    is_element: node.is_element(),
                    tag: node.tag_name().name().to_owned(),
                    text: node.text().map(|t| t.to_owned()),
                    url_attr: node.attribute(attribute).map(|t| t.to_owned()),
                },
        ).collect(),
    )
}

/// Calls `url::Url::parse` on `text`, and reads from the address what
/// `Url::as_str` and `Url::path_segments` say of it. The contract claims only
/// that the answer depends on the argument alone: it is what `url_parse`
/// names.
#[verifier::external_body]
fn parse_url(text: &str) -> (r: Result<Locator, url::ParseError>)
    ensures
        match r {
            Ok(locator) => url_parse(text@) == Some(locator@),
            Err(_) => url_parse(text@) is None,
        },
{
    let parsed = url::Url::parse(text)?;
    Ok(
        Locator {
            href: parsed.as_str().to_owned(),
            segments: parsed.path_segments().map(|parts| parts.map(|p| p.to_owned()).collect()),
        },
    )
}

/// Reads a feed: the nodes of the document `text`, in document order. A
/// document type definition is allowed. A text that is no well-formed
/// document is refused.
pub fn read_feed(text: &str) -> (r: Result<Vec<FeedNode>, FeedError>)
    ensures
        match r {
            Ok(nodes) => xml_nodes(text@, true, address_attribute()) == Some(node_views(nodes@)),
            Err(e) => e == FeedError::Malformed && xml_nodes(text@, true, address_attribute())
                is None,
        },
{
    match parse_nodes(text, true, "url") {
        Ok(nodes) => Ok(nodes),
        Err(_) => Err(FeedError::Malformed),
    }
}

/// The text in which a node carries its address: the text of the node where
/// it has one, else its address attribute.
pub open spec fn address_text(node: FeedNodeView) -> Option<Seq<char>> {
    if node.text is Some {
        node.text
    } else {
        node.url_attr
    }
}

/// The address of a node: what its address text parses to. A node whose text
/// does not parse has no address, whatever its attribute holds.
pub open spec fn address_of(node: FeedNodeView) -> Option<LocatorView> {
    match address_text(node) {
        Some(text) => url_parse(text),
        None => None,
    }
}

/// The file name that an address ends in: the last segment of its path.
pub open spec fn file_name_of(locator: LocatorView) -> Option<Seq<char>> {
    match locator.segments {
        Some(segments) => if segments.len() > 0 {
            Some(segments.last())
        } else {
            None
        },
        None => None,
    }
}

/// Whether a node is an element with the tag `tag`.
pub open spec fn wanted(node: FeedNodeView, tag: Seq<char>) -> bool {
    node.is_element && node.tag == tag
}

/// Computes [`address_text`].
pub fn node_text(node: &FeedNode) -> (text: Option<&String>)
    ensures
        match text {
            Some(t) => address_text(node@) == Some(t@),
            None => address_text(node@) is None,
        },
{
    match &node.text {
        Some(text) => Some(text),
        None => node.url_attr.as_ref(),
    }
}

/// Computes [`address_of`].
pub fn node_url(node: &FeedNode) -> (r: Option<Locator>)
    ensures
        locator_view(r) == address_of(node@),
{
    match node_text(node) {
        Some(text) => match parse_url(text.as_str()) {
            Ok(locator) => Some(locator),
            Err(_) => None,
        },
        None => None,
    }
}

/// Computes [`file_name_of`].
pub fn file_name(locator: &Locator) -> (name: Option<String>)
    ensures
        text_view(name) == file_name_of(locator@),
{
    match &locator.segments {
        Some(segments) => {
            if segments.len() > 0 {
                Some(segments[segments.len() - 1].clone())
            } else {
                None
            }
        },
        None => None,
    }
}

/// The job for node number `node` with the address `address`, numbered `id`:
/// from the address to the file that it names, to be skipped where that file
/// is there already. A node without an address, or whose address names no
/// file, gives no job.
pub open spec fn planned_job(node: usize, id: u64, address: Option<LocatorView>) -> Result<
    JobView,
    FeedError,
> {
    match address {
        None => Err(FeedError::BadUrl { node }),
        Some(locator) => match file_name_of(locator) {
            None => Err(FeedError::NoFileName { node }),
            Some(name) => Ok(
                JobView { id, source: locator.href, destination: name, skip_if_exists: true },
            ),
        },
    }
}

/// The jobs for the first `upto` nodes of a feed: one for each node with the
/// wanted tag, in document order, numbered from zero. The first wanted node
/// that gives no job makes the whole feed fail.
pub open spec fn planned_upto(nodes: Seq<FeedNodeView>, tag: Seq<char>, upto: nat) -> Result<
    Seq<JobView>,
    FeedError,
>
    decreases upto,
{
    if upto == 0 {
        Ok(Seq::empty())
    } else {
        let at = (upto - 1) as nat;
        match planned_upto(nodes, tag, at) {
            Err(e) => Err(e),
            Ok(jobs) => if !wanted(nodes[at as int], tag) {
                Ok(jobs)
            } else {
                match planned_job(at as usize, jobs.len() as u64, address_of(nodes[at as int])) {
                    Err(e) => Err(e),
                    Ok(job) => Ok(jobs.push(job)),
                }
            },
        }
    }
}

/// The jobs for a feed.
pub open spec fn planned(nodes: Seq<FeedNodeView>, tag: Seq<char>) -> Result<
    Seq<JobView>,
    FeedError,
> {
    planned_upto(nodes, tag, nodes.len())
}

proof fn planning_fails_for_good(nodes: Seq<FeedNodeView>, tag: Seq<char>, failed: nat, upto: nat)
    requires
        failed <= upto,
        planned_upto(nodes, tag, failed) is Err,
    ensures
        planned_upto(nodes, tag, upto) == planned_upto(nodes, tag, failed),
    decreases upto,
{
    if failed < upto {
        planning_fails_for_good(nodes, tag, failed, (upto - 1) as nat);
    }
}

/// Computes [`planned_job`].
pub fn job_from(node: usize, id: u64, address: Option<Locator>) -> (r: Result<Job, FeedError>)
    ensures
        match r {
            Ok(job) => planned_job(node, id, locator_view(address)) == Ok::<JobView, FeedError>(
                job@,
            ),
            Err(e) => planned_job(node, id, locator_view(address)) == Err::<JobView, FeedError>(e),
        },
{
    match address {
        None => Err(FeedError::BadUrl { node }),
        Some(locator) => match file_name(&locator) {
            None => Err(FeedError::NoFileName { node }),
            Some(name) => Ok(
                Job { id, source: locator.href, destination: name, skip_if_exists: true },
            ),
        },
    }
}

/// Computes [`planned`].
pub fn plan_jobs(nodes: &Vec<FeedNode>, tag: &str) -> (r: Result<Vec<Job>, FeedError>)
    ensures
        match r {
            Ok(jobs) => planned(node_views(nodes@), tag@) == Ok::<Seq<JobView>, FeedError>(
                job_views(jobs@),
            ),
            Err(e) => planned(node_views(nodes@), tag@) == Err::<Seq<JobView>, FeedError>(e),
        },
{
    let wanted_tag = tag.to_owned();
    let mut jobs: Vec<Job> = Vec::new();
    let mut i: usize = 0;
    assert(job_views(jobs@) =~= Seq::<JobView>::empty());
    while i < nodes.len()
        invariant
            i <= nodes.len(),
            wanted_tag@ == tag@,
            planned_upto(node_views(nodes@), tag@, i as nat) == Ok::<Seq<JobView>, FeedError>(
                job_views(jobs@),
            ),
        decreases nodes.len() - i,
    {
        let node = &nodes[i];
        let ghost before = job_views(jobs@);
        if node.is_element && node.tag == wanted_tag {
            match job_from(i, jobs.len() as u64, node_url(node)) {
                Ok(job) => {
                    jobs.push(job);
                    assert(job_views(jobs@) =~= before.push(job@));
                },
                Err(e) => {
                    proof {
                        planning_fails_for_good(
                            node_views(nodes@),
                            tag@,
                            (i + 1) as nat,
                            nodes.len() as nat,
                        );
                    }
                    return Err(e);
                },
            }
        }
        i = i + 1;
    }
    Ok(jobs)
}

/// Every job of a feed asks to be skipped where its destination is there, and
/// the jobs are numbered in their order.
pub proof fn planned_jobs_skip_existing(nodes: Seq<FeedNodeView>, tag: Seq<char>, upto: nat)
    requires
        nodes.len() <= usize::MAX,
        upto <= nodes.len(),
        planned_upto(nodes, tag, upto) is Ok,
    ensures
        planned_upto(nodes, tag, upto)->Ok_0.len() <= upto,
        forall|k: int|
            0 <= k < planned_upto(nodes, tag, upto)->Ok_0.len() ==> {
                &&& (#[trigger] planned_upto(nodes, tag, upto)->Ok_0[k]).skip_if_exists
                &&& planned_upto(nodes, tag, upto)->Ok_0[k].id == k
            },
    decreases upto,
{
    if upto > 0 {
        planned_jobs_skip_existing(nodes, tag, (upto - 1) as nat);
    }
}

} // verus!
