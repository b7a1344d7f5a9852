//! Extraction from the portal's HTML detail fragments.
//!
//! The portal's detail pages are semi-structured markup.  The caller's
//! HTML reader hands over what the extractions consume: the anchors of
//! each attachment container in document order, the description section,
//! and the raw reply blocks of a discussion.  The rules that turn those
//! into typed values live here: positional attachment consumption, the
//! `downloadUrl=` link marker, the required-description check, and the
//! two-level reply tree.  A raw detail page body is cut apart directly
//! where string markers suffice.

use vstd::prelude::*;
use vstd::string::StrSliceExecFns;
use vstd::string::StringExecFns;
use crate::datetime::date_time1;
use crate::datetime::spec_date_time1;
use crate::errors::Error;
use crate::strutil;
use crate::try_join::reversed;
use crate::types::DiscussionReply;
use crate::types::DiscussionReply0;
use crate::types::HomeworkDetail;

verus! {

/// A link element of an attachment container: its target and its first
/// text node.
#[derive(Debug, Clone, PartialEq)]
pub struct Anchor {
    /// The link target.
    pub href: String,
    /// The display text of the link.
    pub text: String,
}

/// One attachment container of a detail page, holding its link elements
/// in document order.
#[derive(Debug, Clone, PartialEq)]
pub struct AttachmentBlock {
    /// The link elements of the container, in document order.
    pub anchors: Vec<Anchor>,
}

/// A homework detail page, reduced to what the extraction reads: the
/// description section where the page has one, and the attachment
/// containers in document order.
#[derive(Debug, Clone, PartialEq)]
pub struct DetailPage {
    /// The description section, where the page has one.
    pub description: Option<String>,
    /// The attachment containers, in document order: assignment first,
    /// then submission, then grade.
    pub blocks: Vec<AttachmentBlock>,
}

/// The query marker a download link carries.
pub open spec fn dl_marker() -> Seq<char> {
    "downloadUrl="@
}

/// The first position where `pat` occurs in `s`.
pub open spec fn first_match_index(s: Seq<char>, pat: Seq<char>) -> int {
    choose|i: int| strutil::first_match_at(s, pat, i)
}

/// The name and link an anchor with the download marker yields: its text,
/// and the prefix joined with what follows the marker.
pub open spec fn attachment_of_anchor(a: Anchor, prefix: Seq<char>) -> (Seq<char>, Seq<char>) {
    (
        a.text@,
        prefix + a.href@.subrange(
            first_match_index(a.href@, dl_marker()) + 12,
            a.href@.len() as int,
        ),
    )
}

/// What extracting an attachment from a container yields: the first
/// anchor whose target carries the download marker decides; a container
/// with no such anchor yields nothing, which is no error.
pub open spec fn spec_attachment(anchors: Seq<Anchor>, prefix: Seq<char>) -> Option<
    (Seq<char>, Seq<char>),
>
    decreases anchors.len(),
{
    if anchors.len() == 0 {
        None
    } else if strutil::has_sub(anchors[0].href@, dl_marker()) {
        Some(attachment_of_anchor(anchors[0], prefix))
    } else {
        spec_attachment(anchors.subrange(1, anchors.len() as int), prefix)
    }
}

/// Skipping markerless anchors does not change the extraction.
proof fn lemma_attachment_skip(anchors: Seq<Anchor>, prefix: Seq<char>, i: int)
    requires
        0 <= i <= anchors.len(),
        forall|j: int| 0 <= j < i ==> !strutil::has_sub((#[trigger] anchors[j]).href@, dl_marker()),
    ensures
        spec_attachment(anchors, prefix) == spec_attachment(
            anchors.subrange(i, anchors.len() as int),
            prefix,
        ),
    decreases i,
{
    if i == 0 {
        assert(anchors.subrange(0, anchors.len() as int) =~= anchors);
    } else {
        let rest = anchors.subrange(1, anchors.len() as int);
        lemma_attachment_skip(rest, prefix, i - 1);
        assert(rest.subrange(i - 1, rest.len() as int) =~= anchors.subrange(
            i,
            anchors.len() as int,
        ));
    }
}

/// Extract the attachment of one container: the first anchor whose target
/// carries the download marker gives the display name and, joined onto
/// `prefix`, the tail of its target after the marker.  A container with
/// no such anchor has no attachment; that is an expected outcome, not an
/// error.
#[verifier::loop_isolation(false)]
pub fn extract_attachment(block: &AttachmentBlock, prefix: &str) -> (r: Option<(String, String)>)
    ensures
        match r {
            Some((name, url)) => spec_attachment(block.anchors@, prefix@) == Some(
                (name@, url@),
            ),
            None => spec_attachment(block.anchors@, prefix@) is None,
        },
{
    proof {
        reveal_strlit("downloadUrl=");
    }
    let n = block.anchors.len();
    let mut k: usize = 0;
    while k < n
        invariant
            0 <= k <= n,
            forall|j: int|
                0 <= j < k ==> !strutil::has_sub(
                    (#[trigger] block.anchors@[j]).href@,
                    dl_marker(),
                ),
        decreases n - k,
    {
        let anchor = &block.anchors[k];
        let href_len = anchor.href.as_str().unicode_len();
        match strutil::find_sub(anchor.href.as_str(), "downloadUrl=") {
            Some(at) => {
                proof {
                    lemma_attachment_skip(block.anchors@, prefix@, k as int);
                    assert(block.anchors@.subrange(k as int, n as int)[0]
                        == block.anchors@[k as int]);
                    strutil::lemma_first_match_unique(anchor.href@, dl_marker(), at as int);
                }
                let tail = strutil::copy_range(anchor.href.as_str(), at + 12, href_len);
                let mut url = prefix.to_owned();
                url.append(tail.as_str());
                return Some((anchor.text.clone(), url));
            },
            None => {},
        }
        k += 1;
    }
    proof {
        lemma_attachment_skip(block.anchors@, prefix@, n as int);
    }
    None
}

/// The attachment of the container at position `k`, where the page has
/// one there.
pub open spec fn block_attachment(
    blocks: Seq<AttachmentBlock>,
    k: int,
    prefix: Seq<char>,
) -> Option<(Seq<char>, Seq<char>)> {
    if 0 <= k < blocks.len() {
        spec_attachment(blocks[k].anchors@, prefix)
    } else {
        None
    }
}

/// One optional attachment slot of the detail matches the page.
pub open spec fn attachment_slot_matches(
    blocks: Seq<AttachmentBlock>,
    k: int,
    prefix: Seq<char>,
    slot: Option<(String, String)>,
) -> bool {
    match slot {
        None => block_attachment(blocks, k, prefix) is None,
        Some((name, url)) => block_attachment(blocks, k, prefix) == Some((name@, url@)),
    }
}

/// The attachment of the container at position `k`, or nothing where the
/// page has fewer containers.
fn attachment_at(page: &DetailPage, k: usize, prefix: &str) -> (r: Option<(String, String)>)
    ensures
        attachment_slot_matches(page.blocks@, k as int, prefix@, r),
{
    if k < page.blocks.len() {
        extract_attachment(&page.blocks[k], prefix)
    } else {
        None
    }
}

impl HomeworkDetail {
    /// Build the homework detail from its detail page.  The description
    /// is required: a page without one is structurally broken.  The three
    /// attachment containers are consumed positionally — assignment,
    /// submission, grade — and a missing container or markerless anchor
    /// leaves that slot absent without error.
    pub fn from_page(page: &DetailPage, prefix: &str) -> (r: Result<HomeworkDetail, Error>)
        ensures
            match r {
                Ok(det) => {
                    &&& (page.description matches Some(d) && det.description@ == d@)
                    &&& attachment_slot_matches(
                        page.blocks@,
                        0,
                        prefix@,
                        det.attachment_name_url,
                    )
                    &&& attachment_slot_matches(
                        page.blocks@,
                        1,
                        prefix@,
                        det.submit_attachment_name_url,
                    )
                    &&& attachment_slot_matches(
                        page.blocks@,
                        2,
                        prefix@,
                        det.grade_attachment_name_url,
                    )
                },
                Err(e) => {
                    &&& page.description is None
                    &&& (e matches Error::Parse(m) && m@ == "invalid homework detail format"@)
                },
            },
    {
        let description = match &page.description {
            Some(d) => d.clone(),
            None => {
                return Err(Error::Parse(String::from_str("invalid homework detail format")));
            },
        };
        let attachment_name_url = attachment_at(page, 0, prefix);
        let submit_attachment_name_url = attachment_at(page, 1, prefix);
        let grade_attachment_name_url = attachment_at(page, 2, prefix);
        Ok(
            HomeworkDetail {
                description,
                attachment_name_url,
                submit_attachment_name_url,
                grade_attachment_name_url,
            },
        )
    }
}


/// A raw sub-reply block, as the caller's HTML reader hands it over:
/// attribute and text pieces, with the timestamp still unparsed.
#[derive(Debug, Clone, PartialEq)]
pub struct RawSubReply {
    /// The reply identifier attribute, where the block carries one.
    pub id: Option<String>,
    /// The author name.
    pub author: String,
    /// The timestamp text.
    pub time: String,
    /// The content, as an HTML text.
    pub content: String,
}

/// A raw top-level reply block with its sub-reply blocks in document
/// order.
#[derive(Debug, Clone, PartialEq)]
pub struct RawReply {
    /// The reply identifier attribute; the opening reply carries none.
    pub id: Option<String>,
    /// The author name.
    pub author: String,
    /// The timestamp text.
    pub time: String,
    /// The content, as an HTML text.
    pub content: String,
    /// The sub-reply blocks, in document order.
    pub replies: Vec<RawSubReply>,
}

/// The error text of a reply fragment that cannot be read.
pub open spec fn replies_err_msg() -> Seq<char> {
    "invalid discussion replies format"@
}

/// A sub-reply block is well formed: its timestamp parses.
pub open spec fn sub_reply_ok(raw: RawSubReply) -> bool {
    spec_date_time1(raw.time@) is Some
}

/// A top-level reply block is well formed: its own timestamp and every
/// sub-reply's parse.
pub open spec fn reply_ok(raw: RawReply) -> bool {
    &&& spec_date_time1(raw.time@) is Some
    &&& forall|j: int| 0 <= j < raw.replies@.len() ==> sub_reply_ok(#[trigger] raw.replies@[j])
}

/// The typed sub-reply carries exactly what its block spelled.
pub open spec fn sub_converted(raw: RawSubReply, out: DiscussionReply0<()>) -> bool {
    &&& (match raw.id {
        None => out.id is None,
        Some(s) => out.id matches Some(t) && t@ == s@,
    })
    &&& out.author@ == raw.author@
    &&& spec_date_time1(raw.time@) == Some(out.publish_time)
    &&& out.content@ == raw.content@
}

/// The typed reply carries exactly what its block spelled, sub-replies
/// included and in document order.
pub open spec fn reply_converted(raw: RawReply, out: DiscussionReply) -> bool {
    &&& (match raw.id {
        None => out.id is None,
        Some(s) => out.id matches Some(t) && t@ == s@,
    })
    &&& out.author@ == raw.author@
    &&& spec_date_time1(raw.time@) == Some(out.publish_time)
    &&& out.content@ == raw.content@
    &&& out.replies@.len() == raw.replies@.len()
    &&& forall|j: int|
        0 <= j < raw.replies@.len() ==> sub_converted(
            #[trigger] raw.replies@[j],
            out.replies@[j],
        )
}

/// Convert one sub-reply block.
fn convert_sub(raw: RawSubReply) -> (r: Result<DiscussionReply0<()>, Error>)
    ensures
        match r {
            Ok(out) => sub_reply_ok(raw) && sub_converted(raw, out),
            Err(e) => {
                &&& !sub_reply_ok(raw)
                &&& (e matches Error::Parse(m) && m@ == replies_err_msg())
            },
        },
{
    let RawSubReply { id, author, time, content } = raw;
    let publish_time = match date_time1(time.as_str()) {
        Some(d) => d,
        None => {
            return Err(Error::Parse(String::from_str("invalid discussion replies format")));
        },
    };
    Ok(DiscussionReply0 { id, author, publish_time, content, replies: () })
}

/// Convert one top-level reply block with its sub-replies.
#[verifier::loop_isolation(false)]
fn convert_reply(raw: RawReply) -> (r: Result<DiscussionReply, Error>)
    ensures
        match r {
            Ok(out) => reply_ok(raw) && reply_converted(raw, out),
            Err(e) => {
                &&& !reply_ok(raw)
                &&& (e matches Error::Parse(m) && m@ == replies_err_msg())
            },
        },
{
    let RawReply { id, author, time, content, replies } = raw;
    let publish_time = match date_time1(time.as_str()) {
        Some(d) => d,
        None => {
            return Err(Error::Parse(String::from_str("invalid discussion replies format")));
        },
    };
    let n = replies.len();
    let ghost raw_subs = replies@;
    let mut rev = reversed(replies);
    let mut subs: Vec<DiscussionReply0<()>> = Vec::new();
    let mut i: usize = 0;
    while i < n
        invariant
            0 <= i <= n,
            n == raw_subs.len(),
            rev@.len() == n - i,
            forall|k: int| 0 <= k < rev@.len() ==> #[trigger] rev@[k] == raw_subs[n - 1 - k],
            subs@.len() == i,
            forall|j: int|
                0 <= j < i ==> sub_reply_ok(#[trigger] raw_subs[j]) && sub_converted(
                    raw_subs[j],
                    subs@[j],
                ),
        decreases n - i,
    {
        let sub = rev.pop().unwrap();
        proof {
            assert(sub == raw_subs[i as int]);
        }
        match convert_sub(sub) {
            Ok(out) => subs.push(out),
            Err(e) => {
                return Err(e);
            },
        }
        i += 1;
    }
    Ok(DiscussionReply0 { id, author, publish_time, content, replies: subs })
}

/// Build the reply tree of a discussion from its raw blocks, preserving
/// document order at both levels.  An absent container is a structural
/// failure; an empty one is a valid empty tree.
#[verifier::loop_isolation(false)]
pub fn parse_discussion_replies(blocks: Option<Vec<RawReply>>) -> (r: Result<
    Vec<DiscussionReply>,
    Error,
>)
    ensures
        match blocks {
            None => r matches Err(Error::Parse(m)) && m@ == replies_err_msg(),
            Some(raws) => match r {
                Ok(out) => {
                    &&& forall|i: int| 0 <= i < raws@.len() ==> reply_ok(#[trigger] raws@[i])
                    &&& out@.len() == raws@.len()
                    &&& forall|i: int|
                        0 <= i < raws@.len() ==> reply_converted(#[trigger] raws@[i], out@[i])
                },
                Err(e) => {
                    &&& exists|i: int|
                        0 <= i < raws@.len() && !reply_ok(#[trigger] raws@[i])
                    &&& (e matches Error::Parse(m) && m@ == replies_err_msg())
                },
            },
        },
{
    let raws = match blocks {
        Some(raws) => raws,
        None => {
            return Err(Error::Parse(String::from_str("invalid discussion replies format")));
        },
    };
    let n = raws.len();
    let ghost raws0 = raws@;
    let mut rev = reversed(raws);
    let mut out: Vec<DiscussionReply> = Vec::new();
    let mut i: usize = 0;
    while i < n
        invariant
            0 <= i <= n,
            n == raws0.len(),
            rev@.len() == n - i,
            forall|k: int| 0 <= k < rev@.len() ==> #[trigger] rev@[k] == raws0[n - 1 - k],
            out@.len() == i,
            forall|j: int|
                0 <= j < i ==> reply_ok(#[trigger] raws0[j]) && reply_converted(
                    raws0[j],
                    out@[j],
                ),
        decreases n - i,
    {
        let raw = rev.pop().unwrap();
        proof {
            assert(raw == raws0[i as int]);
        }
        match convert_reply(raw) {
            Ok(converted) => out.push(converted),
            Err(e) => {
                return Err(e);
            },
        }
        i += 1;
    }
    Ok(out)
}

/// The class marker that closes an attachment link of a notification
/// detail page.
pub open spec fn ml10_marker() -> Seq<char> {
    "\" class=\"ml-10\""@
}

/// The marker that opens an anchor's target.
pub open spec fn ahref_marker() -> Seq<char> {
    "a href=\""@
}

/// The attachment link of a notification detail page stands between the
/// last `a href="` opening before the first `" class="ml-10"` closing,
/// at `hs`, and that closing, at `he`.
pub open spec fn notification_href_span(s: Seq<char>, hs: int, he: int) -> bool {
    &&& strutil::first_match_at(s, ml10_marker(), he)
    &&& strutil::last_match_before(s, ahref_marker(), he, hs)
}

/// Cut the attachment link out of a notification detail page body: the
/// text between the last `a href="` opening before the first
/// `" class="ml-10"` closing, joined onto `prefix`.
pub fn extract_notification_attachment(body: &str, prefix: &str) -> (r: Result<String, Error>)
    ensures
        match r {
            Ok(u) => exists|hs: int, he: int|
                #[trigger] notification_href_span(body@, hs, he) && u@ == prefix@
                    + body@.subrange(hs + 8, he),
            Err(e) => {
                &&& (e matches Error::Parse(m) && m@ == "invalid notification attachment format"@)
                &&& !(exists|hs: int, he: int| #[trigger] notification_href_span(body@, hs, he))
            },
        },
{
    proof {
        reveal_strlit("\" class=\"ml-10\"");
        reveal_strlit("a href=\"");
    }
    let body_len = body.unicode_len();
    let href_end = match strutil::find_sub(body, "\" class=\"ml-10\"") {
        Some(e) => e,
        None => {
            proof {
                assert forall|hs: int, he: int|
                    !(#[trigger] notification_href_span(body@, hs, he)) by {
                    assert(!strutil::matches_at(body@, ml10_marker(), he));
                }
            }
            return Err(Error::Parse(String::from_str("invalid notification attachment format")));
        },
    };
    let href_start = match strutil::rfind_sub_before(body, "a href=\"", href_end) {
        Some(s) => s,
        None => {
            proof {
                assert forall|hs: int, he: int|
                    !(#[trigger] notification_href_span(body@, hs, he)) by {
                    if strutil::first_match_at(body@, ml10_marker(), he)
                        && strutil::last_match_before(body@, ahref_marker(), he, hs) {
                        strutil::lemma_first_match_unique(body@, ml10_marker(), href_end as int);
                        assert(he == href_end as int);
                        assert(hs + ahref_marker().len() <= he);
                        assert(!strutil::matches_at(body@, ahref_marker(), hs));
                        assert(false);
                    }
                }
            }
            return Err(Error::Parse(String::from_str("invalid notification attachment format")));
        },
    };
    let tail = strutil::copy_range(body, href_start + 8, href_end);
    let mut url = prefix.to_owned();
    url.append(tail.as_str());
    proof {
        assert(notification_href_span(body@, href_start as int, href_end as int));
    }
    Ok(url)
}

} // verus!
