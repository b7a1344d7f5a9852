use learn_helper::errors::Error;
use learn_helper::html::{
    extract_attachment, extract_notification_attachment, parse_discussion_replies, Anchor,
    AttachmentBlock, DetailPage, RawReply, RawSubReply,
};
use learn_helper::types::HomeworkDetail;

const PREFIX: &str = "https://learn.tsinghua.edu.cn";

fn anchor(href: &str, text: &str) -> Anchor {
    Anchor { href: href.to_string(), text: text.to_string() }
}

#[test]
fn attachment_marker_anchor_yields_name_and_url() {
    let block = AttachmentBlock {
        anchors: vec![anchor("/b/wlxt/kczy/zy/student/x?downloadUrl=XYZ", "name.pdf")],
    };
    assert_eq!(
        extract_attachment(&block, PREFIX),
        Some(("name.pdf".to_string(), format!("{}XYZ", PREFIX)))
    );
}

#[test]
fn attachment_without_marker_is_absent_not_an_error() {
    let block = AttachmentBlock { anchors: vec![anchor("/somewhere/else", "name.pdf")] };
    assert_eq!(extract_attachment(&block, PREFIX), None);
    let empty = AttachmentBlock { anchors: vec![] };
    assert_eq!(extract_attachment(&empty, PREFIX), None);
}

#[test]
fn attachment_first_marked_anchor_wins() {
    let block = AttachmentBlock {
        anchors: vec![
            anchor("/plain", "skip me"),
            anchor("/x?downloadUrl=FIRST", "first.pdf"),
            anchor("/x?downloadUrl=SECOND", "second.pdf"),
        ],
    };
    assert_eq!(
        extract_attachment(&block, PREFIX),
        Some(("first.pdf".to_string(), format!("{}FIRST", PREFIX)))
    );
}

fn block_with(url_tail: &str, name: &str) -> AttachmentBlock {
    AttachmentBlock { anchors: vec![anchor(&format!("/x?downloadUrl={}", url_tail), name)] }
}

#[test]
fn homework_detail_consumes_blocks_positionally() {
    let page = DetailPage {
        description: Some("<p>do the reading</p>".to_string()),
        blocks: vec![block_with("A", "a.pdf"), AttachmentBlock { anchors: vec![] }, block_with(
            "G",
            "g.pdf",
        )],
    };
    let det = HomeworkDetail::from_page(&page, PREFIX).unwrap();
    assert_eq!(det.description, "<p>do the reading</p>");
    assert_eq!(det.attachment_name_url, Some(("a.pdf".to_string(), format!("{}A", PREFIX))));
    assert_eq!(det.submit_attachment_name_url, None);
    assert_eq!(det.grade_attachment_name_url, Some(("g.pdf".to_string(), format!("{}G", PREFIX))));
}

#[test]
fn homework_detail_missing_description_is_a_parse_error() {
    let page = DetailPage { description: None, blocks: vec![block_with("A", "a.pdf")] };
    match HomeworkDetail::from_page(&page, PREFIX) {
        Err(Error::Parse(m)) => assert_eq!(m, "invalid homework detail format"),
        _ => panic!("a page without a description must fail structurally"),
    }
}

#[test]
fn homework_detail_fewer_blocks_leave_slots_absent() {
    let page = DetailPage { description: Some("d".to_string()), blocks: vec![] };
    let det = HomeworkDetail::from_page(&page, PREFIX).unwrap();
    assert_eq!(det.attachment_name_url, None);
    assert_eq!(det.submit_attachment_name_url, None);
    assert_eq!(det.grade_attachment_name_url, None);
}

#[test]
fn reply_tree_two_levels_in_document_order() {
    let raws = vec![
        RawReply {
            id: None,
            author: "Opener".to_string(),
            time: "2023-03-01 08:00:00".to_string(),
            content: "<p>first</p>".to_string(),
            replies: vec![RawSubReply {
                id: Some("456".to_string()),
                author: "Child".to_string(),
                time: "2023-03-01 09:00:00".to_string(),
                content: "<p>sub</p>".to_string(),
            }],
        },
        RawReply {
            id: Some("123".to_string()),
            author: "Second".to_string(),
            time: "2023-03-02 10:30:00".to_string(),
            content: "<p>second</p>".to_string(),
            replies: vec![],
        },
    ];
    let tree = parse_discussion_replies(Some(raws)).unwrap();
    assert_eq!(tree.len(), 2);
    assert_eq!(tree[0].id, None);
    assert_eq!(tree[0].author, "Opener");
    assert_eq!(tree[0].publish_time.hour, 8);
    assert_eq!(tree[0].content, "<p>first</p>");
    assert_eq!(tree[0].replies.len(), 1);
    assert_eq!(tree[0].replies[0].id, Some("456".to_string()));
    assert_eq!(tree[0].replies[0].author, "Child");
    assert_eq!(tree[0].replies[0].replies, ());
    assert_eq!(tree[1].id, Some("123".to_string()));
    assert_eq!(tree[1].replies.len(), 0);
}

#[test]
fn reply_tree_absent_container_is_a_parse_error() {
    match parse_discussion_replies(None) {
        Err(Error::Parse(m)) => assert_eq!(m, "invalid discussion replies format"),
        _ => panic!("an absent container must fail structurally"),
    }
}

#[test]
fn reply_tree_empty_container_is_a_valid_empty_tree() {
    assert_eq!(parse_discussion_replies(Some(vec![])).unwrap().len(), 0);
}

#[test]
fn reply_tree_bad_timestamp_fails() {
    let raws = vec![RawReply {
        id: None,
        author: "Opener".to_string(),
        time: "yesterday".to_string(),
        content: "c".to_string(),
        replies: vec![],
    }];
    match parse_discussion_replies(Some(raws)) {
        Err(Error::Parse(m)) => assert_eq!(m, "invalid discussion replies format"),
        _ => panic!("an unreadable timestamp must fail the tree"),
    }
}

#[test]
fn notification_attachment_is_cut_between_markers() {
    let body = "<div><a href=\"/b/wlxt/kcgg/file?id=9\" class=\"ml-10\">att</a></div>";
    assert_eq!(
        extract_notification_attachment(body, PREFIX).unwrap(),
        format!("{}/b/wlxt/kcgg/file?id=9", PREFIX)
    );
}

#[test]
fn notification_attachment_missing_markers_is_a_parse_error() {
    match extract_notification_attachment("<div>no attachment here</div>", PREFIX) {
        Err(Error::Parse(m)) => assert_eq!(m, "invalid notification attachment format"),
        _ => panic!("a body without the markers must fail structurally"),
    }
}
