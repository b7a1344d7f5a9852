use learn_helper::errors::Error;
use learn_helper::fetchers::decode_course_list;
use learn_helper::json::JsonValue;
use learn_helper::types::{Course, Discussion, File, Homework, Notification};

fn text(s: &str) -> JsonValue {
    JsonValue::Str(s.to_string())
}

fn course_fields() -> Vec<(String, JsonValue)> {
    vec![
        ("wlkcid".to_string(), text("2023-c-1")),
        ("kcm".to_string(), text("编译原理")),
        ("ywkcm".to_string(), text("Compilers")),
        ("jsm".to_string(), text("T. Teacher")),
        ("jsh".to_string(), text("1999990001")),
        ("kch".to_string(), text("30240233")),
        ("kxh".to_string(), JsonValue::Int(2)),
    ]
}

#[test]
fn course_decodes() {
    let c = Course::from_json(&JsonValue::Obj(course_fields())).unwrap();
    assert_eq!(c.id, "2023-c-1");
    assert_eq!(c.name, "编译原理");
    assert_eq!(c.english_name, "Compilers");
    assert_eq!(c.teacher_name, "T. Teacher");
    assert_eq!(c.teacher_number, "1999990001");
    assert_eq!(c.course_number, "30240233");
    assert_eq!(c.course_index, 2);
    assert!(c.time_location.is_empty());
}

#[test]
fn course_missing_field_reports_name_and_raw() {
    let mut fields = course_fields();
    fields.retain(|(k, _)| k != "kcm");
    match Course::from_json(&JsonValue::Obj(fields)) {
        Err(Error::Decode { field, raw }) => {
            assert_eq!(field, "kcm");
            assert_eq!(raw, "missing");
        },
        _ => panic!("a missing required field must fail the record"),
    }
}

#[test]
fn course_wrong_type_reports_raw_value() {
    let mut fields = course_fields();
    for entry in fields.iter_mut() {
        if entry.0 == "kxh" {
            entry.1 = text("2");
        }
    }
    match Course::from_json(&JsonValue::Obj(fields)) {
        Err(Error::Decode { field, raw }) => {
            assert_eq!(field, "kxh");
            assert_eq!(raw, "2");
        },
        _ => panic!("a text course index must fail the record"),
    }
}

#[test]
fn course_list_bad_sibling_does_not_abort_the_others() {
    let good = JsonValue::Obj(course_fields());
    let mut bad_fields = course_fields();
    bad_fields.retain(|(k, _)| k != "wlkcid");
    let bad = JsonValue::Obj(bad_fields);
    let good2 = JsonValue::Obj(course_fields());
    let wrapped = JsonValue::Obj(vec![(
        "resultList".to_string(),
        JsonValue::Arr(vec![good, bad, good2]),
    )]);
    let decoded = decode_course_list(wrapped).unwrap();
    assert_eq!(decoded.records.len(), 2);
    assert_eq!(decoded.failures.len(), 1);
    assert_eq!(decoded.records[0].id, "2023-c-1");
    assert_eq!(decoded.records[1].id, "2023-c-1");
    match &decoded.failures[0] {
        Error::Decode { field, raw } => {
            assert_eq!(field, "wlkcid");
            assert_eq!(raw, "missing");
        },
        _ => panic!("the bad sibling must be reported as a decode failure"),
    }
}

#[test]
fn notification_decodes_with_transforms() {
    let v = JsonValue::Obj(vec![
        ("wlkcid".to_string(), text("2023-c-1")),
        ("ggid".to_string(), text("n-77")),
        ("bt".to_string(), text("Exam moved")),
        ("ggnr".to_string(), text("aGVsbG8=")),
        ("sfyd".to_string(), text("\u{662f}")),
        ("sfqd".to_string(), text("1")),
        ("fbsjStr".to_string(), text("2023-03-01 08:00")),
        ("fbrxm".to_string(), text("T. Teacher")),
        ("fjmc".to_string(), text("")),
    ]);
    let n = Notification::from_json(&v).unwrap();
    assert_eq!(n.course_id, "2023-c-1");
    assert_eq!(n.id, "n-77");
    assert_eq!(n.title, "Exam moved");
    assert_eq!(n.content, "hello");
    assert!(n.read);
    assert!(n.important);
    assert_eq!(n.publish_time.year, 2023);
    assert_eq!(n.publish_time.minute, 0);
    assert_eq!(n.publisher, "T. Teacher");
    assert_eq!(n.attachment_name, None);
    assert_eq!(n.attachment_url, None);
}

#[test]
fn notification_missing_content_decodes_as_empty() {
    let v = JsonValue::Obj(vec![
        ("wlkcid".to_string(), text("2023-c-1")),
        ("ggid".to_string(), text("n-78")),
        ("bt".to_string(), text("Room change")),
        ("ggnr".to_string(), JsonValue::Null),
        ("sfyd".to_string(), text("no")),
        ("sfqd".to_string(), text("0")),
        ("fbsjStr".to_string(), text("2023-03-02 09:30")),
        ("fbrxm".to_string(), text("T. Teacher")),
        ("fjmc".to_string(), text("slides.pdf")),
    ]);
    let n = Notification::from_json(&v).unwrap();
    assert_eq!(n.content, "");
    assert!(!n.read);
    assert!(!n.important);
    assert_eq!(n.attachment_name, Some("slides.pdf".to_string()));
}

#[test]
fn file_decodes() {
    let v = JsonValue::Obj(vec![
        ("wjid".to_string(), text("f-5")),
        ("bt".to_string(), text("slides")),
        ("ms".to_string(), text("<p>week one</p>")),
        ("wjdx".to_string(), JsonValue::Int(1048576)),
        ("fileSize".to_string(), text("1M")),
        ("scsj".to_string(), text("2023-03-01 08:00")),
        ("isNew".to_string(), JsonValue::Int(1)),
        ("sfqd".to_string(), JsonValue::Int(0)),
        ("llcs".to_string(), JsonValue::Int(15)),
        ("xzcs".to_string(), JsonValue::Int(7)),
        ("wjlx".to_string(), text("pdf")),
    ]);
    let f = File::from_json(&v).unwrap();
    assert_eq!(f.id, "f-5");
    assert_eq!(f.raw_size, 1048576);
    assert_eq!(f.size, "1M");
    assert!(f.new);
    assert!(!f.important);
    assert_eq!(f.visit_count, 15);
    assert_eq!(f.download_cunt, 7);
    assert_eq!(f.file_type, "pdf");
}

fn homework_value() -> JsonValue {
    JsonValue::Obj(vec![
        ("wlkcid".to_string(), text("2023-c-1")),
        ("zyid".to_string(), text("hw-1")),
        ("xszyid".to_string(), text("shw-1")),
        ("bt".to_string(), text("Exercise one")),
        ("kssjStr".to_string(), text("2023-03-01 08:00")),
        ("jzsjStr".to_string(), text("2023-03-08 23:59")),
        ("scsjStr".to_string(), text("")),
        ("zynrStr".to_string(), text("")),
        ("cj".to_string(), JsonValue::Null),
        ("pysjStr".to_string(), JsonValue::Null),
        ("jsm".to_string(), text("")),
        ("pynr".to_string(), JsonValue::Null),
    ])
}

#[test]
fn homework_decodes_with_absent_optionals() {
    let h = Homework::from_json(&homework_value()).unwrap();
    assert_eq!(h.course_id, "2023-c-1");
    assert_eq!(h.id, "hw-1");
    assert_eq!(h.student_homework_id, "shw-1");
    assert_eq!(h.deadline.day, 8);
    assert_eq!(h.submit_time, None);
    assert_eq!(h.submit_content, None);
    assert_eq!(h.grade, None);
    assert_eq!(h.grade_time, None);
    assert_eq!(h.grader_name, None);
    assert_eq!(h.grade_content, None);
    assert_eq!(h.detail.description, "");
    assert_eq!(h.detail.attachment_name_url, None);
}

#[test]
fn homework_grade_keeps_raw_text_of_number_or_text() {
    let with_number = match homework_value() {
        JsonValue::Obj(mut fields) => {
            for entry in fields.iter_mut() {
                if entry.0 == "cj" {
                    entry.1 = JsonValue::Int(95);
                }
            }
            JsonValue::Obj(fields)
        },
        _ => unreachable!(),
    };
    let h = Homework::from_json(&with_number).unwrap();
    assert_eq!(h.grade, Some("95".to_string()));

    let with_text = match homework_value() {
        JsonValue::Obj(mut fields) => {
            for entry in fields.iter_mut() {
                if entry.0 == "cj" {
                    entry.1 = text("A+");
                }
            }
            JsonValue::Obj(fields)
        },
        _ => unreachable!(),
    };
    let h = Homework::from_json(&with_text).unwrap();
    assert_eq!(h.grade, Some("A+".to_string()));
}

#[test]
fn discussion_decodes() {
    let v = JsonValue::Obj(vec![
        ("id".to_string(), text("d-3")),
        ("bqid".to_string(), text("board-9")),
        ("bt".to_string(), text("Question about lab")),
        ("fbrxm".to_string(), text("Student S")),
        ("fbsj".to_string(), text("2023-03-01 08:00:30")),
        ("zhhfrxm".to_string(), text("Helper H")),
        ("zhhfsj".to_string(), text("2023-03-02 10:15:00")),
        ("djs".to_string(), JsonValue::Int(40)),
        ("hfcs".to_string(), JsonValue::Int(3)),
    ]);
    let d = Discussion::from_json(&v).unwrap();
    assert_eq!(d.id, "d-3");
    assert_eq!(d.board_id, "board-9");
    assert_eq!(d.publish_time.second, 30);
    assert_eq!(d.last_replier_name, Some("Helper H".to_string()));
    assert_eq!(d.last_reply_time.unwrap().hour, 10);
    assert_eq!(d.visit_count, 40);
    assert_eq!(d.reply_count, 3);
}

#[test]
fn url_methods_concatenate_identifiers() {
    let c = Course::from_json(&JsonValue::Obj(course_fields())).unwrap();
    assert_eq!(
        c.url(),
        "https://learn.tsinghua.edu.cn/f/wlxt/index/course/student/course?wlkcid=2023-c-1"
    );
    let h = Homework::from_json(&homework_value()).unwrap();
    assert_eq!(
        h.url(),
        "https://learn.tsinghua.edu.cn/f/wlxt/kczy/zy/student/viewCj?wlkcid=2023-c-1&zyid=hw-1&xszyid=shw-1"
    );
    assert_eq!(
        h.submit_page(),
        "https://learn.tsinghua.edu.cn/f/wlxt/kczy/zy/student/tijiao?wlkcid=2023-c-1&xszyid=shw-1"
    );
}

#[test]
fn error_messages_spell_the_error() {
    let e = Error::Decode { field: "kcm".to_string(), raw: "missing".to_string() };
    assert_eq!(e.message(), "failed to decode field kcm: missing");
    assert_eq!(Error::TicketNotFound.message(), "failed to login");
    assert_eq!(Error::Network("timed out".to_string()).message(), "network error: timed out");
}

#[test]
fn course_negative_index_reports_decimal_raw() {
    let mut fields = course_fields();
    for entry in fields.iter_mut() {
        if entry.0 == "kxh" {
            entry.1 = JsonValue::Int(-1);
        }
    }
    match Course::from_json(&JsonValue::Obj(fields)) {
        Err(Error::Decode { field, raw }) => {
            assert_eq!(field, "kxh");
            assert_eq!(raw, "-1");
        },
        _ => panic!("a negative course index must fail the record"),
    }
}

#[test]
fn notification_list_uses_the_aa_data_envelope() {
    let record = JsonValue::Obj(vec![
        ("wlkcid".to_string(), text("2023-c-1")),
        ("ggid".to_string(), text("n-1")),
        ("bt".to_string(), text("t")),
        ("ggnr".to_string(), JsonValue::Null),
        ("sfyd".to_string(), text("no")),
        ("sfqd".to_string(), text("0")),
        ("fbsjStr".to_string(), text("2023-03-01 08:00")),
        ("fbrxm".to_string(), text("T")),
        ("fjmc".to_string(), JsonValue::Null),
    ]);
    let inner = JsonValue::Obj(vec![("aaData".to_string(), JsonValue::Arr(vec![record]))]);
    let wrapped = JsonValue::Obj(vec![("object".to_string(), inner)]);
    let decoded = learn_helper::fetchers::decode_notification_list(wrapped).unwrap();
    assert_eq!(decoded.records.len(), 1);
    assert!(decoded.failures.is_empty());
    assert_eq!(decoded.records[0].id, "n-1");
}

#[test]
fn discussion_list_uses_the_results_list_envelope() {
    let record = JsonValue::Obj(vec![
        ("id".to_string(), text("d-1")),
        ("bqid".to_string(), text("b-1")),
        ("bt".to_string(), text("t")),
        ("fbrxm".to_string(), text("S")),
        ("fbsj".to_string(), text("2023-03-01 08:00:00")),
        ("zhhfrxm".to_string(), JsonValue::Null),
        ("zhhfsj".to_string(), JsonValue::Null),
        ("djs".to_string(), JsonValue::Int(0)),
        ("hfcs".to_string(), JsonValue::Int(0)),
    ]);
    let inner = JsonValue::Obj(vec![("resultsList".to_string(), JsonValue::Arr(vec![record]))]);
    let wrapped = JsonValue::Obj(vec![("object".to_string(), inner)]);
    let decoded = learn_helper::fetchers::decode_discussion_list(wrapped).unwrap();
    assert_eq!(decoded.records.len(), 1);
    assert_eq!(decoded.records[0].last_replier_name, None);
    assert_eq!(decoded.records[0].last_reply_time, None);
}

#[test]
fn file_list_uses_the_bare_object_envelope() {
    let record = JsonValue::Obj(vec![
        ("wjid".to_string(), text("f-1")),
        ("bt".to_string(), text("t")),
        ("ms".to_string(), text("d")),
        ("wjdx".to_string(), JsonValue::Int(10)),
        ("fileSize".to_string(), text("10B")),
        ("scsj".to_string(), text("2023-03-01 08:00")),
        ("isNew".to_string(), JsonValue::Int(0)),
        ("sfqd".to_string(), JsonValue::Int(1)),
        ("llcs".to_string(), JsonValue::Int(0)),
        ("xzcs".to_string(), JsonValue::Int(0)),
        ("wjlx".to_string(), text("pdf")),
    ]);
    let wrapped = JsonValue::Obj(vec![("object".to_string(), JsonValue::Arr(vec![record]))]);
    let decoded = learn_helper::fetchers::decode_file_list(wrapped).unwrap();
    assert_eq!(decoded.records.len(), 1);
    assert!(!decoded.records[0].new);
    assert!(decoded.records[0].important);
    assert_eq!(
        decoded.records[0].download_url(),
        "https://learn.tsinghua.edu.cn/b/wlxt/kj/wlkc_kjxxb/student/downloadFile?sfgk=0&wjid=f-1"
    );
}

#[test]
fn homework_list_uses_the_aa_data_envelope() {
    let inner = JsonValue::Obj(vec![(
        "aaData".to_string(),
        JsonValue::Arr(vec![homework_value()]),
    )]);
    let wrapped = JsonValue::Obj(vec![("object".to_string(), inner)]);
    let decoded = learn_helper::fetchers::decode_homework_list(wrapped).unwrap();
    assert_eq!(decoded.records.len(), 1);
    assert_eq!(decoded.records[0].title, "Exercise one");
}

#[test]
fn notification_url_concatenates_both_identifiers() {
    let v = JsonValue::Obj(vec![
        ("wlkcid".to_string(), text("2023-c-1")),
        ("ggid".to_string(), text("n-1")),
        ("bt".to_string(), text("t")),
        ("ggnr".to_string(), JsonValue::Null),
        ("sfyd".to_string(), text("no")),
        ("sfqd".to_string(), text("0")),
        ("fbsjStr".to_string(), text("2023-03-01 08:00")),
        ("fbrxm".to_string(), text("T")),
        ("fjmc".to_string(), JsonValue::Null),
    ]);
    let n = Notification::from_json(&v).unwrap();
    assert_eq!(
        n.url(),
        "https://learn.tsinghua.edu.cn/f/wlxt/kcgg/wlkc_ggb/student/beforeViewXs?wlkcid=2023-c-1&id=n-1"
    );
}
