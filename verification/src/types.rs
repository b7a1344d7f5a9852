//! The typed records the portal's list endpoints describe, and their
//! decoders from the JSON value model.
//!
//! Decoding is all-or-nothing per record: one bad field fails that record
//! with the offending field name and raw value, and leaves sibling records
//! of the same list untouched.

use vstd::prelude::*;
use vstd::string::StringExecFns;
use crate::datetime::DateTime;
use crate::datetime::spec_date_time;
use crate::datetime::spec_date_time1;
use crate::datetime::spec_option_date_time;
use crate::datetime::spec_option_date_time1;
use crate::datetime::date_time;
use crate::datetime::date_time1;
use crate::datetime::option_date_time;
use crate::datetime::option_date_time1;
use crate::errors::Error;
use crate::json::JVal;
use crate::json::JsonValue;
use crate::json::jget;
use crate::json::jval;
use crate::json::obj_get;
use crate::json::render_raw;
use crate::json::raw_text;
use crate::json::dec_str_int;
use crate::json::dec_str_i64;
use crate::parse::spec_base64_string;
use crate::parse::base64_string;
use crate::parse::str_to_bool1;
use crate::parse::str_to_bool2;
use crate::parse::yes_token;

verus! {

/// The raw text reported for a field inside a decode error.
pub open spec fn field_raw(v: JVal, key: Seq<char>) -> Seq<char> {
    match jget(v, key) {
        Some(x) => raw_text(x),
        None => "missing"@,
    }
}

/// The text under a required text field, where it holds one.
pub open spec fn str_field(v: JVal, key: Seq<char>) -> Seq<char> {
    jget(v, key)->Some_0->Str_0
}

/// What reading an optional text field yields: absent where the field is
/// missing or null, the text where it holds one, a failure otherwise.
pub open spec fn spec_opt_str_field(v: JVal, key: Seq<char>) -> Result<Option<Seq<char>>, ()> {
    match jget(v, key) {
        None => Ok(None),
        Some(JVal::Null) => Ok(None),
        Some(JVal::Str(s)) => Ok(Some(s)),
        Some(_) => Err(()),
    }
}

/// What reading a required unsigned field yields: the value where the
/// field holds an integer in range, a failure otherwise.
pub open spec fn spec_u32_field(v: JVal, key: Seq<char>) -> Result<int, ()> {
    match jget(v, key) {
        Some(JVal::Int(i)) => if 0 <= i <= u32::MAX {
            Ok(i)
        } else {
            Err(())
        },
        _ => Err(()),
    }
}

/// The empty-means-absent filter over an already-read optional text field.
pub open spec fn spec_nonempty(os: Option<Seq<char>>) -> Option<Seq<char>> {
    match os {
        None => None,
        Some(s) => if s.len() == 0 {
            None
        } else {
            Some(s)
        },
    }
}

/// A decode error naming `key` and the raw value found under it.
fn field_error(v: &JsonValue, key: &str) -> (r: Error)
    ensures
        r matches Error::Decode { field, raw } && field@ == key@ && raw@ == field_raw(
            jval(*v),
            key@,
        ),
{
    let raw = match obj_get(v, key) {
        Some(x) => render_raw(x),
        None => String::from_str("missing"),
    };
    Error::Decode { field: key.to_owned(), raw }
}

/// Read a required text field.
fn req_str(v: &JsonValue, key: &str) -> (r: Result<String, Error>)
    ensures
        match r {
            Ok(s) => jget(jval(*v), key@) == Some(JVal::Str(s@)),
            Err(e) => {
                &&& !(jget(jval(*v), key@) matches Some(JVal::Str(_)))
                &&& (e matches Error::Decode { field, raw } && field@ == key@ && raw@ == field_raw(
                    jval(*v),
                    key@,
                ))
            },
        },
{
    match obj_get(v, key) {
        Some(JsonValue::Str(s)) => Ok(s.clone()),
        _ => Err(field_error(v, key)),
    }
}

/// Read an optional text field: missing or null is absent.
fn opt_str(v: &JsonValue, key: &str) -> (r: Result<Option<String>, Error>)
    ensures
        match r {
            Ok(os) => spec_opt_str_field(jval(*v), key@) == Ok::<Option<Seq<char>>, ()>(
                match os {
                    None => None,
                    Some(s) => Some(s@),
                },
            ),
            Err(e) => {
                &&& spec_opt_str_field(jval(*v), key@) is Err
                &&& (e matches Error::Decode { field, raw } && field@ == key@ && raw@ == field_raw(
                    jval(*v),
                    key@,
                ))
            },
        },
{
    match obj_get(v, key) {
        None => Ok(None),
        Some(JsonValue::Null) => Ok(None),
        Some(JsonValue::Str(s)) => Ok(Some(s.clone())),
        Some(_) => Err(field_error(v, key)),
    }
}

/// Read a required unsigned number field.
fn req_u32(v: &JsonValue, key: &str) -> (r: Result<u32, Error>)
    ensures
        match r {
            Ok(n) => spec_u32_field(jval(*v), key@) == Ok::<int, ()>(n as int),
            Err(e) => {
                &&& spec_u32_field(jval(*v), key@) is Err
                &&& (e matches Error::Decode { field, raw } && field@ == key@ && raw@ == field_raw(
                    jval(*v),
                    key@,
                ))
            },
        },
{
    match obj_get(v, key) {
        Some(JsonValue::Int(i)) => {
            let i = *i;
            if 0 <= i && i <= u32::MAX as i64 {
                Ok(i as u32)
            } else {
                Err(field_error(v, key))
            }
        },
        _ => Err(field_error(v, key)),
    }
}

/// A course of one semester, as the course list endpoint describes it.
#[derive(Debug, Clone, PartialEq)]
pub struct Course {
    /// The course identifier the other endpoints are keyed by.
    pub id: String,
    /// The course name in the portal's own language.
    pub name: String,
    /// The course name in English.
    pub english_name: String,
    /// The name of the teacher holding the course.
    pub teacher_name: String,
    /// Normally the text of a number, but not always; kept as raw text.
    pub teacher_number: String,
    /// Normally the text of a number, but not always; kept as raw text.
    pub course_number: String,
    /// The index of this course among those sharing a course number.
    pub course_index: u32,
    /// The times and places the course is held at; filled by a secondary
    /// fetch, empty until then.
    pub time_location: Vec<String>,
}

/// Every field the course record needs decodes.
pub open spec fn spec_course_ok(v: JVal) -> bool {
    &&& jget(v, "wlkcid"@) matches Some(JVal::Str(_))
    &&& jget(v, "kcm"@) matches Some(JVal::Str(_))
    &&& jget(v, "ywkcm"@) matches Some(JVal::Str(_))
    &&& jget(v, "jsm"@) matches Some(JVal::Str(_))
    &&& jget(v, "jsh"@) matches Some(JVal::Str(_))
    &&& jget(v, "kch"@) matches Some(JVal::Str(_))
    &&& spec_u32_field(v, "kxh"@) is Ok
}

/// The decoded course carries exactly what the record's fields spell.
pub open spec fn course_matches(gv: JVal, c: Course) -> bool {
    &&& jget(gv, "wlkcid"@) == Some(JVal::Str(c.id@))
    &&& jget(gv, "kcm"@) == Some(JVal::Str(c.name@))
    &&& jget(gv, "ywkcm"@) == Some(JVal::Str(c.english_name@))
    &&& jget(gv, "jsm"@) == Some(JVal::Str(c.teacher_name@))
    &&& jget(gv, "jsh"@) == Some(JVal::Str(c.teacher_number@))
    &&& jget(gv, "kch"@) == Some(JVal::Str(c.course_number@))
    &&& spec_u32_field(gv, "kxh"@) == Ok::<int, ()>(c.course_index as int)
    &&& c.time_location@.len() == 0
}

impl Course {
    /// Decode one course record; the time/location list starts empty.
    pub fn from_json(v: &JsonValue) -> (r: Result<Course, Error>)
        ensures
            ({
                let gv = jval(*v);
                match r {
                    Ok(c) => spec_course_ok(gv) && course_matches(gv, c),
                    Err(e) => !spec_course_ok(gv) && e matches Error::Decode { .. },
                }
            }),
    {
        let id = match req_str(v, "wlkcid") {
            Ok(s) => s,
            Err(e) => return Err(e),
        };
        let name = match req_str(v, "kcm") {
            Ok(s) => s,
            Err(e) => return Err(e),
        };
        let english_name = match req_str(v, "ywkcm") {
            Ok(s) => s,
            Err(e) => return Err(e),
        };
        let teacher_name = match req_str(v, "jsm") {
            Ok(s) => s,
            Err(e) => return Err(e),
        };
        let teacher_number = match req_str(v, "jsh") {
            Ok(s) => s,
            Err(e) => return Err(e),
        };
        let course_number = match req_str(v, "kch") {
            Ok(s) => s,
            Err(e) => return Err(e),
        };
        let course_index = match req_u32(v, "kxh") {
            Ok(n) => n,
            Err(e) => return Err(e),
        };
        Ok(
            Course {
                id,
                name,
                english_name,
                teacher_name,
                teacher_number,
                course_number,
                course_index,
                time_location: Vec::new(),
            },
        )
    }
}


/// A file a teacher shared with a course, as the file list endpoint
/// describes it.
#[derive(Debug, Clone, PartialEq)]
pub struct File {
    /// The file identifier.
    pub id: String,
    /// The title of the file.
    pub title: String,
    /// The description of the file, as an HTML text.
    pub description: String,
    /// Size in bytes.
    pub raw_size: u32,
    /// Size as the portal spells it, such as `"1M"`.
    pub size: String,
    /// When the teacher uploaded the file.
    pub upload_time: DateTime,
    /// Whether the file is not yet read.
    pub new: bool,
    /// Whether the teacher marked the file important.
    pub important: bool,
    /// How many students visited the file.
    pub visit_count: u32,
    /// How many students downloaded the file.
    pub download_cunt: u32,
    /// The suffix of the file name, such as `"zip"`.
    pub file_type: String,
}

/// Every field the file record needs decodes.
pub open spec fn spec_file_ok(v: JVal) -> bool {
    &&& jget(v, "wjid"@) matches Some(JVal::Str(_))
    &&& jget(v, "bt"@) matches Some(JVal::Str(_))
    &&& jget(v, "ms"@) matches Some(JVal::Str(_))
    &&& spec_u32_field(v, "wjdx"@) is Ok
    &&& jget(v, "fileSize"@) matches Some(JVal::Str(_))
    &&& (jget(v, "scsj"@) matches Some(JVal::Str(t)) && spec_date_time(t) is Some)
    &&& spec_u32_field(v, "isNew"@) is Ok
    &&& spec_u32_field(v, "sfqd"@) is Ok
    &&& spec_u32_field(v, "llcs"@) is Ok
    &&& spec_u32_field(v, "xzcs"@) is Ok
    &&& jget(v, "wjlx"@) matches Some(JVal::Str(_))
}

/// The decoded file carries exactly what the record's fields spell.
pub open spec fn file_matches(gv: JVal, f: File) -> bool {
    &&& jget(gv, "wjid"@) == Some(JVal::Str(f.id@))
    &&& jget(gv, "bt"@) == Some(JVal::Str(f.title@))
    &&& jget(gv, "ms"@) == Some(JVal::Str(f.description@))
    &&& spec_u32_field(gv, "wjdx"@) == Ok::<int, ()>(f.raw_size as int)
    &&& jget(gv, "fileSize"@) == Some(JVal::Str(f.size@))
    &&& spec_date_time(str_field(gv, "scsj"@)) == Some(f.upload_time)
    &&& f.new == (spec_u32_field(gv, "isNew"@) != Ok::<int, ()>(0))
    &&& f.important == (spec_u32_field(gv, "sfqd"@) != Ok::<int, ()>(0))
    &&& spec_u32_field(gv, "llcs"@) == Ok::<int, ()>(f.visit_count as int)
    &&& spec_u32_field(gv, "xzcs"@) == Ok::<int, ()>(f.download_cunt as int)
    &&& jget(gv, "wjlx"@) == Some(JVal::Str(f.file_type@))
}

impl File {
    /// Decode one file record.
    pub fn from_json(v: &JsonValue) -> (r: Result<File, Error>)
        ensures
            ({
                let gv = jval(*v);
                match r {
                    Ok(f) => spec_file_ok(gv) && file_matches(gv, f),
                    Err(e) => !spec_file_ok(gv) && e matches Error::Decode { .. },
                }
            }),
    {
        let id = match req_str(v, "wjid") {
            Ok(s) => s,
            Err(e) => return Err(e),
        };
        let title = match req_str(v, "bt") {
            Ok(s) => s,
            Err(e) => return Err(e),
        };
        let description = match req_str(v, "ms") {
            Ok(s) => s,
            Err(e) => return Err(e),
        };
        let raw_size = match req_u32(v, "wjdx") {
            Ok(n) => n,
            Err(e) => return Err(e),
        };
        let size = match req_str(v, "fileSize") {
            Ok(s) => s,
            Err(e) => return Err(e),
        };
        let upload_time_text = match req_str(v, "scsj") {
            Ok(s) => s,
            Err(e) => return Err(e),
        };
        let upload_time = match date_time(upload_time_text.as_str()) {
            Some(d) => d,
            None => {
                return Err(
                    Error::Decode { field: String::from_str("scsj"), raw: upload_time_text },
                );
            },
        };
        let new_flag = match req_u32(v, "isNew") {
            Ok(n) => n,
            Err(e) => return Err(e),
        };
        let important_flag = match req_u32(v, "sfqd") {
            Ok(n) => n,
            Err(e) => return Err(e),
        };
        let visit_count = match req_u32(v, "llcs") {
            Ok(n) => n,
            Err(e) => return Err(e),
        };
        let download_cunt = match req_u32(v, "xzcs") {
            Ok(n) => n,
            Err(e) => return Err(e),
        };
        let file_type = match req_str(v, "wjlx") {
            Ok(s) => s,
            Err(e) => return Err(e),
        };
        Ok(
            File {
                id,
                title,
                description,
                raw_size,
                size,
                upload_time,
                new: crate::parse::int_to_bool(new_flag),
                important: crate::parse::int_to_bool(important_flag),
                visit_count,
                download_cunt,
                file_type,
            },
        )
    }
}

/// A notification of a course, as the notification list endpoint
/// describes it.
#[derive(Debug, Clone, PartialEq)]
pub struct Notification {
    /// The identifier of the course the notification belongs to.
    pub course_id: String,
    /// The notification identifier.
    pub id: String,
    /// The title of the notification.
    pub title: String,
    /// The content of the notification, as an HTML text; the wire carries
    /// it base64-encoded.
    pub content: String,
    /// Whether the notification was already read.
    pub read: bool,
    /// Whether the teacher marked the notification important.
    pub important: bool,
    /// When the notification was published.
    pub publish_time: DateTime,
    /// The name of the publisher.
    pub publisher: String,
    /// The attachment name, where the notification declares one.
    pub attachment_name: Option<String>,
    /// The attachment link; filled by a secondary fetch of the detail
    /// page, absent until then and for notifications with no attachment.
    pub attachment_url: Option<String>,
}

/// The optional text under `key`, where reading it succeeds.
pub open spec fn opt_str_of(v: JVal, key: Seq<char>) -> Option<Seq<char>> {
    spec_opt_str_field(v, key)->Ok_0
}

/// Every field the notification record needs decodes.
pub open spec fn spec_notification_ok(v: JVal) -> bool {
    &&& jget(v, "wlkcid"@) matches Some(JVal::Str(_))
    &&& jget(v, "ggid"@) matches Some(JVal::Str(_))
    &&& jget(v, "bt"@) matches Some(JVal::Str(_))
    &&& spec_opt_str_field(v, "ggnr"@) is Ok
    &&& spec_base64_string(opt_str_of(v, "ggnr"@)) is Ok
    &&& jget(v, "sfyd"@) matches Some(JVal::Str(_))
    &&& jget(v, "sfqd"@) matches Some(JVal::Str(_))
    &&& (jget(v, "fbsjStr"@) matches Some(JVal::Str(t)) && spec_date_time(t) is Some)
    &&& jget(v, "fbrxm"@) matches Some(JVal::Str(_))
    &&& spec_opt_str_field(v, "fjmc"@) is Ok
}

/// The decoded notification carries exactly what the record's fields
/// spell.
pub open spec fn notification_matches(gv: JVal, n: Notification) -> bool {
    &&& jget(gv, "wlkcid"@) == Some(JVal::Str(n.course_id@))
    &&& jget(gv, "ggid"@) == Some(JVal::Str(n.id@))
    &&& jget(gv, "bt"@) == Some(JVal::Str(n.title@))
    &&& spec_base64_string(opt_str_of(gv, "ggnr"@)) == Ok::<Seq<char>, ()>(n.content@)
    &&& n.read == (str_field(gv, "sfyd"@) == yes_token())
    &&& n.important == (str_field(gv, "sfqd"@) == "1"@)
    &&& spec_date_time(str_field(gv, "fbsjStr"@)) == Some(n.publish_time)
    &&& jget(gv, "fbrxm"@) == Some(JVal::Str(n.publisher@))
    &&& (match n.attachment_name {
        None => spec_nonempty(opt_str_of(gv, "fjmc"@)) is None,
        Some(a) => spec_nonempty(opt_str_of(gv, "fjmc"@)) == Some(a@),
    })
    &&& n.attachment_url is None
}

impl Notification {
    /// Decode one notification record; the attachment link starts absent.
    pub fn from_json(v: &JsonValue) -> (r: Result<Notification, Error>)
        ensures
            ({
                let gv = jval(*v);
                match r {
                    Ok(n) => spec_notification_ok(gv) && notification_matches(gv, n),
                    Err(e) => !spec_notification_ok(gv) && e matches Error::Decode { .. },
                }
            }),
    {
        let course_id = match req_str(v, "wlkcid") {
            Ok(s) => s,
            Err(e) => return Err(e),
        };
        let id = match req_str(v, "ggid") {
            Ok(s) => s,
            Err(e) => return Err(e),
        };
        let title = match req_str(v, "bt") {
            Ok(s) => s,
            Err(e) => return Err(e),
        };
        let content_b64 = match opt_str(v, "ggnr") {
            Ok(os) => os,
            Err(e) => return Err(e),
        };
        let content_ref: Option<&str> = match &content_b64 {
            None => None,
            Some(s) => Some(s.as_str()),
        };
        let content = match base64_string(content_ref) {
            Ok(c) => c,
            Err(_) => {
                let raw = match content_b64 {
                    Some(s) => s,
                    None => String::new(),
                };
                return Err(Error::Decode { field: String::from_str("ggnr"), raw });
            },
        };
        let read_text = match req_str(v, "sfyd") {
            Ok(s) => s,
            Err(e) => return Err(e),
        };
        let important_text = match req_str(v, "sfqd") {
            Ok(s) => s,
            Err(e) => return Err(e),
        };
        let publish_text = match req_str(v, "fbsjStr") {
            Ok(s) => s,
            Err(e) => return Err(e),
        };
        let publish_time = match date_time(publish_text.as_str()) {
            Some(d) => d,
            None => {
                return Err(Error::Decode { field: String::from_str("fbsjStr"), raw: publish_text });
            },
        };
        let publisher = match req_str(v, "fbrxm") {
            Ok(s) => s,
            Err(e) => return Err(e),
        };
        let attachment_raw = match opt_str(v, "fjmc") {
            Ok(os) => os,
            Err(e) => return Err(e),
        };
        let attachment_name = crate::parse::nonempty_string(attachment_raw);
        Ok(
            Notification {
                course_id,
                id,
                title,
                content,
                read: str_to_bool1(read_text.as_str()),
                important: str_to_bool2(important_text.as_str()),
                publish_time,
                publisher,
                attachment_name,
                attachment_url: None,
            },
        )
    }
}


/// The detail of one homework assignment, filled from its detail page by a
/// secondary fetch.  Each attachment pair is independently absent or
/// present; absence is never an error.
#[derive(Debug, Clone, PartialEq)]
pub struct HomeworkDetail {
    /// The description of the homework, as an HTML text.
    pub description: String,
    /// The `(name, link)` of the assignment attachment, where one exists.
    pub attachment_name_url: Option<(String, String)>,
    /// The `(name, link)` of the submission attachment, where one exists.
    pub submit_attachment_name_url: Option<(String, String)>,
    /// The `(name, link)` of the grade attachment, where one exists.
    pub grade_attachment_name_url: Option<(String, String)>,
}

impl Default for HomeworkDetail {
    /// The detail of a homework whose detail page was not fetched yet.
    fn default() -> (d: HomeworkDetail)
        ensures
            d.description@.len() == 0,
            d.attachment_name_url is None,
            d.submit_attachment_name_url is None,
            d.grade_attachment_name_url is None,
    {
        HomeworkDetail {
            description: String::new(),
            attachment_name_url: None,
            submit_attachment_name_url: None,
            grade_attachment_name_url: None,
        }
    }
}

/// What reading the grade field yields: absent where missing or null, the
/// raw text where the wire carries text, the decimal spelling where it
/// carries a number.  The field is kept as text because the portal is not
/// consistent about its type.
pub open spec fn spec_grade_field(v: JVal, key: Seq<char>) -> Result<Option<Seq<char>>, ()> {
    match jget(v, key) {
        None => Ok(None),
        Some(JVal::Null) => Ok(None),
        Some(JVal::Int(i)) => Ok(Some(dec_str_int(i))),
        Some(JVal::Str(s)) => Ok(Some(s)),
        Some(_) => Err(()),
    }
}

/// A homework assignment, as the three homework list endpoints describe
/// it.
#[derive(Debug, Clone, PartialEq)]
pub struct Homework {
    /// The identifier of the course the homework belongs to.
    pub course_id: String,
    /// The homework identifier.
    pub id: String,
    /// The identifier of this student's copy of the homework, used when
    /// submitting.
    pub student_homework_id: String,
    /// The title of the homework.
    pub title: String,
    /// When the teacher assigned the homework.
    pub assign_time: DateTime,
    /// When the homework is due.
    pub deadline: DateTime,
    /// When the student submitted, where a submission exists.
    pub submit_time: Option<DateTime>,
    /// The submitted content, where a submission exists, as an HTML text.
    pub submit_content: Option<String>,
    /// The grade, where the teacher graded; kept as raw text because the
    /// portal is not consistent about its type.
    pub grade: Option<String>,
    /// When the teacher graded, where a grade exists.
    pub grade_time: Option<DateTime>,
    /// The name of the grading teacher, where a grade exists.
    pub grader_name: Option<String>,
    /// The comment of the grading teacher, where one exists.
    pub grade_content: Option<String>,
    /// The detail of the homework; empty until its secondary fetch ran.
    pub detail: HomeworkDetail,
}

/// Every field the homework record needs decodes.
pub open spec fn spec_homework_ok(v: JVal) -> bool {
    &&& jget(v, "wlkcid"@) matches Some(JVal::Str(_))
    &&& jget(v, "zyid"@) matches Some(JVal::Str(_))
    &&& jget(v, "xszyid"@) matches Some(JVal::Str(_))
    &&& jget(v, "bt"@) matches Some(JVal::Str(_))
    &&& (jget(v, "kssjStr"@) matches Some(JVal::Str(t)) && spec_date_time(t) is Some)
    &&& (jget(v, "jzsjStr"@) matches Some(JVal::Str(t)) && spec_date_time(t) is Some)
    &&& spec_opt_str_field(v, "scsjStr"@) is Ok
    &&& spec_option_date_time(opt_str_of(v, "scsjStr"@)) is Ok
    &&& spec_opt_str_field(v, "zynrStr"@) is Ok
    &&& spec_grade_field(v, "cj"@) is Ok
    &&& spec_opt_str_field(v, "pysjStr"@) is Ok
    &&& spec_option_date_time(opt_str_of(v, "pysjStr"@)) is Ok
    &&& spec_opt_str_field(v, "jsm"@) is Ok
    &&& spec_opt_str_field(v, "pynr"@) is Ok
}

/// Read an optional minute-precision timestamp field.
fn opt_date_time_field(v: &JsonValue, key: &str) -> (r: Result<Option<DateTime>, Error>)
    ensures
        ({
            let gv = jval(*v);
            match r {
                Ok(od) => {
                    &&& spec_opt_str_field(gv, key@) is Ok
                    &&& spec_option_date_time(opt_str_of(gv, key@)) == Ok::<Option<DateTime>, ()>(
                        od,
                    )
                },
                Err(e) => {
                    &&& (spec_opt_str_field(gv, key@) is Err || spec_option_date_time(
                        opt_str_of(gv, key@),
                    ) is Err)
                    &&& e matches Error::Decode { .. }
                },
            }
        }),
{
    let text = match opt_str(v, key) {
        Ok(os) => os,
        Err(e) => return Err(e),
    };
    let text_ref: Option<&str> = match &text {
        None => None,
        Some(s) => Some(s.as_str()),
    };
    match option_date_time(text_ref) {
        Ok(od) => Ok(od),
        Err(_) => {
            let raw = match text {
                Some(s) => s,
                None => String::new(),
            };
            Err(Error::Decode { field: key.to_owned(), raw })
        },
    }
}

/// Read the grade field, keeping whatever raw text or number it carries.
fn grade_field(v: &JsonValue, key: &str) -> (r: Result<Option<String>, Error>)
    ensures
        ({
            let gv = jval(*v);
            match r {
                Ok(og) => spec_grade_field(gv, key@) == Ok::<Option<Seq<char>>, ()>(
                    match og {
                        None => None,
                        Some(g) => Some(g@),
                    },
                ),
                Err(e) => spec_grade_field(gv, key@) is Err && e matches Error::Decode { .. },
            }
        }),
{
    match obj_get(v, key) {
        None => Ok(None),
        Some(JsonValue::Null) => Ok(None),
        Some(JsonValue::Int(i)) => Ok(Some(dec_str_i64(*i))),
        Some(JsonValue::Str(s)) => Ok(Some(s.clone())),
        Some(_) => Err(field_error(v, key)),
    }
}

/// The decoded homework carries exactly what the record's fields spell,
/// with an empty detail.
pub open spec fn homework_matches(gv: JVal, h: Homework) -> bool {
    &&& jget(gv, "wlkcid"@) == Some(JVal::Str(h.course_id@))
    &&& jget(gv, "zyid"@) == Some(JVal::Str(h.id@))
    &&& jget(gv, "xszyid"@) == Some(JVal::Str(h.student_homework_id@))
    &&& jget(gv, "bt"@) == Some(JVal::Str(h.title@))
    &&& spec_date_time(str_field(gv, "kssjStr"@)) == Some(h.assign_time)
    &&& spec_date_time(str_field(gv, "jzsjStr"@)) == Some(h.deadline)
    &&& spec_option_date_time(opt_str_of(gv, "scsjStr"@)) == Ok::<Option<DateTime>, ()>(
        h.submit_time,
    )
    &&& (match h.submit_content {
        None => spec_nonempty(opt_str_of(gv, "zynrStr"@)) is None,
        Some(c) => spec_nonempty(opt_str_of(gv, "zynrStr"@)) == Some(c@),
    })
    &&& (match h.grade {
        None => spec_grade_field(gv, "cj"@) == Ok::<Option<Seq<char>>, ()>(None),
        Some(g) => spec_grade_field(gv, "cj"@) == Ok::<Option<Seq<char>>, ()>(Some(g@)),
    })
    &&& spec_option_date_time(opt_str_of(gv, "pysjStr"@)) == Ok::<Option<DateTime>, ()>(
        h.grade_time,
    )
    &&& (match h.grader_name {
        None => spec_nonempty(opt_str_of(gv, "jsm"@)) is None,
        Some(g) => spec_nonempty(opt_str_of(gv, "jsm"@)) == Some(g@),
    })
    &&& (match h.grade_content {
        None => spec_nonempty(opt_str_of(gv, "pynr"@)) is None,
        Some(g) => spec_nonempty(opt_str_of(gv, "pynr"@)) == Some(g@),
    })
    &&& h.detail.description@.len() == 0
    &&& h.detail.attachment_name_url is None
    &&& h.detail.submit_attachment_name_url is None
    &&& h.detail.grade_attachment_name_url is None
}

impl Homework {
    /// Decode one homework record; the detail starts empty.
    pub fn from_json(v: &JsonValue) -> (r: Result<Homework, Error>)
        ensures
            ({
                let gv = jval(*v);
                match r {
                    Ok(h) => spec_homework_ok(gv) && homework_matches(gv, h),
                    Err(e) => !spec_homework_ok(gv) && e matches Error::Decode { .. },
                }
            }),
    {
        let course_id = match req_str(v, "wlkcid") {
            Ok(s) => s,
            Err(e) => return Err(e),
        };
        let id = match req_str(v, "zyid") {
            Ok(s) => s,
            Err(e) => return Err(e),
        };
        let student_homework_id = match req_str(v, "xszyid") {
            Ok(s) => s,
            Err(e) => return Err(e),
        };
        let title = match req_str(v, "bt") {
            Ok(s) => s,
            Err(e) => return Err(e),
        };
        let assign_text = match req_str(v, "kssjStr") {
            Ok(s) => s,
            Err(e) => return Err(e),
        };
        let assign_time = match date_time(assign_text.as_str()) {
            Some(d) => d,
            None => {
                return Err(Error::Decode { field: String::from_str("kssjStr"), raw: assign_text });
            },
        };
        let deadline_text = match req_str(v, "jzsjStr") {
            Ok(s) => s,
            Err(e) => return Err(e),
        };
        let deadline = match date_time(deadline_text.as_str()) {
            Some(d) => d,
            None => {
                return Err(
                    Error::Decode { field: String::from_str("jzsjStr"), raw: deadline_text },
                );
            },
        };
        let submit_time = match opt_date_time_field(v, "scsjStr") {
            Ok(od) => od,
            Err(e) => return Err(e),
        };
        let submit_raw = match opt_str(v, "zynrStr") {
            Ok(os) => os,
            Err(e) => return Err(e),
        };
        let submit_content = crate::parse::nonempty_string(submit_raw);
        let grade = match grade_field(v, "cj") {
            Ok(og) => og,
            Err(e) => return Err(e),
        };
        let grade_time = match opt_date_time_field(v, "pysjStr") {
            Ok(od) => od,
            Err(e) => return Err(e),
        };
        let grader_raw = match opt_str(v, "jsm") {
            Ok(os) => os,
            Err(e) => return Err(e),
        };
        let grader_name = crate::parse::nonempty_string(grader_raw);
        let grade_raw = match opt_str(v, "pynr") {
            Ok(os) => os,
            Err(e) => return Err(e),
        };
        let grade_content = crate::parse::nonempty_string(grade_raw);
        Ok(
            Homework {
                course_id,
                id,
                student_homework_id,
                title,
                assign_time,
                deadline,
                submit_time,
                submit_content,
                grade,
                grade_time,
                grader_name,
                grade_content,
                detail: HomeworkDetail::default(),
            },
        )
    }
}

/// A discussion of a course, as the discussion list endpoint describes
/// it.
#[derive(Debug, Clone, PartialEq)]
pub struct Discussion {
    /// The discussion identifier.
    pub id: String,
    /// The identifier of the board the discussion stands on.
    pub board_id: String,
    /// The title of the discussion.
    pub title: String,
    /// The name of the publisher; the published content is the first
    /// reply of the discussion.
    pub publisher_name: String,
    /// When the discussion was published.
    pub publish_time: DateTime,
    /// The name of the last replier, where a reply exists.
    pub last_replier_name: Option<String>,
    /// When the last reply was published, where one exists.
    pub last_reply_time: Option<DateTime>,
    /// How many people visited the discussion.
    pub visit_count: u32,
    /// How many people replied to the discussion.
    pub reply_count: u32,
}

/// Every field the discussion record needs decodes.
pub open spec fn spec_discussion_ok(v: JVal) -> bool {
    &&& jget(v, "id"@) matches Some(JVal::Str(_))
    &&& jget(v, "bqid"@) matches Some(JVal::Str(_))
    &&& jget(v, "bt"@) matches Some(JVal::Str(_))
    &&& jget(v, "fbrxm"@) matches Some(JVal::Str(_))
    &&& (jget(v, "fbsj"@) matches Some(JVal::Str(t)) && spec_date_time1(t) is Some)
    &&& spec_opt_str_field(v, "zhhfrxm"@) is Ok
    &&& spec_opt_str_field(v, "zhhfsj"@) is Ok
    &&& spec_option_date_time1(opt_str_of(v, "zhhfsj"@)) is Ok
    &&& spec_u32_field(v, "djs"@) is Ok
    &&& spec_u32_field(v, "hfcs"@) is Ok
}

/// The decoded discussion carries exactly what the record's fields spell.
pub open spec fn discussion_matches(gv: JVal, d: Discussion) -> bool {
    &&& jget(gv, "id"@) == Some(JVal::Str(d.id@))
    &&& jget(gv, "bqid"@) == Some(JVal::Str(d.board_id@))
    &&& jget(gv, "bt"@) == Some(JVal::Str(d.title@))
    &&& jget(gv, "fbrxm"@) == Some(JVal::Str(d.publisher_name@))
    &&& spec_date_time1(str_field(gv, "fbsj"@)) == Some(d.publish_time)
    &&& (match d.last_replier_name {
        None => spec_nonempty(opt_str_of(gv, "zhhfrxm"@)) is None,
        Some(n) => spec_nonempty(opt_str_of(gv, "zhhfrxm"@)) == Some(n@),
    })
    &&& spec_option_date_time1(opt_str_of(gv, "zhhfsj"@)) == Ok::<Option<DateTime>, ()>(
        d.last_reply_time,
    )
    &&& spec_u32_field(gv, "djs"@) == Ok::<int, ()>(d.visit_count as int)
    &&& spec_u32_field(gv, "hfcs"@) == Ok::<int, ()>(d.reply_count as int)
}

impl Discussion {
    /// Decode one discussion record.
    pub fn from_json(v: &JsonValue) -> (r: Result<Discussion, Error>)
        ensures
            ({
                let gv = jval(*v);
                match r {
                    Ok(d) => spec_discussion_ok(gv) && discussion_matches(gv, d),
                    Err(e) => !spec_discussion_ok(gv) && e matches Error::Decode { .. },
                }
            }),
    {
        let id = match req_str(v, "id") {
            Ok(s) => s,
            Err(e) => return Err(e),
        };
        let board_id = match req_str(v, "bqid") {
            Ok(s) => s,
            Err(e) => return Err(e),
        };
        let title = match req_str(v, "bt") {
            Ok(s) => s,
            Err(e) => return Err(e),
        };
        let publisher_name = match req_str(v, "fbrxm") {
            Ok(s) => s,
            Err(e) => return Err(e),
        };
        let publish_text = match req_str(v, "fbsj") {
            Ok(s) => s,
            Err(e) => return Err(e),
        };
        let publish_time = match date_time1(publish_text.as_str()) {
            Some(d) => d,
            None => {
                return Err(Error::Decode { field: String::from_str("fbsj"), raw: publish_text });
            },
        };
        let replier_raw = match opt_str(v, "zhhfrxm") {
            Ok(os) => os,
            Err(e) => return Err(e),
        };
        let last_replier_name = crate::parse::nonempty_string(replier_raw);
        let reply_time_raw = match opt_str(v, "zhhfsj") {
            Ok(os) => os,
            Err(e) => return Err(e),
        };
        let reply_time_ref: Option<&str> = match &reply_time_raw {
            None => None,
            Some(s) => Some(s.as_str()),
        };
        let last_reply_time = match option_date_time1(reply_time_ref) {
            Ok(od) => od,
            Err(_) => {
                let raw = match reply_time_raw {
                    Some(s) => s,
                    None => String::new(),
                };
                return Err(Error::Decode { field: String::from_str("zhhfsj"), raw });
            },
        };
        let visit_count = match req_u32(v, "djs") {
            Ok(n) => n,
            Err(e) => return Err(e),
        };
        let reply_count = match req_u32(v, "hfcs") {
            Ok(n) => n,
            Err(e) => return Err(e),
        };
        Ok(
            Discussion {
                id,
                board_id,
                title,
                publisher_name,
                publish_time,
                last_replier_name,
                last_reply_time,
                visit_count,
                reply_count,
            },
        )
    }
}

/// The shape of a discussion reply.  `R` is the type of the sub-reply
/// list: a reply list for top-level replies, the unit type for sub-replies,
/// which never nest further.
#[derive(Debug, Clone, PartialEq)]
pub struct DiscussionReply0<R> {
    /// The reply identifier.  The very first reply is the publisher's own
    /// content, cannot be replied to, and has no identifier.
    pub id: Option<String>,
    /// The author of the reply.
    pub author: String,
    /// When the reply was published.
    pub publish_time: DateTime,
    /// The content of the reply, as an HTML text.
    pub content: String,
    /// The sub-replies, in document order.
    pub replies: R,
}

/// A top-level discussion reply with its sub-replies; nesting is exactly
/// two levels deep.
pub type DiscussionReply = DiscussionReply0<Vec<DiscussionReply0<()>>>;


impl Course {
    /// The homepage link of the course, as seen in the browser.
    pub fn url(&self) -> (r: String)
        ensures
            r@ == crate::urls::course_url(self.id@),
    {
        crate::urls::concat_url(
            "https://learn.tsinghua.edu.cn/f/wlxt/index/course/student/course?wlkcid=",
            self.id.as_str(),
        )
    }
}

impl Notification {
    /// The detail page link of the notification, as seen in the browser.
    pub fn url(&self) -> (r: String)
        ensures
            r@ == crate::urls::notification_detail_url(self.id@, self.course_id@),
    {
        crate::urls::concat_url2(
            "https://learn.tsinghua.edu.cn/f/wlxt/kcgg/wlkc_ggb/student/beforeViewXs?wlkcid=",
            self.course_id.as_str(),
            "&id=",
            self.id.as_str(),
        )
    }
}

impl File {
    /// The link that starts the download of the file.
    pub fn download_url(&self) -> (r: String)
        ensures
            r@ == crate::urls::file_download_url(self.id@),
    {
        crate::urls::concat_url(
            "https://learn.tsinghua.edu.cn/b/wlxt/kj/wlkc_kjxxb/student/downloadFile?sfgk=0&wjid=",
            self.id.as_str(),
        )
    }
}

impl Homework {
    /// The detail page link of the homework, as seen in the browser.
    pub fn url(&self) -> (r: String)
        ensures
            r@ == crate::urls::homework_detail_url(
                self.course_id@,
                self.id@,
                self.student_homework_id@,
            ),
    {
        crate::urls::concat_url3(
            "https://learn.tsinghua.edu.cn/f/wlxt/kczy/zy/student/viewCj?wlkcid=",
            self.course_id.as_str(),
            "&zyid=",
            self.id.as_str(),
            "&xszyid=",
            self.student_homework_id.as_str(),
        )
    }

    /// The page a submission of this homework starts from.
    pub fn submit_page(&self) -> (r: String)
        ensures
            r@ == crate::urls::homework_submit_page_url(self.course_id@, self.student_homework_id@),
    {
        crate::urls::concat_url2(
            "https://learn.tsinghua.edu.cn/f/wlxt/kczy/zy/student/tijiao?wlkcid=",
            self.course_id.as_str(),
            "&xszyid=",
            self.student_homework_id.as_str(),
        )
    }
}

} // verus!
