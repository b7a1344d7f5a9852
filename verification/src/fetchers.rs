//! Per-resource orchestration logic: decoding whole list responses,
//! attaching secondary-fetch results in order, the fixed three-way
//! homework join, the multipart form layouts, and the success-marker
//! check of mutating calls.
//!
//! Everything here computes on plain values; the caller performs the
//! transport around it.

use vstd::prelude::*;
use vstd::string::StringExecFns;
use crate::errors::Error;
use crate::json::JVal;
use crate::json::JsonValue;
use crate::json::jval;
use crate::json::jval_seq;
use crate::json::lemma_jval_seq_index;
use crate::json::spec_unwrap_envelope;
use crate::json::unwrap_envelope;
use crate::strutil;
use crate::try_join::reversed;
use crate::try_join::try_join3;
use crate::types::Course;
use crate::types::Discussion;
use crate::types::File;
use crate::types::Homework;
use crate::types::HomeworkDetail;
use crate::types::Notification;
use crate::types::course_matches;
use crate::types::discussion_matches;
use crate::types::file_matches;
use crate::types::homework_matches;
use crate::types::notification_matches;
use crate::types::spec_course_ok;
use crate::types::spec_discussion_ok;
use crate::types::spec_file_ok;
use crate::types::spec_homework_ok;
use crate::types::spec_notification_ok;

verus! {

/// Which record type a list payload holds.
pub ghost enum RecordKind {
    Course,
    File,
    Notification,
    Homework,
    Discussion,
}

/// Whether one payload entry decodes for the given record type.
pub open spec fn record_ok(kind: RecordKind, v: JVal) -> bool {
    match kind {
        RecordKind::Course => spec_course_ok(v),
        RecordKind::File => spec_file_ok(v),
        RecordKind::Notification => spec_notification_ok(v),
        RecordKind::Homework => spec_homework_ok(v),
        RecordKind::Discussion => spec_discussion_ok(v),
    }
}

/// The payload entries that decode, in order.
pub open spec fn good_records(kind: RecordKind, items: Seq<JVal>) -> Seq<JVal>
    decreases items.len(),
{
    if items.len() == 0 {
        Seq::empty()
    } else {
        (if record_ok(kind, items[0]) {
            seq![items[0]]
        } else {
            Seq::empty()
        }) + good_records(kind, items.subrange(1, items.len() as int))
    }
}

/// Extending the payload by one entry extends the decoding entries by
/// that entry where it decodes.
proof fn lemma_good_records_snoc(kind: RecordKind, items: Seq<JVal>)
    requires
        items.len() > 0,
    ensures
        good_records(kind, items) == good_records(kind, items.drop_last()) + (if record_ok(
            kind,
            items.last(),
        ) {
            seq![items.last()]
        } else {
            Seq::empty()
        }),
    decreases items.len(),
{
    if items.len() == 1 {
        assert(items.drop_last() =~= Seq::<JVal>::empty());
        assert(items.subrange(1, items.len() as int) =~= Seq::<JVal>::empty());
        assert(good_records(kind, Seq::<JVal>::empty()) =~= Seq::<JVal>::empty());
        if record_ok(kind, items[0]) {
            assert(good_records(kind, items) =~= seq![items[0]]);
            assert(good_records(kind, items.drop_last()) + seq![items.last()] =~= seq![items[0]]);
        } else {
            assert(good_records(kind, items) =~= Seq::<JVal>::empty());
        }
    } else {
        let tail = items.subrange(1, items.len() as int);
        lemma_good_records_snoc(kind, tail);
        assert(tail.drop_last() =~= items.drop_last().subrange(
            1,
            items.drop_last().len() as int,
        ));
        assert(tail.last() == items.last());
        if record_ok(kind, items.last()) {
            assert(good_records(kind, items) =~= good_records(kind, items.drop_last()) + seq![
                items.last(),
            ]);
        } else {
            assert(good_records(kind, items) =~= good_records(kind, items.drop_last()));
        }
    }
}

/// A decoded list: the records whose entries decoded, in server order,
/// and one reported failure for each entry that did not.  A bad entry
/// never aborts its siblings.
pub struct Decoded<T> {
    /// The records that decoded, in server order.
    pub records: Vec<T>,
    /// One decode failure per entry that did not, in server order.
    pub failures: Vec<Error>,
}


/// Decode a whole course list response: unwrap the envelope, then decode
/// each entry on its own, keeping the records that decode and reporting
/// a failure for each entry that does not.
#[verifier::loop_isolation(false)]
pub fn decode_course_list(v: JsonValue) -> (r: Result<Decoded<Course>, Error>)
    ensures
        match r {
            Err(e) => spec_unwrap_envelope(jval(v)) is None && e matches Error::Decode { .. },
            Ok(d) => ({
                let items = spec_unwrap_envelope(jval(v))->Some_0;
                let good = good_records(RecordKind::Course, items);
                &&& spec_unwrap_envelope(jval(v)) is Some
                &&& d.records@.len() == good.len()
                &&& (forall|k: int|
                    0 <= k < good.len() ==> course_matches(good[k], #[trigger] d.records@[k]))
                &&& d.records@.len() + d.failures@.len() == items.len()
                &&& (forall|k: int|
                    0 <= k < d.failures@.len() ==> (#[trigger] d.failures@[k])
                        matches Error::Decode { .. })
            }),
        },
{
    let items = match unwrap_envelope(v) {
        Ok(items) => items,
        Err(e) => return Err(e),
    };
    let ghost gitems = jval_seq(items@);
    proof {
        lemma_jval_seq_index(items@);
    }
    let n = items.len();
    let mut rev = reversed(items);
    let mut records: Vec<Course> = Vec::new();
    let mut failures: Vec<Error> = Vec::new();
    let mut i: usize = 0;
    proof {
        assert(gitems.subrange(0, 0) =~= Seq::<JVal>::empty());
    }
    while i < n
        invariant
            0 <= i <= n,
            n == gitems.len(),
            rev@.len() == n - i,
            forall|k: int| 0 <= k < rev@.len() ==> jval(#[trigger] rev@[k]) == gitems[n - 1 - k],
            records@.len() == good_records(RecordKind::Course, gitems.subrange(0, i as int)).len(),
            forall|k: int|
                0 <= k < records@.len() ==> course_matches(
                    good_records(RecordKind::Course, gitems.subrange(0, i as int))[k],
                    #[trigger] records@[k],
                ),
            records@.len() + failures@.len() == i,
            forall|k: int|
                0 <= k < failures@.len() ==> (#[trigger] failures@[k]) matches Error::Decode {
                    ..
                },
        decreases n - i,
    {
        let x = rev.pop().unwrap();
        proof {
            assert(jval(x) == gitems[i as int]);
        }
        let ghost prefix = gitems.subrange(0, i as int);
        let ghost prefix1 = gitems.subrange(0, i + 1);
        proof {
            lemma_good_records_snoc(RecordKind::Course, prefix1);
            assert(prefix1.drop_last() =~= prefix);
            assert(prefix1.last() == gitems[i as int]);
        }
        match Course::from_json(&x) {
            Ok(rec) => {
                records.push(rec);
                proof {
                    assert(good_records(RecordKind::Course, prefix1) =~= good_records(
                        RecordKind::Course,
                        prefix,
                    ) + seq![gitems[i as int]]);
                }
            },
            Err(e) => {
                failures.push(e);
                proof {
                    assert(good_records(RecordKind::Course, prefix1) =~= good_records(
                        RecordKind::Course,
                        prefix,
                    ));
                }
            },
        }
        i += 1;
    }
    proof {
        assert(gitems.subrange(0, n as int) =~= gitems);
    }
    Ok(Decoded { records, failures })
}

/// Decode a whole file list response: unwrap the envelope, then decode
/// each entry on its own, keeping the records that decode and reporting
/// a failure for each entry that does not.
#[verifier::loop_isolation(false)]
pub fn decode_file_list(v: JsonValue) -> (r: Result<Decoded<File>, Error>)
    ensures
        match r {
            Err(e) => spec_unwrap_envelope(jval(v)) is None && e matches Error::Decode { .. },
            Ok(d) => ({
                let items = spec_unwrap_envelope(jval(v))->Some_0;
                let good = good_records(RecordKind::File, items);
                &&& spec_unwrap_envelope(jval(v)) is Some
                &&& d.records@.len() == good.len()
                &&& (forall|k: int|
                    0 <= k < good.len() ==> file_matches(good[k], #[trigger] d.records@[k]))
                &&& d.records@.len() + d.failures@.len() == items.len()
                &&& (forall|k: int|
                    0 <= k < d.failures@.len() ==> (#[trigger] d.failures@[k])
                        matches Error::Decode { .. })
            }),
        },
{
    let items = match unwrap_envelope(v) {
        Ok(items) => items,
        Err(e) => return Err(e),
    };
    let ghost gitems = jval_seq(items@);
    proof {
        lemma_jval_seq_index(items@);
    }
    let n = items.len();
    let mut rev = reversed(items);
    let mut records: Vec<File> = Vec::new();
    let mut failures: Vec<Error> = Vec::new();
    let mut i: usize = 0;
    proof {
        assert(gitems.subrange(0, 0) =~= Seq::<JVal>::empty());
    }
    while i < n
        invariant
            0 <= i <= n,
            n == gitems.len(),
            rev@.len() == n - i,
            forall|k: int| 0 <= k < rev@.len() ==> jval(#[trigger] rev@[k]) == gitems[n - 1 - k],
            records@.len() == good_records(RecordKind::File, gitems.subrange(0, i as int)).len(),
            forall|k: int|
                0 <= k < records@.len() ==> file_matches(
                    good_records(RecordKind::File, gitems.subrange(0, i as int))[k],
                    #[trigger] records@[k],
                ),
            records@.len() + failures@.len() == i,
            forall|k: int|
                0 <= k < failures@.len() ==> (#[trigger] failures@[k]) matches Error::Decode {
                    ..
                },
        decreases n - i,
    {
        let x = rev.pop().unwrap();
        proof {
            assert(jval(x) == gitems[i as int]);
        }
        let ghost prefix = gitems.subrange(0, i as int);
        let ghost prefix1 = gitems.subrange(0, i + 1);
        proof {
            lemma_good_records_snoc(RecordKind::File, prefix1);
            assert(prefix1.drop_last() =~= prefix);
            assert(prefix1.last() == gitems[i as int]);
        }
        match File::from_json(&x) {
            Ok(rec) => {
                records.push(rec);
                proof {
                    assert(good_records(RecordKind::File, prefix1) =~= good_records(
                        RecordKind::File,
                        prefix,
                    ) + seq![gitems[i as int]]);
                }
            },
            Err(e) => {
                failures.push(e);
                proof {
                    assert(good_records(RecordKind::File, prefix1) =~= good_records(
                        RecordKind::File,
                        prefix,
                    ));
                }
            },
        }
        i += 1;
    }
    proof {
        assert(gitems.subrange(0, n as int) =~= gitems);
    }
    Ok(Decoded { records, failures })
}

/// Decode a whole notification list response: unwrap the envelope, then decode
/// each entry on its own, keeping the records that decode and reporting
/// a failure for each entry that does not.
#[verifier::loop_isolation(false)]
pub fn decode_notification_list(v: JsonValue) -> (r: Result<Decoded<Notification>, Error>)
    ensures
        match r {
            Err(e) => spec_unwrap_envelope(jval(v)) is None && e matches Error::Decode { .. },
            Ok(d) => ({
                let items = spec_unwrap_envelope(jval(v))->Some_0;
                let good = good_records(RecordKind::Notification, items);
                &&& spec_unwrap_envelope(jval(v)) is Some
                &&& d.records@.len() == good.len()
                &&& (forall|k: int|
                    0 <= k < good.len() ==> notification_matches(good[k], #[trigger] d.records@[k]))
                &&& d.records@.len() + d.failures@.len() == items.len()
                &&& (forall|k: int|
                    0 <= k < d.failures@.len() ==> (#[trigger] d.failures@[k])
                        matches Error::Decode { .. })
            }),
        },
{
    let items = match unwrap_envelope(v) {
        Ok(items) => items,
        Err(e) => return Err(e),
    };
    let ghost gitems = jval_seq(items@);
    proof {
        lemma_jval_seq_index(items@);
    }
    let n = items.len();
    let mut rev = reversed(items);
    let mut records: Vec<Notification> = Vec::new();
    let mut failures: Vec<Error> = Vec::new();
    let mut i: usize = 0;
    proof {
        assert(gitems.subrange(0, 0) =~= Seq::<JVal>::empty());
    }
    while i < n
        invariant
            0 <= i <= n,
            n == gitems.len(),
            rev@.len() == n - i,
            forall|k: int| 0 <= k < rev@.len() ==> jval(#[trigger] rev@[k]) == gitems[n - 1 - k],
            records@.len() == good_records(RecordKind::Notification, gitems.subrange(0, i as int)).len(),
            forall|k: int|
                0 <= k < records@.len() ==> notification_matches(
                    good_records(RecordKind::Notification, gitems.subrange(0, i as int))[k],
                    #[trigger] records@[k],
                ),
            records@.len() + failures@.len() == i,
            forall|k: int|
                0 <= k < failures@.len() ==> (#[trigger] failures@[k]) matches Error::Decode {
                    ..
                },
        decreases n - i,
    {
        let x = rev.pop().unwrap();
        proof {
            assert(jval(x) == gitems[i as int]);
        }
        let ghost prefix = gitems.subrange(0, i as int);
        let ghost prefix1 = gitems.subrange(0, i + 1);
        proof {
            lemma_good_records_snoc(RecordKind::Notification, prefix1);
            assert(prefix1.drop_last() =~= prefix);
            assert(prefix1.last() == gitems[i as int]);
        }
        match Notification::from_json(&x) {
            Ok(rec) => {
                records.push(rec);
                proof {
                    assert(good_records(RecordKind::Notification, prefix1) =~= good_records(
                        RecordKind::Notification,
                        prefix,
                    ) + seq![gitems[i as int]]);
                }
            },
            Err(e) => {
                failures.push(e);
                proof {
                    assert(good_records(RecordKind::Notification, prefix1) =~= good_records(
                        RecordKind::Notification,
                        prefix,
                    ));
                }
            },
        }
        i += 1;
    }
    proof {
        assert(gitems.subrange(0, n as int) =~= gitems);
    }
    Ok(Decoded { records, failures })
}

/// Decode a whole homework list response: unwrap the envelope, then decode
/// each entry on its own, keeping the records that decode and reporting
/// a failure for each entry that does not.
#[verifier::loop_isolation(false)]
pub fn decode_homework_list(v: JsonValue) -> (r: Result<Decoded<Homework>, Error>)
    ensures
        match r {
            Err(e) => spec_unwrap_envelope(jval(v)) is None && e matches Error::Decode { .. },
            Ok(d) => ({
                let items = spec_unwrap_envelope(jval(v))->Some_0;
                let good = good_records(RecordKind::Homework, items);
                &&& spec_unwrap_envelope(jval(v)) is Some
                &&& d.records@.len() == good.len()
                &&& (forall|k: int|
                    0 <= k < good.len() ==> homework_matches(good[k], #[trigger] d.records@[k]))
                &&& d.records@.len() + d.failures@.len() == items.len()
                &&& (forall|k: int|
                    0 <= k < d.failures@.len() ==> (#[trigger] d.failures@[k])
                        matches Error::Decode { .. })
            }),
        },
{
    let items = match unwrap_envelope(v) {
        Ok(items) => items,
        Err(e) => return Err(e),
    };
    let ghost gitems = jval_seq(items@);
    proof {
        lemma_jval_seq_index(items@);
    }
    let n = items.len();
    let mut rev = reversed(items);
    let mut records: Vec<Homework> = Vec::new();
    let mut failures: Vec<Error> = Vec::new();
    let mut i: usize = 0;
    proof {
        assert(gitems.subrange(0, 0) =~= Seq::<JVal>::empty());
    }
    while i < n
        invariant
            0 <= i <= n,
            n == gitems.len(),
            rev@.len() == n - i,
            forall|k: int| 0 <= k < rev@.len() ==> jval(#[trigger] rev@[k]) == gitems[n - 1 - k],
            records@.len() == good_records(RecordKind::Homework, gitems.subrange(0, i as int)).len(),
            forall|k: int|
                0 <= k < records@.len() ==> homework_matches(
                    good_records(RecordKind::Homework, gitems.subrange(0, i as int))[k],
                    #[trigger] records@[k],
                ),
            records@.len() + failures@.len() == i,
            forall|k: int|
                0 <= k < failures@.len() ==> (#[trigger] failures@[k]) matches Error::Decode {
                    ..
                },
        decreases n - i,
    {
        let x = rev.pop().unwrap();
        proof {
            assert(jval(x) == gitems[i as int]);
        }
        let ghost prefix = gitems.subrange(0, i as int);
        let ghost prefix1 = gitems.subrange(0, i + 1);
        proof {
            lemma_good_records_snoc(RecordKind::Homework, prefix1);
            assert(prefix1.drop_last() =~= prefix);
            assert(prefix1.last() == gitems[i as int]);
        }
        match Homework::from_json(&x) {
            Ok(rec) => {
                records.push(rec);
                proof {
                    assert(good_records(RecordKind::Homework, prefix1) =~= good_records(
                        RecordKind::Homework,
                        prefix,
                    ) + seq![gitems[i as int]]);
                }
            },
            Err(e) => {
                failures.push(e);
                proof {
                    assert(good_records(RecordKind::Homework, prefix1) =~= good_records(
                        RecordKind::Homework,
                        prefix,
                    ));
                }
            },
        }
        i += 1;
    }
    proof {
        assert(gitems.subrange(0, n as int) =~= gitems);
    }
    Ok(Decoded { records, failures })
}

/// Decode a whole discussion list response: unwrap the envelope, then decode
/// each entry on its own, keeping the records that decode and reporting
/// a failure for each entry that does not.
#[verifier::loop_isolation(false)]
pub fn decode_discussion_list(v: JsonValue) -> (r: Result<Decoded<Discussion>, Error>)
    ensures
        match r {
            Err(e) => spec_unwrap_envelope(jval(v)) is None && e matches Error::Decode { .. },
            Ok(d) => ({
                let items = spec_unwrap_envelope(jval(v))->Some_0;
                let good = good_records(RecordKind::Discussion, items);
                &&& spec_unwrap_envelope(jval(v)) is Some
                &&& d.records@.len() == good.len()
                &&& (forall|k: int|
                    0 <= k < good.len() ==> discussion_matches(good[k], #[trigger] d.records@[k]))
                &&& d.records@.len() + d.failures@.len() == items.len()
                &&& (forall|k: int|
                    0 <= k < d.failures@.len() ==> (#[trigger] d.failures@[k])
                        matches Error::Decode { .. })
            }),
        },
{
    let items = match unwrap_envelope(v) {
        Ok(items) => items,
        Err(e) => return Err(e),
    };
    let ghost gitems = jval_seq(items@);
    proof {
        lemma_jval_seq_index(items@);
    }
    let n = items.len();
    let mut rev = reversed(items);
    let mut records: Vec<Discussion> = Vec::new();
    let mut failures: Vec<Error> = Vec::new();
    let mut i: usize = 0;
    proof {
        assert(gitems.subrange(0, 0) =~= Seq::<JVal>::empty());
    }
    while i < n
        invariant
            0 <= i <= n,
            n == gitems.len(),
            rev@.len() == n - i,
            forall|k: int| 0 <= k < rev@.len() ==> jval(#[trigger] rev@[k]) == gitems[n - 1 - k],
            records@.len() == good_records(RecordKind::Discussion, gitems.subrange(0, i as int)).len(),
            forall|k: int|
                0 <= k < records@.len() ==> discussion_matches(
                    good_records(RecordKind::Discussion, gitems.subrange(0, i as int))[k],
                    #[trigger] records@[k],
                ),
            records@.len() + failures@.len() == i,
            forall|k: int|
                0 <= k < failures@.len() ==> (#[trigger] failures@[k]) matches Error::Decode {
                    ..
                },
        decreases n - i,
    {
        let x = rev.pop().unwrap();
        proof {
            assert(jval(x) == gitems[i as int]);
        }
        let ghost prefix = gitems.subrange(0, i as int);
        let ghost prefix1 = gitems.subrange(0, i + 1);
        proof {
            lemma_good_records_snoc(RecordKind::Discussion, prefix1);
            assert(prefix1.drop_last() =~= prefix);
            assert(prefix1.last() == gitems[i as int]);
        }
        match Discussion::from_json(&x) {
            Ok(rec) => {
                records.push(rec);
                proof {
                    assert(good_records(RecordKind::Discussion, prefix1) =~= good_records(
                        RecordKind::Discussion,
                        prefix,
                    ) + seq![gitems[i as int]]);
                }
            },
            Err(e) => {
                failures.push(e);
                proof {
                    assert(good_records(RecordKind::Discussion, prefix1) =~= good_records(
                        RecordKind::Discussion,
                        prefix,
                    ));
                }
            },
        }
        i += 1;
    }
    proof {
        assert(gitems.subrange(0, n as int) =~= gitems);
    }
    Ok(Decoded { records, failures })
}


/// Attach the fetched time/location list of each course, pairing by
/// position, all other fields kept.
#[verifier::loop_isolation(false)]
pub fn attach_time_locations(courses: Vec<Course>, lists: Vec<Vec<String>>) -> (r: Vec<Course>)
    requires
        courses@.len() == lists@.len(),
    ensures
        r@.len() == courses@.len(),
        forall|i: int|
            0 <= i < courses@.len() ==> #[trigger] r@[i] == (Course {
                time_location: lists@[i],
                ..courses@[i]
            }),
{
    let n = courses.len();
    let mut rev_c = reversed(courses);
    let mut rev_l = reversed(lists);
    let mut out: Vec<Course> = Vec::new();
    let mut i: usize = 0;
    while i < n
        invariant
            0 <= i <= n,
            rev_c@.len() == n - i,
            rev_l@.len() == n - i,
            forall|k: int| 0 <= k < rev_c@.len() ==> #[trigger] rev_c@[k] == courses@[n - 1 - k],
            forall|k: int| 0 <= k < rev_l@.len() ==> #[trigger] rev_l@[k] == lists@[n - 1 - k],
            out@.len() == i,
            forall|k: int|
                0 <= k < i ==> #[trigger] out@[k] == (Course {
                    time_location: lists@[k],
                    ..courses@[k]
                }),
        decreases n - i,
    {
        let c = rev_c.pop().unwrap();
        let l = rev_l.pop().unwrap();
        out.push(Course { time_location: l, ..c });
        i += 1;
    }
    out
}

/// Whether a notification declares an attachment, and so needs its
/// detail page fetched.
pub fn notification_needs_detail(n: &Notification) -> (r: bool)
    ensures
        r == (n.attachment_name is Some),
{
    n.attachment_name.is_some()
}

/// Attach the extracted attachment link of each notification, pairing by
/// position, all other fields kept.  The caller hands an absent link for
/// each notification that declared no attachment.
#[verifier::loop_isolation(false)]
pub fn attach_notification_urls(notifications: Vec<Notification>, urls: Vec<Option<String>>) -> (r:
    Vec<Notification>)
    requires
        notifications@.len() == urls@.len(),
    ensures
        r@.len() == notifications@.len(),
        forall|i: int|
            0 <= i < notifications@.len() ==> #[trigger] r@[i] == (Notification {
                attachment_url: urls@[i],
                ..notifications@[i]
            }),
{
    let n = notifications.len();
    let mut rev_n = reversed(notifications);
    let mut rev_u = reversed(urls);
    let mut out: Vec<Notification> = Vec::new();
    let mut i: usize = 0;
    while i < n
        invariant
            0 <= i <= n,
            rev_n@.len() == n - i,
            rev_u@.len() == n - i,
            forall|k: int|
                0 <= k < rev_n@.len() ==> #[trigger] rev_n@[k] == notifications@[n - 1 - k],
            forall|k: int| 0 <= k < rev_u@.len() ==> #[trigger] rev_u@[k] == urls@[n - 1 - k],
            out@.len() == i,
            forall|k: int|
                0 <= k < i ==> #[trigger] out@[k] == (Notification {
                    attachment_url: urls@[k],
                    ..notifications@[k]
                }),
        decreases n - i,
    {
        let x = rev_n.pop().unwrap();
        let u = rev_u.pop().unwrap();
        out.push(Notification { attachment_url: u, ..x });
        i += 1;
    }
    out
}

/// Attach the scraped detail of each homework, pairing by position, all
/// other fields kept.
#[verifier::loop_isolation(false)]
pub fn attach_homework_details(homeworks: Vec<Homework>, details: Vec<HomeworkDetail>) -> (r: Vec<
    Homework,
>)
    requires
        homeworks@.len() == details@.len(),
    ensures
        r@.len() == homeworks@.len(),
        forall|i: int|
            0 <= i < homeworks@.len() ==> #[trigger] r@[i] == (Homework {
                detail: details@[i],
                ..homeworks@[i]
            }),
{
    let n = homeworks.len();
    let mut rev_h = reversed(homeworks);
    let mut rev_d = reversed(details);
    let mut out: Vec<Homework> = Vec::new();
    let mut i: usize = 0;
    while i < n
        invariant
            0 <= i <= n,
            rev_h@.len() == n - i,
            rev_d@.len() == n - i,
            forall|k: int| 0 <= k < rev_h@.len() ==> #[trigger] rev_h@[k] == homeworks@[n - 1 - k],
            forall|k: int| 0 <= k < rev_d@.len() ==> #[trigger] rev_d@[k] == details@[n - 1 - k],
            out@.len() == i,
            forall|k: int|
                0 <= k < i ==> #[trigger] out@[k] == (Homework {
                    detail: details@[k],
                    ..homeworks@[k]
                }),
        decreases n - i,
    {
        let h = rev_h.pop().unwrap();
        let d = rev_d.pop().unwrap();
        out.push(Homework { detail: d, ..h });
        i += 1;
    }
    out
}

/// Concatenate the three homework endpoint payloads strictly in endpoint
/// order, each sub-list keeping its server order.
pub fn concat3<T>(a: Vec<T>, b: Vec<T>, c: Vec<T>) -> (r: Vec<T>)
    ensures
        r@ == a@ + b@ + c@,
{
    let mut r = a;
    let mut b = b;
    let mut c = c;
    r.append(&mut b);
    r.append(&mut c);
    r
}

/// Join the three homework list results with the combinator's fail-fast,
/// first-error semantics, and concatenate the successes strictly in
/// endpoint order.
pub fn join_homework_lists(
    a: Result<Vec<Homework>, Error>,
    b: Result<Vec<Homework>, Error>,
    c: Result<Vec<Homework>, Error>,
) -> (r: Result<Vec<Homework>, Error>)
    ensures
        match r {
            Ok(all) => {
                &&& a matches Ok(av) && b matches Ok(bv) && c matches Ok(cv) && all@ == av@ + bv@
                    + cv@
            },
            Err(e) => (a == Err::<Vec<Homework>, Error>(e)) || (a is Ok && b == Err::<
                Vec<Homework>,
                Error,
            >(e)) || (a is Ok && b is Ok && c == Err::<Vec<Homework>, Error>(e)),
        },
{
    match try_join3(a, b, c) {
        Ok((av, bv, cv)) => Ok(concat3(av, bv, cv)),
        Err(e) => Err(e),
    }
}

/// The marker whose presence in a response body signals success.
pub open spec fn success_marker() -> Seq<char> {
    "success"@
}

/// Check a mutating call's response body for the success marker.  Its
/// absence is a domain-level failure carrying `msg`, even though the
/// transport succeeded.
pub fn check_success(body: &str, msg: &str) -> (r: Result<(), Error>)
    ensures
        match r {
            Ok(_) => strutil::has_sub(body@, success_marker()),
            Err(e) => {
                &&& !strutil::has_sub(body@, success_marker())
                &&& (e matches Error::DomainFailure(m) && m@ == msg@)
            },
        },
{
    if strutil::contains_sub(body, "success") {
        Ok(())
    } else {
        Err(Error::DomainFailure(msg.to_owned()))
    }
}

/// One part of a multipart form.
#[derive(Debug, Clone, PartialEq)]
pub enum FormPart {
    /// A plain text field.
    Text {
        /// The field name.
        name: String,
        /// The field value.
        value: String,
    },
    /// A file field with its name in the portal and its bytes.
    File {
        /// The field name.
        name: String,
        /// The file name shown in the portal.
        filename: String,
        /// The file content.
        bytes: Vec<u8>,
    },
}

/// The optional file part shared by homework submission and discussion
/// replies: the file where one is handed over, else the literal
/// placeholder text.
fn file_part(file: Option<(String, Vec<u8>)>) -> (r: FormPart)
    ensures
        match file {
            Some((name, bytes)) => r matches FormPart::File {
                name: n,
                filename,
                bytes: b,
            } && n@ == "fileupload"@ && filename@ == name@ && b@ == bytes@,
            None => r matches FormPart::Text { name: n, value } && n@ == "fileupload"@ && value@
                == "undefined"@,
        },
{
    match file {
        Some((name, bytes)) => FormPart::File {
            name: String::from_str("fileupload"),
            filename: name,
            bytes,
        },
        None => FormPart::Text {
            name: String::from_str("fileupload"),
            value: String::from_str("undefined"),
        },
    }
}

/// The multipart form of a homework submission: the content text, the
/// student-homework identifier, the deletion flag, and the optional file
/// with its placeholder default.
pub fn submit_homework_form(
    student_homework: &str,
    content: String,
    file: Option<(String, Vec<u8>)>,
) -> (r: Vec<FormPart>)
    ensures
        r@.len() == 4,
        r@[0] matches FormPart::Text { name, value } && name@ == "zynr"@ && value@ == content@,
        r@[1] matches FormPart::Text { name, value } && name@ == "xszyid"@ && value@
            == student_homework@,
        r@[2] matches FormPart::Text { name, value } && name@ == "isDeleted"@ && value@ == "0"@,
        (match file {
            Some((name, bytes)) => r@[3] matches FormPart::File {
                name: n,
                filename,
                bytes: b,
            } && n@ == "fileupload"@ && filename@ == name@ && b@ == bytes@,
            None => r@[3] matches FormPart::Text { name: n, value } && n@ == "fileupload"@
                && value@ == "undefined"@,
        }),
{
    let mut form: Vec<FormPart> = Vec::new();
    form.push(FormPart::Text { name: String::from_str("zynr"), value: content });
    form.push(FormPart::Text { name: String::from_str("xszyid"), value: student_homework.to_owned() });
    form.push(FormPart::Text { name: String::from_str("isDeleted"), value: String::from_str("0") });
    form.push(file_part(file));
    form
}

/// The multipart form of a discussion reply: the course and discussion
/// identifiers, the content text, the optional file with its placeholder
/// default, and — when answering a particular reply — that reply's
/// identifier under both names the portal expects.
pub fn reply_discussion_form(
    course: &str,
    discussion: &str,
    content: &str,
    respondent_reply: Option<&str>,
    file: Option<(String, Vec<u8>)>,
) -> (r: Vec<FormPart>)
    ensures
        r@.len() == (if respondent_reply is Some {
            6int
        } else {
            4int
        }),
        r@[0] matches FormPart::Text { name, value } && name@ == "wlkcid"@ && value@ == course@,
        r@[1] matches FormPart::Text { name, value } && name@ == "tltid"@ && value@ == discussion@,
        r@[2] matches FormPart::Text { name, value } && name@ == "nr"@ && value@ == content@,
        (match file {
            Some((name, bytes)) => r@[3] matches FormPart::File {
                name: n,
                filename,
                bytes: b,
            } && n@ == "fileupload"@ && filename@ == name@ && b@ == bytes@,
            None => r@[3] matches FormPart::Text { name: n, value } && n@ == "fileupload"@
                && value@ == "undefined"@,
        }),
        (match respondent_reply {
            Some(reply) => {
                &&& (r@[4] matches FormPart::Text { name, value } && name@ == "fhhid"@ && value@
                    == reply@)
                &&& (r@[5] matches FormPart::Text { name, value } && name@ == "_fhhid"@ && value@
                    == reply@)
            },
            None => true,
        }),
{
    let mut form: Vec<FormPart> = Vec::new();
    form.push(FormPart::Text { name: String::from_str("wlkcid"), value: course.to_owned() });
    form.push(FormPart::Text { name: String::from_str("tltid"), value: discussion.to_owned() });
    form.push(FormPart::Text { name: String::from_str("nr"), value: content.to_owned() });
    form.push(file_part(file));
    match respondent_reply {
        Some(reply) => {
            form.push(FormPart::Text { name: String::from_str("fhhid"), value: reply.to_owned() });
            form.push(
                FormPart::Text { name: String::from_str("_fhhid"), value: reply.to_owned() },
            );
        },
        None => {},
    }
    form
}

/// How the transport of a reply-deletion call ended.
#[derive(Debug, Clone, PartialEq)]
pub enum TransportOutcome {
    /// The server answered with this body.
    Response(String),
    /// The call ran into its bounded timeout.
    TimedOut,
    /// The transport failed with this report.
    Failed(String),
}

/// Interpret the outcome of a reply-deletion call.  The server is known
/// to drop the connection of this one call instead of answering, so its
/// bounded timeout counts as implied success; any other transport failure
/// stays a hard failure, and an answer must carry the success marker.
pub fn delete_reply_outcome(outcome: TransportOutcome, msg: &str) -> (r: Result<(), Error>)
    ensures
        match outcome {
            TransportOutcome::TimedOut => r is Ok,
            TransportOutcome::Failed(m) => r matches Err(Error::Network(x)) && x@ == m@,
            TransportOutcome::Response(body) => match r {
                Ok(_) => strutil::has_sub(body@, success_marker()),
                Err(e) => {
                    &&& !strutil::has_sub(body@, success_marker())
                    &&& (e matches Error::DomainFailure(m) && m@ == msg@)
                },
            },
        },
{
    match outcome {
        TransportOutcome::TimedOut => Ok(()),
        TransportOutcome::Failed(m) => Err(Error::Network(m)),
        TransportOutcome::Response(body) => check_success(body.as_str(), msg),
    }
}

} // verus!
