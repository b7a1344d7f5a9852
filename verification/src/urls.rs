//! The portal's URL templates: pure concatenation of a fixed host prefix,
//! fixed paths and opaque identifiers.

use vstd::prelude::*;
use vstd::string::StringExecFns;

verus! {

/// The host prefix every portal link starts with.
pub open spec fn host_prefix() -> Seq<char> {
    "https://learn.tsinghua.edu.cn"@
}

/// The host prefix as a value, for callers that assemble links.
pub fn host_prefix_str() -> (r: String)
    ensures
        r@ == host_prefix(),
{
    String::from_str("https://learn.tsinghua.edu.cn")
}

/// `head + id`, the shape of every link of the portal.
pub fn concat_url(head: &str, id: &str) -> (r: String)
    ensures
        r@ == head@ + id@,
{
    let mut s = head.to_owned();
    s.append(id);
    s
}

/// `head + a + mid + b`.
pub fn concat_url2(head: &str, a: &str, mid: &str, b: &str) -> (r: String)
    ensures
        r@ == head@ + a@ + mid@ + b@,
{
    let mut s = head.to_owned();
    s.append(a);
    s.append(mid);
    s.append(b);
    s
}

/// `head + a + mid + b + mid2 + c`.
pub fn concat_url3(head: &str, a: &str, mid: &str, b: &str, mid2: &str, c: &str) -> (r: String)
    ensures
        r@ == head@ + a@ + mid@ + b@ + mid2@ + c@,
{
    let mut s = head.to_owned();
    s.append(a);
    s.append(mid);
    s.append(b);
    s.append(mid2);
    s.append(c);
    s
}

/// The homepage of a course.
pub open spec fn course_url(id: Seq<char>) -> Seq<char> {
    "https://learn.tsinghua.edu.cn/f/wlxt/index/course/student/course?wlkcid="@ + id
}

/// The detail page of a notification.
pub open spec fn notification_detail_url(id: Seq<char>, course: Seq<char>) -> Seq<char> {
    "https://learn.tsinghua.edu.cn/f/wlxt/kcgg/wlkc_ggb/student/beforeViewXs?wlkcid="@ + course
        + "&id="@ + id
}

/// The download link of a file.
pub open spec fn file_download_url(id: Seq<char>) -> Seq<char> {
    "https://learn.tsinghua.edu.cn/b/wlxt/kj/wlkc_kjxxb/student/downloadFile?sfgk=0&wjid="@ + id
}

/// The detail page of a homework assignment.
pub open spec fn homework_detail_url(
    course: Seq<char>,
    id: Seq<char>,
    student_homework: Seq<char>,
) -> Seq<char> {
    "https://learn.tsinghua.edu.cn/f/wlxt/kczy/zy/student/viewCj?wlkcid="@ + course + "&zyid="@
        + id + "&xszyid="@ + student_homework
}

/// The page a homework submission starts from.
pub open spec fn homework_submit_page_url(course: Seq<char>, student_homework: Seq<char>) -> Seq<
    char,
> {
    "https://learn.tsinghua.edu.cn/f/wlxt/kczy/zy/student/tijiao?wlkcid="@ + course + "&xszyid="@
        + student_homework
}

} // verus!
