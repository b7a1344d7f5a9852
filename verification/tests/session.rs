use learn_helper::auth::{extract_ticket, login_form};
use learn_helper::errors::Error;
use learn_helper::fetchers::{
    check_success, concat3, delete_reply_outcome, join_homework_lists, reply_discussion_form,
    submit_homework_form, FormPart, TransportOutcome,
};

#[test]
fn ticket_is_cut_between_marker_and_quote() {
    let body = "<a href=\"https://id.tsinghua.edu.cn/roam?ticket=ABC123\">continue</a>";
    assert_eq!(extract_ticket(body).unwrap(), "ABC123");
}

#[test]
fn ticket_first_marker_wins() {
    let body = "ticket=ONE\" and later ticket=TWO\"";
    assert_eq!(extract_ticket(body).unwrap(), "ONE");
}

#[test]
fn missing_ticket_marker_fails_login() {
    assert_eq!(extract_ticket("<html>wrong password</html>"), Err(Error::TicketNotFound));
    assert_eq!(extract_ticket("ticket=NEVERCLOSED"), Err(Error::TicketNotFound));
}

#[test]
fn login_form_holds_credentials_and_flag() {
    let form = login_form("alice", "pass-123");
    assert_eq!(form.len(), 3);
    assert_eq!(form[0], ("i_user".to_string(), "alice".to_string()));
    assert_eq!(form[1], ("i_pass".to_string(), "pass-123".to_string()));
    assert_eq!(form[2], ("atOnce".to_string(), "true".to_string()));
}

#[test]
fn success_marker_decides_domain_outcome() {
    assert_eq!(check_success("{\"result\":\"success\"}", "failed to submit homework"), Ok(()));
    match check_success("failed", "failed to submit homework") {
        Err(Error::DomainFailure(m)) => assert_eq!(m, "failed to submit homework"),
        _ => panic!("a body without the marker must be a domain failure"),
    }
}

#[test]
fn homework_lists_concatenate_in_endpoint_order() {
    assert_eq!(
        concat3(vec!["A", "B"], vec!["C"], vec!["D", "E"]),
        vec!["A", "B", "C", "D", "E"]
    );
}

#[test]
fn homework_join_is_fail_fast_in_endpoint_order() {
    let e = Error::Network("down".to_string());
    let r = join_homework_lists(Ok(vec![]), Err(e.clone()), Err(Error::TicketNotFound));
    assert_eq!(r, Err(e));
    let r = join_homework_lists(Ok(vec![]), Ok(vec![]), Ok(vec![]));
    assert_eq!(r, Ok(vec![]));
}

#[test]
fn submit_form_defaults_the_file_part() {
    let form = submit_homework_form("shw-1", "my answer".to_string(), None);
    assert_eq!(form.len(), 4);
    assert_eq!(
        form[0],
        FormPart::Text { name: "zynr".to_string(), value: "my answer".to_string() }
    );
    assert_eq!(
        form[1],
        FormPart::Text { name: "xszyid".to_string(), value: "shw-1".to_string() }
    );
    assert_eq!(
        form[2],
        FormPart::Text { name: "isDeleted".to_string(), value: "0".to_string() }
    );
    assert_eq!(
        form[3],
        FormPart::Text { name: "fileupload".to_string(), value: "undefined".to_string() }
    );
}

#[test]
fn submit_form_carries_the_file() {
    let form =
        submit_homework_form("shw-1", "answer".to_string(), Some(("a.zip".to_string(), vec![1, 2])));
    assert_eq!(
        form[3],
        FormPart::File {
            name: "fileupload".to_string(),
            filename: "a.zip".to_string(),
            bytes: vec![1, 2],
        }
    );
}

#[test]
fn reply_form_repeats_the_respondent_identifier() {
    let form = reply_discussion_form("2023-c-1", "d-3", "I agree", Some("r-9"), None);
    assert_eq!(form.len(), 6);
    assert_eq!(
        form[0],
        FormPart::Text { name: "wlkcid".to_string(), value: "2023-c-1".to_string() }
    );
    assert_eq!(form[1], FormPart::Text { name: "tltid".to_string(), value: "d-3".to_string() });
    assert_eq!(form[2], FormPart::Text { name: "nr".to_string(), value: "I agree".to_string() });
    assert_eq!(form[4], FormPart::Text { name: "fhhid".to_string(), value: "r-9".to_string() });
    assert_eq!(form[5], FormPart::Text { name: "_fhhid".to_string(), value: "r-9".to_string() });

    let form = reply_discussion_form("2023-c-1", "d-3", "I agree", None, None);
    assert_eq!(form.len(), 4);
}

#[test]
fn reply_deletion_timeout_is_implied_success() {
    assert_eq!(delete_reply_outcome(TransportOutcome::TimedOut, "failed to delete"), Ok(()));
}

#[test]
fn reply_deletion_other_failures_stay_hard() {
    match delete_reply_outcome(TransportOutcome::Failed("refused".to_string()), "failed") {
        Err(Error::Network(m)) => assert_eq!(m, "refused"),
        _ => panic!("a non-timeout transport failure must stay a failure"),
    }
    assert_eq!(
        delete_reply_outcome(TransportOutcome::Response("success".to_string()), "failed"),
        Ok(())
    );
    match delete_reply_outcome(TransportOutcome::Response("nope".to_string()), "failed to delete") {
        Err(Error::DomainFailure(m)) => assert_eq!(m, "failed to delete"),
        _ => panic!("an answer without the marker must be a domain failure"),
    }
}
