//! The single-sign-on login pieces that operate on plain values: the form
//! the credentials are submitted as, and the ticket cut out of the login
//! response.

use vstd::prelude::*;
use vstd::string::StrSliceExecFns;
use vstd::string::StringExecFns;
use crate::errors::Error;
use crate::strutil;

verus! {

/// The marker in front of the ticket in the login response.
pub open spec fn ticket_marker() -> Seq<char> {
    "ticket="@
}

/// The ticket stands between the first `ticket=` marker, at `i`, and the
/// first following double quote, at `j`.
pub open spec fn ticket_span(s: Seq<char>, i: int, j: int) -> bool {
    &&& strutil::first_match_at(s, ticket_marker(), i)
    &&& strutil::first_char_from(s, '"', i + 7, j)
}

/// The fields of the login form: the credentials and the immediate flag.
pub fn login_form(username: &str, password: &str) -> (r: Vec<(String, String)>)
    ensures
        r@.len() == 3,
        r@[0].0@ == "i_user"@ && r@[0].1@ == username@,
        r@[1].0@ == "i_pass"@ && r@[1].1@ == password@,
        r@[2].0@ == "atOnce"@ && r@[2].1@ == "true"@,
{
    let mut form: Vec<(String, String)> = Vec::new();
    form.push((String::from_str("i_user"), username.to_owned()));
    form.push((String::from_str("i_pass"), password.to_owned()));
    form.push((String::from_str("atOnce"), String::from_str("true")));
    form
}

/// Cut the single-sign-on ticket out of the login response body: the text
/// between the first `ticket=` marker and the next double quote.  A body
/// with no marker, or no quote after it, carries no ticket.
pub fn extract_ticket(body: &str) -> (r: Result<String, Error>)
    ensures
        match r {
            Ok(t) => exists|i: int, j: int| #[trigger] ticket_span(body@, i, j) && t@
                == body@.subrange(i + 7, j),
            Err(e) => {
                &&& e == Error::TicketNotFound
                &&& !(exists|i: int, j: int| #[trigger] ticket_span(body@, i, j))
            },
        },
{
    proof {
        reveal_strlit("ticket=");
    }
    let body_len = body.unicode_len();
    let marker_at = match strutil::find_sub(body, "ticket=") {
        Some(i) => i,
        None => {
            proof {
                assert forall|i: int, j: int| !(#[trigger] ticket_span(body@, i, j)) by {
                    assert(!strutil::matches_at(body@, ticket_marker(), i));
                }
            }
            return Err(Error::TicketNotFound);
        },
    };
    let start = marker_at + 7;
    let quote_at = match strutil::find_char_from(body, '"', start) {
        Some(j) => j,
        None => {
            proof {
                assert forall|i: int, j: int| !(#[trigger] ticket_span(body@, i, j)) by {
                    if strutil::first_match_at(body@, ticket_marker(), i) {
                        assert(i == marker_at as int);
                    }
                }
            }
            return Err(Error::TicketNotFound);
        },
    };
    let ticket = strutil::copy_range(body, start, quote_at);
    proof {
        assert(ticket_span(body@, marker_at as int, quote_at as int));
    }
    Ok(ticket)
}

} // verus!
