//! Session lookup: from a raw `Cookie` header to the session it names.

use crate::cookie::{get_session, session_of};
use crate::session::{SessionStore, TokenRecord, TokenRecordView};
use vstd::prelude::*;

verus! {

/// The session that a request belongs to: the one that the identifier in its
/// `Cookie` header names, if the request has such a header, the header
/// carries an identifier, and the identifier names a session.
pub open spec fn session_of_request(
    sessions: Map<Seq<char>, TokenRecordView>,
    header: Option<Seq<char>>,
) -> Option<TokenRecordView> {
    match header {
        Some(text) => match session_of(text) {
            Some(id) => if sessions.contains_key(id) {
                Some(sessions[id])
            } else {
                None
            },
            None => None,
        },
        None => None,
    }
}

/// The view of an optional header.
pub open spec fn header_text(header: Option<&str>) -> Option<Seq<char>> {
    match header {
        Some(text) => Some(text@),
        None => None,
    }
}

/// The token record of the session that the request belongs to, for use
/// inside the server. A missing header, a header without session identifier
/// and an unknown identifier all give `None`.
pub fn session_record<'a>(store: &'a SessionStore, raw_cookie_header: Option<&str>) -> (found:
    Option<&'a TokenRecord>)
    ensures
        found is Some <==> session_of_request(store@, header_text(raw_cookie_header)) is Some,
        found matches Some(record) ==> session_of_request(store@, header_text(raw_cookie_header))
            == Some(record@),
{
    match raw_cookie_header {
        Some(text) => match get_session(text) {
            Some(id) => store.get(id),
            None => None,
        },
        None => None,
    }
}

/// Whether the request belongs to a live session. A missing header, a header
/// without session identifier and an unknown identifier all mean that it does
/// not; none is an error.
pub fn is_logged_in(store: &SessionStore, raw_cookie_header: Option<&str>) -> (logged_in: bool)
    ensures
        logged_in == session_of_request(store@, header_text(raw_cookie_header)).is_some(),
{
    match raw_cookie_header {
        Some(text) => match get_session(text) {
            Some(id) => store.contains(id),
            None => false,
        },
        None => false,
    }
}

} // verus!
