//! Outgoing notices: what a handler asks the transport to send.

use vstd::prelude::*;

verus! {

/// A notice for a room: its plain text and, if there is one, its rendering
/// as HTML.
#[derive(Debug)]
pub struct Notice {
    /// The plain text of the notice.
    pub body: String,
    /// The same content as HTML, where the sender has one.
    pub formatted_body: Option<String>,
}

impl Notice {
    /// A notice of plain text alone.
    pub fn plain(body: String) -> (notice: Notice)
        ensures
            notice.body@ == body@,
            notice.formatted_body is None,
    {
        Notice { body, formatted_body: None }
    }

    /// A notice with plain text and its HTML rendering.
    pub fn html(body: String, formatted_body: String) -> (notice: Notice)
        ensures
            notice.body@ == body@,
            notice.formatted_body matches Some(formatted) && formatted@ == formatted_body@,
    {
        Notice { body, formatted_body: Some(formatted_body) }
    }

    /// The notice for a body and an optional HTML rendering: an HTML notice
    /// where the rendering is there, a plain one where it is not.
    pub fn new(body: String, formatted_body: Option<String>) -> (notice: Notice)
        ensures
            notice.body@ == body@,
            match formatted_body {
                Some(given) => notice.formatted_body matches Some(formatted) && formatted@
                    == given@,
                None => notice.formatted_body is None,
            },
    {
        match formatted_body {
            Some(formatted_body) => Notice::html(body, formatted_body),
            None => Notice::plain(body),
        }
    }
}

} // verus!
