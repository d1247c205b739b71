//! An e-mail to be sent: sender, recipient, subject and body.
use vstd::prelude::*;

verus! {

#[derive(Debug)]
pub struct Email {
    pub from: String,
    pub to: String,
    pub subject: String,
    pub body: String,
}

impl Email {
    pub fn new(from: String, to: String, subject: String, body: String) -> (r: Email)
        ensures
            r.from == from,
            r.to == to,
            r.subject == subject,
            r.body == body,
    {
        Email { from, to, subject, body }
    }
}

} // verus!
