//! What the agent tells the authority about itself.
//!
//! At startup the agent registers as the authentication agent of its login
//! session: it names the session as a subject, a locale, and the object path
//! under which the authority finds its callbacks.

use crate::identity::{Detail, Variant};
use vstd::prelude::*;
use vstd::string::*;

verus! {

/// Whom a registration is for.
#[derive(Clone, Debug)]
pub struct Subject {
    pub subject_kind: String,
    pub subject_details: Vec<Detail>,
}

/// The arguments of the authority's register operation. The unregister
/// operation takes the same subject and object path.
#[derive(Clone, Debug)]
pub struct Registration {
    pub subject: Subject,
    pub locale: String,
    pub object_path: String,
}

impl Subject {
    /// Whether this subject is the login session `session_id`: its kind is
    /// `unix-session`, and its one detail is `session-id`, with that text.
    pub open spec fn is_session(self, session_id: Seq<char>) -> bool {
        &&& self.subject_kind@ == "unix-session"@
        &&& self.subject_details@.len() == 1
        &&& self.subject_details@[0].key@ == "session-id"@
        &&& self.subject_details@[0].value matches Variant::Str(text) && text@ == session_id
    }

    /// The subject that stands for the login session `session_id`.
    pub fn session(session_id: &str) -> (subject: Subject)
        ensures
            subject.is_session(session_id@),
    {
        let mut details: Vec<Detail> = Vec::new();
        details.push(
            Detail { key: String::from_str("session-id"), value: Variant::Str(session_id.to_owned()) },
        );
        Subject { subject_kind: String::from_str("unix-session"), subject_details: details }
    }
}

/// What the agent registers with for the login session `session_id`: the
/// session as subject, the locale `en_US`, and the object path of the agent's
/// callbacks.
pub fn registration(session_id: &str) -> (r: Registration)
    ensures
        r.subject.is_session(session_id@),
        r.locale@ == "en_US"@,
        r.object_path@ == "/lol/happens/CosmicOsd"@,
{
    Registration {
        subject: Subject::session(session_id),
        locale: String::from_str("en_US"),
        object_path: String::from_str("/lol/happens/CosmicOsd"),
    }
}

} // verus!
