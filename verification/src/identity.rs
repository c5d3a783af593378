//! Identities, and the account that answers for a request.
//!
//! The authority names the accounts and groups that may authenticate for a
//! request. The agent picks one account among them: its own if it is listed,
//! else the superuser, else the first one listed. Groups are passed over.

use crate::text::reads;
use vstd::prelude::*;
use vstd::string::*;

verus! {

/// The value of one detail, as far as the agent reads it.
#[derive(Clone, Debug)]
pub enum Variant {
    /// An unsigned 32-bit number, such as an account id.
    U32(u32),
    /// A text, such as a session id.
    Str(String),
    /// A value of any other type.
    Other,
}

impl Variant {
    /// The number that this value holds, if it is one.
    pub open spec fn as_u32(self) -> Option<u32> {
        match self {
            Variant::U32(n) => Some(n),
            _ => None,
        }
    }
}

/// One entry of a mapping from names to values.
#[derive(Clone, Debug)]
pub struct Detail {
    pub key: String,
    pub value: Variant,
}

/// The value of the first entry of `details` under `key`.
pub open spec fn detail(details: Seq<Detail>, key: Seq<char>) -> Option<Variant>
    decreases details.len(),
{
    if details.len() == 0 {
        None
    } else if details.first().key@ == key {
        Some(details.first().value)
    } else {
        detail(details.drop_first(), key)
    }
}

/// An account or a group that may authenticate for a request.
#[derive(Clone, Debug)]
pub struct Identity {
    pub identity_kind: String,
    pub identity_details: Vec<Detail>,
}

impl Identity {
    /// The account id that this identity offers: that of an identity of kind
    /// `unix-user` whose detail `uid` is an unsigned 32-bit number.
    pub open spec fn uid(self) -> Option<u32> {
        if self.identity_kind@ == "unix-user"@ {
            match detail(self.identity_details@, "uid"@) {
                Some(value) => value.as_u32(),
                None => None,
            }
        } else {
            None
        }
    }
}

/// The account ids that `identities` offer, in their order.
pub open spec fn candidate_uids(identities: Seq<Identity>) -> Seq<u32>
    decreases identities.len(),
{
    if identities.len() == 0 {
        Seq::empty()
    } else {
        let before = candidate_uids(identities.drop_last());
        match identities.last().uid() {
            Some(uid) => before.push(uid),
            None => before,
        }
    }
}

/// The account id chosen among `uids` by a process that runs as `own`: `own`
/// itself, else the superuser, else the first of them.
pub open spec fn chosen_uid(uids: Seq<u32>, own: u32) -> Option<u32> {
    if uids.contains(own) {
        Some(own)
    } else if uids.contains(0u32) {
        Some(0u32)
    } else if uids.len() > 0 {
        Some(uids.first())
    } else {
        None
    }
}

/// The number under `uid` in `details`, if the first entry of that name holds
/// one.
fn uid_detail(details: &Vec<Detail>) -> (r: Option<u32>)
    ensures
        r == match detail(details@, "uid"@) {
            Some(value) => value.as_u32(),
            None => None,
        },
{
    let mut i: usize = 0;
    proof {
        assert(details@.skip(0) =~= details@);
    }
    while i < details.len()
        invariant
            i <= details.len(),
            detail(details@, "uid"@) == detail(details@.skip(i as int), "uid"@),
        decreases details.len() - i,
    {
        proof {
            let rest = details@.skip(i as int);
            assert(rest.first() == details@[i as int]);
            assert(rest.drop_first() =~= details@.skip(i + 1));
        }
        if reads(&details[i].key, "uid") {
            return match details[i].value {
                Variant::U32(n) => Some(n),
                _ => None,
            };
        }
        i += 1;
    }
    None
}

impl Identity {
    /// The account id that this identity offers, if it offers one.
    pub fn account_id(&self) -> (r: Option<u32>)
        ensures
            r == self.uid(),
    {
        if reads(&self.identity_kind, "unix-user") {
            uid_detail(&self.identity_details)
        } else {
            None
        }
    }
}

/// Whether `uids` holds `uid`.
fn holds(uids: &Vec<u32>, uid: u32) -> (r: bool)
    ensures
        r == uids@.contains(uid),
{
    let mut i: usize = 0;
    while i < uids.len()
        invariant
            i <= uids.len(),
            forall|j: int| 0 <= j < i ==> uids@[j] != uid,
        decreases uids.len() - i,
    {
        if uids[i] == uid {
            return true;
        }
        i += 1;
    }
    false
}

/// Picks the account that answers for a request, for a process that runs as
/// `own_uid`: among the account ids that `identities` offer, `own_uid` if it
/// is there, else 0 if it is there, else the first; `None` where they offer
/// none.
pub fn select_uid(identities: &[Identity], own_uid: u32) -> (r: Option<u32>)
    ensures
        r == chosen_uid(candidate_uids(identities@), own_uid),
{
    let mut uids: Vec<u32> = Vec::new();
    let mut i: usize = 0;
    while i < identities.len()
        invariant
            i <= identities.len(),
            uids@ == candidate_uids(identities@.take(i as int)),
        decreases identities.len() - i,
    {
        proof {
            let next = identities@.take(i + 1);
            assert(next.drop_last() =~= identities@.take(i as int));
            assert(next.last() == identities@[i as int]);
        }
        match identities[i].account_id() {
            Some(uid) => {
                uids.push(uid);
            },
            None => {},
        }
        i += 1;
    }
    proof {
        assert(identities@.take(i as int) =~= identities@);
    }
    if holds(&uids, own_uid) {
        Some(own_uid)
    } else if holds(&uids, 0) {
        Some(0)
    } else if uids.len() > 0 {
        Some(uids[0])
    } else {
        None
    }
}

/// `uzers::User`: an entry of the system's account directory.
#[verifier::external_type_specification]
#[verifier::external_body]
pub struct ExUser(uzers::User);

/// `uzers::get_effective_uid`: the id of the account that this process acts
/// as. Nothing is claimed of it.
#[verifier::external_body]
fn effective_uid() -> (uid: u32) {
    uzers::get_effective_uid()
}

/// `uzers::get_user_by_uid`: the entry of `uid` in the system's account
/// directory, if it has one and the directory can be read. Nothing is claimed
/// of it.
#[verifier::external_body]
fn user_by_uid(uid: u32) -> (user: Option<uzers::User>) {
    uzers::get_user_by_uid(uid)
}

/// `uzers::User::name`: the name of `user`, where it is valid UTF-8. Nothing
/// is claimed of it.
#[verifier::external_body]
fn user_name(user: &uzers::User) -> (name: Option<String>) {
    match user.name().to_str() {
        Some(text) => Some(text.to_string()),
        None => None,
    }
}

/// The name of the account that answers for a request with `identities`:
/// that of the account id that `select_uid` picks for this process, as the
/// system's account directory has it. `None` where no account id is offered,
/// the directory does not know the one picked, or its name is not text.
pub fn select_username_from_identities(identities: &[Identity]) -> (r: Option<String>)
    ensures
        candidate_uids(identities@).len() == 0 ==> r is None,
{
    let own_uid = effective_uid();
    match select_uid(identities, own_uid) {
        Some(uid) => match user_by_uid(uid) {
            Some(user) => user_name(&user),
            None => None,
        },
        None => None,
    }
}

/// The account chosen is one of those offered, and one is chosen whenever one
/// is offered.
pub proof fn law_chosen_is_offered(uids: Seq<u32>, own: u32)
    ensures
        chosen_uid(uids, own) is None <==> uids.len() == 0,
        chosen_uid(uids, own) matches Some(uid) ==> uids.contains(uid),
{
    if uids.len() > 0 {
        assert(uids[0] == uids.first());
    }
}

/// An identity that offers no account id, such as a group, changes nothing
/// about what the others offer.
pub proof fn law_groups_are_passed_over(before: Seq<Identity>, identity: Identity, after: Seq<Identity>)
    requires
        identity.uid() is None,
    ensures
        candidate_uids(before + seq![identity] + after) == candidate_uids(before + after),
    decreases after.len(),
{
    if after.len() == 0 {
        assert(before + seq![identity] + after =~= before.push(identity));
        assert(before + after =~= before);
        assert(before.push(identity).drop_last() =~= before);
    } else {
        let with = before + seq![identity] + after;
        let without = before + after;
        assert(with.drop_last() =~= before + seq![identity] + after.drop_last());
        assert(without.drop_last() =~= before + after.drop_last());
        assert(with.last() == after.last());
        assert(without.last() == after.last());
        law_groups_are_passed_over(before, identity, after.drop_last());
    }
}

} // verus!
