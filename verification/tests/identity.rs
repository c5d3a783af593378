use pkagent::identity::{select_uid, select_username_from_identities, Detail, Identity, Variant};

fn identity(kind: &str, details: Vec<(&str, Variant)>) -> Identity {
    Identity {
        identity_kind: kind.to_string(),
        identity_details: details
            .into_iter()
            .map(|(key, value)| Detail { key: key.to_string(), value })
            .collect(),
    }
}

fn user(uid: u32) -> Identity {
    identity("unix-user", vec![("uid", Variant::U32(uid))])
}

fn name_of(uid: u32) -> Option<String> {
    let found = uzers::get_user_by_uid(uid)?;
    Some(found.name().to_str()?.to_string())
}

#[test]
fn own_account_is_preferred() {
    assert_eq!(select_uid(&[user(1000), user(0)], 1000), Some(1000));
    assert_eq!(select_uid(&[user(0), user(1000)], 1000), Some(1000));
    assert_eq!(select_uid(&[user(500), user(0), user(1000)], 1000), Some(1000));
}

#[test]
fn superuser_is_second_choice() {
    assert_eq!(select_uid(&[user(0)], 1000), Some(0));
    assert_eq!(select_uid(&[user(500), user(0)], 1000), Some(0));
}

#[test]
fn first_account_is_last_choice() {
    assert_eq!(select_uid(&[user(500)], 1000), Some(500));
    assert_eq!(select_uid(&[user(500), user(501)], 1000), Some(500));
    assert_eq!(select_uid(&[user(501), user(500)], 1000), Some(501));
}

#[test]
fn no_identity_gives_no_account() {
    assert_eq!(select_uid(&[], 1000), None);
    assert_eq!(select_uid(&[], 0), None);
}

#[test]
fn superuser_running_the_agent_selects_itself() {
    assert_eq!(select_uid(&[user(1000), user(0)], 0), Some(0));
}

#[test]
fn groups_are_passed_over() {
    let group = identity("unix-group", vec![("gid", Variant::U32(10)), ("uid", Variant::U32(0))]);
    assert_eq!(select_uid(&[group.clone()], 1000), None);
    assert_eq!(select_uid(&[group, user(500)], 1000), Some(500));
}

#[test]
fn an_account_id_must_be_a_number_under_uid() {
    let text = identity("unix-user", vec![("uid", Variant::Str("1000".to_string()))]);
    let other = identity("unix-user", vec![("uid", Variant::Other)]);
    let missing = identity("unix-user", vec![("gid", Variant::U32(1000))]);
    let bare = identity("unix-user", vec![]);
    assert_eq!(select_uid(&[text, other, missing, bare], 1000), None);
}

#[test]
fn the_uid_is_found_among_other_details() {
    let rich = identity(
        "unix-user",
        vec![("name", Variant::Str("ann".to_string())), ("uid", Variant::U32(1000))],
    );
    assert_eq!(rich.account_id(), Some(1000));
    assert_eq!(select_uid(&[user(0), rich], 1000), Some(1000));
}

#[test]
fn account_id_reads_one_identity() {
    assert_eq!(user(7).account_id(), Some(7));
    assert_eq!(user(u32::MAX).account_id(), Some(u32::MAX));
    assert_eq!(identity("unix-group", vec![("uid", Variant::U32(7))]).account_id(), None);
    assert_eq!(identity("Unix-User", vec![("uid", Variant::U32(7))]).account_id(), None);
    assert_eq!(identity("unix-user", vec![("UID", Variant::U32(7))]).account_id(), None);
}

#[test]
fn no_candidate_gives_no_username() {
    assert_eq!(select_username_from_identities(&[]), None);
    let group = identity("unix-group", vec![("gid", Variant::U32(0))]);
    assert_eq!(select_username_from_identities(&[group]), None);
}

#[test]
fn username_is_the_directory_name_of_the_selected_account() {
    let own = uzers::get_effective_uid();
    assert_eq!(select_username_from_identities(&[user(own)]), name_of(own));
    assert_eq!(select_username_from_identities(&[user(0)]), name_of(0));
    let other = if own == 4_000_000_000 { 4_000_000_001 } else { 4_000_000_000 };
    assert_eq!(select_username_from_identities(&[user(other), user(own)]), name_of(own));
}

#[test]
fn an_account_without_directory_entry_gives_no_username() {
    let mut uid: u32 = 4_100_000_000;
    while uzers::get_user_by_uid(uid).is_some() || uid == uzers::get_effective_uid() {
        uid += 1;
    }
    assert_eq!(select_username_from_identities(&[user(uid)]), None);
}
