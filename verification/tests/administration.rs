use onyx_server::error::{AppError, Lookup};
use onyx_server::handlers::donations::{
    get_donations, set_donations, DonationAddressInput, DonationEntry, SetDonationsRequest,
};
use onyx_server::handlers::group_settings::{
    get_settings, update_settings, GroupSettings, UpdateSettingsRequest,
};
use onyx_server::handlers::members::{
    ban_member, check_ban_status, kick_member, list_bans, list_members, set_role, set_role_named, unban_member,
    MemberEntry, RankFacts, SetRoleFacts, SetRoleRequest,
};
use onyx_server::handlers::moderation_handlers::{
    active_mute_expiry, list_mutes, mute_member, set_slow_mode, unmute_member, MuteEntry, MuteRequest,
    SlowModeRequest,
};
use onyx_server::handlers::polls::{
    create_poll, get_poll, list_polls, poll_created, poll_results, poll_voted, vote_poll, CreatePollRequest,
    OptionEntry, PollFacts, PollInfo, VotePollRequest,
};
use onyx_server::handlers::roles::{
    create_role, delete_role, is_valid_color, list_roles, role_created, role_not_stored, update_role,
    RoleEntry, RoleRequest,
};
use onyx_server::json::JsonValue;
use onyx_server::models::ban::{Ban, BanRequest};
use onyx_server::models::permission::{
    Permission, ALL_BITS, BAN_MEMBERS, CREATE_POLLS, KICK_MEMBERS, MANAGE_DONATIONS, MANAGE_ROLES,
    MANAGE_SETTINGS, MANAGE_SLOW_MODE, MUTE_MEMBERS, VIEW_BAN_LIST, VIEW_MUTE_LIST,
};
use onyx_server::outcome::{Notice, Outcome};
use onyx_server::store::Write;

fn render(v: &JsonValue) -> String {
    match v {
        JsonValue::Null => "null".to_string(),
        JsonValue::Bool(b) => format!("{}", b),
        JsonValue::Int(n) => format!("{}", n),
        JsonValue::OtherNumber => "number".to_string(),
        JsonValue::Text(s) => format!("{:?}", s),
        JsonValue::Array(items) => {
            let parts: Vec<String> = items.iter().map(render).collect();
            format!("[{}]", parts.join(","))
        }
        JsonValue::Object(fields) => {
            let parts: Vec<String> =
                fields.iter().map(|f| format!("{:?}:{}", f.key, render(&f.value))).collect();
            format!("{{{}}}", parts.join(","))
        }
    }
}

fn broadcast(out: &Outcome, i: usize) -> String {
    match &out.notices[i] {
        Notice::Broadcast(v) => render(v),
        Notice::ToUser(..) => panic!("not a broadcast"),
    }
}

fn told(out: &Outcome, i: usize) -> (String, String) {
    match &out.notices[i] {
        Notice::ToUser(u, v) => (u.clone(), render(v)),
        Notice::Broadcast(_) => panic!("not to one user"),
    }
}

fn ranks(actor_bits: i64, actor_role: i64, target_role: i64) -> RankFacts {
    RankFacts {
        actor_bits: Lookup::Found(actor_bits),
        actor_role: Lookup::Found(actor_role),
        memberships: Lookup::Found(1),
        target_role: Lookup::Found(target_role),
    }
}

#[test]
fn kicking_needs_the_permission_and_the_rank() {
    let out = kick_member("ann", "bob", &ranks(KICK_MEMBERS, 2, 3)).unwrap();
    assert!(matches!(&out.writes[0], Write::DeleteMember { username } if username == "bob"));
    assert_eq!(broadcast(&out, 0), "{\"type\":\"group_member_left\",\"group_id\":1,\"username\":\"bob\"}");
    assert_eq!(told(&out, 1), ("bob".to_string(), "{\"type\":\"kicked\",\"group_id\":1}".to_string()));
    assert!(matches!(kick_member("ann", "bob", &ranks(BAN_MEMBERS, 1, 3)),
        Err(AppError::Forbidden(m)) if m == "Insufficient permissions"));
    assert!(matches!(kick_member("ann", "bob", &ranks(KICK_MEMBERS, 2, 1)),
        Err(AppError::Forbidden(m)) if m == "Cannot kick an owner"));
    assert!(kick_member("ann", "bob", &ranks(KICK_MEMBERS, 1, 1)).is_ok());
    assert!(matches!(kick_member("bob", "bob", &ranks(KICK_MEMBERS, 1, 1)),
        Err(AppError::Forbidden(m)) if m == "Cannot kick an owner"));
    assert!(kick_member("bob", "bob", &ranks(KICK_MEMBERS, 2, 2)).is_ok());
    let mut stranger = ranks(KICK_MEMBERS, 2, 3);
    stranger.memberships = Lookup::Found(0);
    assert!(matches!(kick_member("ann", "bob", &stranger),
        Err(AppError::NotFound(m)) if m == "Not a member of this group"));
    stranger.memberships = Lookup::Missing;
    assert!(matches!(kick_member("ann", "bob", &stranger), Err(AppError::Internal(_))));
}

#[test]
fn banning_and_lifting_the_ban() {
    let req = BanRequest { reason: Some("spam".to_string()) };
    let out = ban_member("ann", "bob", &req, &ranks(VIEW_BAN_LIST, 2, 3)).unwrap();
    assert!(matches!(&out.writes[0], Write::DeleteMember { username } if username == "bob"));
    assert!(matches!(&out.writes[1], Write::ReplaceBan { username, banned_by, reason: Some(r) }
        if username == "bob" && banned_by == "ann" && r == "spam"));
    assert_eq!(told(&out, 1).1, "{\"type\":\"banned\",\"group_id\":1,\"reason\":\"spam\"}");
    assert!(matches!(ban_member("ann", "bob", &req, &ranks(BAN_MEMBERS, 2, 1)),
        Err(AppError::Forbidden(m)) if m == "Cannot ban an owner"));
    assert!(ban_member("ann", "bob", &req, &ranks(MUTE_MEMBERS, 1, 3)).is_err());
    let session = Lookup::Found(("Bob".to_string(), "key".to_string()));
    let out = unban_member("bob", &Lookup::Found(BAN_MEMBERS), &session).unwrap();
    assert!(matches!(&out.writes[0], Write::DeleteBan { username } if username == "bob"));
    assert!(matches!(&out.writes[1], Write::RestoreMember { display_name, .. } if display_name == "Bob"));
    assert_eq!(told(&out, 0).1, "{\"type\":\"unbanned\",\"group_id\":1}");
    assert_eq!(unban_member("bob", &Lookup::Found(BAN_MEMBERS), &Lookup::Missing).unwrap().writes.len(), 1);
    assert!(unban_member("bob", &Lookup::Missing, &session).is_err());
}

#[test]
fn bans_are_shown() {
    let ban = || Ban {
        id: 1,
        username: "bob".to_string(),
        banned_by: "ann".to_string(),
        reason: None,
        banned_at: "then".to_string(),
    };
    assert_eq!(
        render(&check_ban_status(&Lookup::Found(ban())).unwrap().reply),
        "{\"banned\":true,\"banned_by\":\"ann\",\"reason\":null,\"banned_at\":\"then\"}"
    );
    assert_eq!(render(&check_ban_status(&Lookup::Missing).unwrap().reply), "{\"banned\":false}");
    assert!(check_ban_status(&Lookup::Failed("x".to_string())).is_err());
    let list = list_bans(&Lookup::Found(VIEW_BAN_LIST), &Ok(vec![ban()])).unwrap();
    assert_eq!(
        render(&list.reply),
        "[{\"username\":\"bob\",\"banned_by\":\"ann\",\"reason\":null,\"banned_at\":\"then\"}]"
    );
    assert!(list_bans(&Lookup::Found(BAN_MEMBERS), &Ok(vec![ban()])).is_err());
}

#[test]
fn members_are_listed_with_their_mutes() {
    let entry = |until: Option<i64>| MemberEntry {
        username: "bob".to_string(),
        display_name: "Bob".to_string(),
        role: "member".to_string(),
        joined_at: "then".to_string(),
        role_id: Some(3),
        role_name: Some("Member".to_string()),
        role_color: None,
        muted_until: until,
    };
    let rows = Ok(vec![entry(Some(11)), entry(Some(10)), entry(None)]);
    let json = render(&list_members(&Lookup::Found(1), &rows, 10).unwrap().reply);
    let one = |muted: bool| format!("{{\"username\":\"bob\",\"display_name\":\"Bob\",\"role\":\"member\",\
        \"joined_at\":\"then\",\"role_id\":3,\"role_name\":\"Member\",\"role_color\":null,\"is_muted\":{}}}", muted);
    assert_eq!(json, format!("[{},{},{}]", one(true), one(false), one(false)));
    assert!(matches!(list_members(&Lookup::Found(0), &rows, 10),
        Err(AppError::NotFound(m)) if m == "Not a member of this group"));
}

fn role_facts(actor_role: i64, target_role: i64, owners: i64) -> SetRoleFacts {
    SetRoleFacts {
        ranks: ranks(MANAGE_ROLES, actor_role, target_role),
        role: Lookup::Found(("Moderator".to_string(), "#3498db".to_string(), KICK_MEMBERS)),
        owners: Lookup::Found(owners),
    }
}

#[test]
fn roles_are_given() {
    let req = SetRoleRequest { role_id: 2 };
    let out = set_role("bob", &req, &role_facts(1, 3, 1)).unwrap();
    assert!(matches!(&out.writes[0], Write::SetMemberRole { role_id: 2, role, username }
        if role == "moderator" && username == "bob"));
    assert_eq!(
        told(&out, 0).1,
        "{\"type\":\"role_changed\",\"group_id\":1,\"role_id\":2,\"role_name\":\"Moderator\",\
         \"role_color\":\"#3498db\",\"permissions\":[\"kick_members\"]}"
    );
    assert_eq!(
        broadcast(&out, 1),
        "{\"type\":\"member_role_updated\",\"username\":\"bob\",\"role_name\":\"Moderator\",\"role_color\":\"#3498db\"}"
    );
    assert_eq!(
        render(&out.reply),
        "{\"ok\":true,\"role_id\":2,\"role_name\":\"Moderator\",\"role_color\":\"#3498db\"}"
    );
    assert!(matches!(out.settled(0), Err(AppError::NotFound(_))));
    let named = set_role_named("bob", &req, &role_facts(1, 3, 1), "lower").unwrap();
    assert!(matches!(&named.writes[0], Write::SetMemberRole { role, .. } if role == "lower"));
}

#[test]
fn there_stays_an_owner() {
    let down = SetRoleRequest { role_id: 3 };
    assert!(matches!(set_role("ann", &down, &role_facts(1, 1, 1)),
        Err(AppError::BadRequest(m)) if m == "Cannot demote the last owner"));
    assert!(set_role("ann", &down, &role_facts(1, 1, 2)).is_ok());
    let up = SetRoleRequest { role_id: 1 };
    assert!(matches!(set_role("bob", &up, &role_facts(2, 3, 1)),
        Err(AppError::Forbidden(m)) if m == "Only owners can promote a member to Owner"));
    assert!(set_role("bob", &up, &role_facts(1, 3, 1)).is_ok());
    let mut unknown = role_facts(1, 3, 1);
    unknown.role = Lookup::Missing;
    assert!(matches!(set_role("bob", &down, &unknown),
        Err(AppError::BadRequest(m)) if m == "Unknown role_id"));
    let mut stranger = role_facts(1, 3, 1);
    stranger.ranks.memberships = Lookup::Found(0);
    assert!(matches!(set_role("bob", &down, &stranger),
        Err(AppError::NotFound(m)) if m == "User is not a member of this group"));
    stranger.ranks.actor_bits = Lookup::Found(0);
    assert!(matches!(set_role("bob", &down, &stranger), Err(AppError::Forbidden(_))));
}

fn role_request(name: &str, color: &str, names: Vec<String>) -> RoleRequest {
    RoleRequest { name: name.to_string(), color: color.to_string(), permissions: names }
}

#[test]
fn colors_are_hexadecimal() {
    assert!(is_valid_color("#99AAb5"));
    assert!(!is_valid_color("99AAB5"));
    assert!(!is_valid_color("#99AAB"));
    assert!(!is_valid_color("#99AAG5"));
    assert!(!is_valid_color("#99é15"));
}

#[test]
fn roles_are_made() {
    let bits = Lookup::Found(MANAGE_ROLES);
    let req = role_request(" Helper ", "#112233", vec!["kick_members".to_string()]);
    let draft = create_role(&bits, &req, &Lookup::Found(4)).unwrap();
    assert!(matches!(draft.write(), Write::InsertRole { name, permissions: KICK_MEMBERS, sort_order: 4, .. }
        if name == "Helper"));
    assert_eq!(
        render(&role_created(&draft, 9).reply),
        "{\"id\":9,\"name\":\"Helper\",\"color\":\"#112233\",\"permissions\":[\"kick_members\"],\
         \"is_system\":false,\"member_count\":0}"
    );
    assert_eq!(create_role(&bits, &req, &Lookup::Missing).unwrap().sort_order, 0);
    assert!(matches!(role_not_stored(true, "e"),
        AppError::Conflict(m) if m == "A role with that name already exists"));
    assert!(matches!(role_not_stored(false, "e"), AppError::Internal(m) if m == "e"));
    let refused = |r: RoleRequest| create_role(&bits, &r, &Lookup::Found(0)).err().unwrap();
    assert!(matches!(refused(role_request(" ", "#112233", vec![])),
        AppError::BadRequest(m) if m == "name must be 1-40 characters"));
    assert!(matches!(refused(role_request(&"n".repeat(41), "#112233", vec![])), AppError::BadRequest(_)));
    assert!(matches!(refused(role_request("n", "red", vec![])),
        AppError::BadRequest(m) if m == "color must be a hex string like #99AAB5"));
    assert!(matches!(refused(role_request("n", "#112233", vec!["fly".to_string()])), AppError::BadRequest(_)));
    assert!(matches!(create_role(&Lookup::Found(0), &req, &Lookup::Found(0)),
        Err(AppError::Forbidden(m)) if m == "Insufficient permissions"));
}

#[test]
fn roles_are_changed() {
    let bits = Lookup::Found(MANAGE_ROLES);
    let members = Ok(vec!["bob".to_string()]);
    let req = role_request("Helper", "#112233", vec!["kick_members".to_string()]);
    let out = update_role(&bits, 7, &req, &members).unwrap();
    assert!(matches!(&out.writes[0], Write::UpdateRole { role_id: 7, permissions: KICK_MEMBERS, .. }));
    assert_eq!(out.notices.len(), 3);
    assert!(broadcast(&out, 0).starts_with("{\"type\":\"role_updated\",\"id\":7"));
    assert!(broadcast(&out, 1).contains("member_role_updated"));
    assert_eq!(told(&out, 2).0, "bob");
    assert!(matches!(out.settled(0), Err(AppError::NotFound(m)) if m == "Role not found"));
    assert!(matches!(update_role(&bits, 1, &req, &members),
        Err(AppError::BadRequest(m)) if m == "Cannot reduce the Owner role's permissions"));
    let all = role_request("Boss", "#112233", Permission::all().to_names());
    assert!(update_role(&bits, 1, &all, &members).is_ok());
}

#[test]
fn system_roles_stay() {
    let bits = Lookup::Found(MANAGE_ROLES);
    let members = Ok(vec!["bob".to_string()]);
    let out = delete_role(&bits, 7, &Lookup::Found(false), &members).unwrap();
    assert!(out.atomic);
    assert!(matches!(&out.writes[0], Write::ReleaseRole { role_id: 7 }));
    assert!(matches!(&out.writes[1], Write::DeleteRole { role_id: 7 }));
    assert_eq!(broadcast(&out, 0), "{\"type\":\"role_deleted\",\"role_id\":7}");
    assert_eq!(
        told(&out, 1).1,
        "{\"type\":\"role_changed\",\"group_id\":1,\"role_id\":3,\"role_name\":\"Member\",\
         \"role_color\":\"#99AAB5\",\"permissions\":[]}"
    );
    assert!(matches!(delete_role(&bits, 1, &Lookup::Found(true), &members),
        Err(AppError::Forbidden(m)) if m == "Cannot delete a system role"));
    assert!(matches!(delete_role(&bits, 9, &Lookup::Missing, &members),
        Err(AppError::NotFound(m)) if m == "Role not found"));
    let row = RoleEntry {
        id: 1,
        name: "Owner".to_string(),
        color: "#e67e22".to_string(),
        permissions: -1,
        is_system: 1,
        member_count: 2,
    };
    let list = render(&list_roles(&Lookup::Found(1), &Ok(vec![row])).unwrap().reply);
    assert!(list.contains("\"is_system\":true,\"member_count\":2"));
    assert!(list.contains("\"view_invite_link\""));
}

#[test]
fn mutes_last_their_time() {
    let req = |minutes: i64| MuteRequest { reason: None, duration_minutes: minutes };
    let bits = Lookup::Found(VIEW_MUTE_LIST);
    let plain = Lookup::Found(3);
    let out = mute_member("ann", "bob", &req(2), 1_000, &bits, &plain, &plain).unwrap();
    assert!(matches!(&out.writes[0], Write::ReplaceMute { expires_at: 121_000, muted_by, .. } if muted_by == "ann"));
    assert_eq!(render(&out.reply), "{\"ok\":true,\"expires_at\":121000}");
    assert_eq!(
        broadcast(&out, 0),
        "{\"type\":\"member_muted\",\"group_id\":1,\"username\":\"bob\",\"muted_by\":\"ann\",\
         \"expires_at\":121000,\"reason\":null}"
    );
    assert_eq!(active_mute_expiry(&Lookup::Found(121_000), 120_999), (Some(121_000), false));
    assert_eq!(active_mute_expiry(&Lookup::Found(121_000), 121_000), (None, true));
    assert_eq!(active_mute_expiry(&Lookup::Missing, 0), (None, false));
    assert!(matches!(mute_member("ann", "bob", &req(0), 0, &bits, &plain, &plain),
        Err(AppError::BadRequest(m)) if m == "duration_minutes must be positive"));
    assert!(matches!(mute_member("ann", "bob", &req(525_601), 0, &bits, &plain, &plain),
        Err(AppError::BadRequest(m)) if m == "duration_minutes too large (max 1 year)"));
    assert!(matches!(mute_member("ann", "bob", &req(1), 0, &bits, &Lookup::Found(1), &plain),
        Err(AppError::Forbidden(m)) if m == "Cannot mute an owner"));
    assert!(mute_member("ann", "bob", &req(1), 0, &Lookup::Found(KICK_MEMBERS), &plain, &plain).is_err());
    let out = unmute_member("ann", "bob", &Lookup::Found(MUTE_MEMBERS)).unwrap();
    assert!(matches!(&out.writes[0], Write::DeleteMute { username } if username == "bob"));
    let entry = MuteEntry {
        username: "bob".to_string(),
        muted_by: "ann".to_string(),
        reason: Some("r".to_string()),
        muted_at: "then".to_string(),
        expires_at: 5,
    };
    assert_eq!(
        render(&list_mutes(&bits, &Ok(vec![entry])).unwrap().reply),
        "[{\"username\":\"bob\",\"muted_by\":\"ann\",\"reason\":\"r\",\"muted_at\":\"then\",\"expires_at\":5}]"
    );
    assert!(list_mutes(&Lookup::Found(MUTE_MEMBERS), &Ok(vec![])).is_err());
}

#[test]
fn slow_mode_is_set_within_bounds() {
    let bits = Lookup::Found(MANAGE_SLOW_MODE);
    let out = set_slow_mode("ann", 1, &SlowModeRequest { seconds: 21_600 }, &bits).unwrap();
    assert!(matches!(&out.writes[0], Write::SetSlowMode { seconds: 21_600 }));
    assert_eq!(
        broadcast(&out, 0),
        "{\"type\":\"slow_mode_updated\",\"group_id\":1,\"seconds\":21600,\"updated_by\":\"ann\"}"
    );
    assert!(matches!(set_slow_mode("ann", 1, &SlowModeRequest { seconds: 21_601 }, &bits),
        Err(AppError::BadRequest(m)) if m == "seconds must be between 0 and 21600"));
    assert!(set_slow_mode("ann", 1, &SlowModeRequest { seconds: -1 }, &bits).is_err());
    assert!(matches!(set_slow_mode("ann", 2, &SlowModeRequest { seconds: 0 }, &bits),
        Err(AppError::NotFound(m)) if m == "Group not found"));
    assert!(set_slow_mode("ann", 1, &SlowModeRequest { seconds: 0 }, &Lookup::Missing).is_err());
}

fn poll_request(question: &str, options: Vec<&str>) -> CreatePollRequest {
    CreatePollRequest {
        question: question.to_string(),
        options: options.iter().map(|o| o.to_string()).collect(),
        multi_choice: false,
        closes_at: Some(100),
    }
}

#[test]
fn polls_are_made() {
    let member = Lookup::Found(1);
    let req = poll_request(" Tea? ", vec![" yes ", "", "no", "  "]);
    let draft = create_poll("ann", &req, &member, &Lookup::Found(false), &Lookup::Missing).unwrap();
    assert!(matches!(draft.write(), Write::InsertPoll { question, multi_choice: false, closes_at: Some(100), .. }
        if question == "Tea?"));
    let writes = draft.option_writes(5);
    assert_eq!(writes.len(), 2);
    assert!(matches!(&writes[1], Write::InsertPollOption { poll_id: 5, text, sort_order: 1 } if text == "no"));
    let refused = |r: CreatePollRequest| {
        create_poll("ann", &r, &member, &Lookup::Found(false), &Lookup::Missing).err().unwrap()
    };
    assert!(matches!(refused(poll_request("", vec!["a", "b"])),
        AppError::BadRequest(m) if m == "question must be 1-300 characters"));
    assert!(matches!(refused(poll_request("q", vec!["a", " "])),
        AppError::BadRequest(m) if m == "poll needs between 2 and 10 options"));
    assert!(matches!(refused(poll_request("q", vec!["a"; 11])), AppError::BadRequest(_)));
    assert!(matches!(refused(poll_request("q", vec!["a", &"x".repeat(101)])),
        AppError::BadRequest(m) if m == "option text too long (max 100 characters)"));
    let req = poll_request("q", vec!["a", "b"]);
    assert!(matches!(create_poll("ann", &req, &member, &Lookup::Found(true), &Lookup::Found(KICK_MEMBERS)),
        Err(AppError::Forbidden(m)) if m == "Only channel admins can create polls here"));
    assert!(create_poll("ann", &req, &member, &Lookup::Found(true), &Lookup::Found(CREATE_POLLS)).is_ok());
    assert!(matches!(create_poll("ann", &req, &Lookup::Found(0), &Lookup::Missing, &Lookup::Missing),
        Err(AppError::NotFound(m)) if m == "Not a member of this group"));
}

fn poll_facts() -> PollFacts {
    PollFacts {
        poll_id: 5,
        poll: Lookup::Found(PollInfo {
            question: "Tea?".to_string(),
            multi_choice: false,
            closes_at: None,
            created_by: "ann".to_string(),
        }),
        options: Ok(vec![
            OptionEntry { id: 1, text: "yes".to_string(), votes: 2 },
            OptionEntry { id: 2, text: "no".to_string(), votes: 3 },
        ]),
        mine: Ok(vec![2]),
    }
}

const COUNTS: &str = "[{\"id\":1,\"text\":\"yes\",\"votes\":2},{\"id\":2,\"text\":\"no\",\"votes\":3}]";

const OPTIONS: &str = "[{\"id\":1,\"text\":\"yes\",\"votes\":2,\"selected_by_me\":false},\
    {\"id\":2,\"text\":\"no\",\"votes\":3,\"selected_by_me\":true}]";

#[test]
fn results_are_counted() {
    let json = format!("{{\"id\":5,\"question\":\"Tea?\",\"multi_choice\":false,\"closes_at\":null,\
        \"created_by\":\"ann\",\"total_votes\":5,\"options\":{}}}", OPTIONS);
    assert_eq!(render(&poll_results(&poll_facts()).ok().unwrap()), json);
    let member = Lookup::Found(1);
    assert_eq!(render(&get_poll(&member, &poll_facts()).unwrap().reply), json);
    let mut gone = poll_facts();
    gone.poll = Lookup::Missing;
    assert!(matches!(get_poll(&member, &gone), Err(AppError::NotFound(m)) if m == "Poll not found"));
    let list = list_polls(&member, &Ok(vec![poll_facts(), gone])).unwrap();
    assert_eq!(render(&list.reply), format!("[{}]", json));
    let created = poll_created(&poll_facts()).unwrap();
    assert_eq!(render(&created.reply), "{\"ok\":true,\"poll_id\":5}");
    assert_eq!(
        broadcast(&created, 0),
        format!("{{\"type\":\"poll_created\",\"group_id\":1,\"poll\":{}}}", json)
    );
    let voted = poll_voted(&poll_facts()).unwrap();
    assert_eq!(
        broadcast(&voted, 0),
        format!("{{\"type\":\"poll_vote_update\",\"group_id\":1,\"poll_id\":5,\"options\":{},\"total_votes\":5}}", COUNTS)
    );
}

#[test]
fn votes_are_told_without_names() {
    let mut other = poll_facts();
    other.mine = Ok(vec![1]);
    let mine = poll_voted(&poll_facts()).unwrap();
    let theirs = poll_voted(&other).unwrap();
    assert_eq!(broadcast(&mine, 0), broadcast(&theirs, 0));
    assert!(render(&mine.reply) != render(&theirs.reply));
}

#[test]
fn votes_replace_or_add() {
    let member = Lookup::Found(1);
    let vote = VotePollRequest { option_id: 2 };
    let single = Lookup::Found((false, Some(100)));
    let writes = vote_poll("ann", 5, &vote, &member, &single, &Lookup::Found(1), 99).unwrap();
    assert!(matches!(&writes[0], Write::ClearVotes { poll_id: 5, username } if username == "ann"));
    assert!(matches!(&writes[1], Write::AddVote { poll_id: 5, option_id: 2, .. }));
    let multi = Lookup::Found((true, None));
    assert_eq!(vote_poll("ann", 5, &vote, &member, &multi, &Lookup::Found(1), 99).unwrap().len(), 1);
    assert!(matches!(vote_poll("ann", 5, &vote, &member, &single, &Lookup::Found(1), 100),
        Err(AppError::Forbidden(m)) if m == "This poll is closed"));
    assert!(matches!(vote_poll("ann", 5, &vote, &member, &multi, &Lookup::Found(0), 1),
        Err(AppError::BadRequest(m)) if m == "Invalid option for this poll"));
    assert!(matches!(vote_poll("ann", 5, &vote, &member, &Lookup::Missing, &Lookup::Found(1), 1),
        Err(AppError::NotFound(_))));
}

#[test]
fn donation_addresses_are_replaced() {
    let input = |label: &str, address: &str| DonationAddressInput {
        label: label.to_string(),
        address: address.to_string(),
    };
    let bits = Lookup::Found(MANAGE_DONATIONS);
    let req = SetDonationsRequest { addresses: vec![input(" BTC ", " abc "), input("ETH", "def")] };
    let out = set_donations(&bits, &req).unwrap();
    assert!(out.atomic);
    assert_eq!(out.writes.len(), 3);
    assert!(matches!(&out.writes[0], Write::ClearDonations));
    assert!(matches!(&out.writes[1], Write::InsertDonation { label, address, sort_order: 0 }
        if label == "BTC" && address == "abc"));
    assert!(matches!(&out.writes[2], Write::InsertDonation { sort_order: 1, .. }));
    assert_eq!(render(&out.reply), "{\"ok\":true,\"count\":2}");
    assert!(set_donations(&Lookup::Found(0), &req).is_err());
    let many = SetDonationsRequest { addresses: (0..21).map(|_| input("a", "b")).collect() };
    assert!(matches!(set_donations(&bits, &many),
        Err(AppError::BadRequest(m)) if m == "Too many addresses (max 20)"));
    let bad = |l: &str, a: &str| set_donations(&bits, &SetDonationsRequest { addresses: vec![input(l, a)] }).err().unwrap();
    assert!(matches!(bad("", "b"), AppError::BadRequest(m) if m == "label must be 1-40 characters"));
    assert!(matches!(bad("a", &"b".repeat(201)), AppError::BadRequest(m) if m == "address must be 1-200 characters"));
    let rows = Ok(vec![DonationEntry { id: 1, label: "BTC".to_string(), address: "abc".to_string() }]);
    assert_eq!(
        render(&get_donations(&rows).unwrap().reply),
        "[{\"id\":1,\"label\":\"BTC\",\"address\":\"abc\"}]"
    );
}

fn settings() -> GroupSettings {
    GroupSettings {
        description: "d".to_string(),
        motd: "m".to_string(),
        max_members: 10,
        max_message_length: 20,
        max_messages_per_minute: 30,
        default_role_id: 3,
    }
}

#[test]
fn settings_change_in_part_only() {
    let bits = Lookup::Found(MANAGE_SETTINGS);
    let mut body = UpdateSettingsRequest::default();
    body.motd = Some("hello".to_string());
    body.max_members = Some(11);
    let out = update_settings(1, &bits, &body, &Lookup::Missing, &Lookup::Found(settings())).unwrap();
    let json = "{\"description\":\"d\",\"motd\":\"hello\",\"max_members\":11,\"max_message_length\":20,\
        \"max_messages_per_minute\":30,\"default_role_id\":3}";
    assert_eq!(render(&out.reply), json);
    assert!(matches!(&out.writes[0], Write::UpdateSettings { max_members: 11, motd, .. } if motd == "hello"));
    assert_eq!(
        broadcast(&out, 0),
        format!("{{\"type\":\"group_settings_updated\",\"group_id\":1,\"settings\":{}}}", json)
    );
    assert!(get_settings(1, &Lookup::Found(1), &Lookup::Found(settings())).is_ok());
    assert!(matches!(get_settings(2, &Lookup::Found(1), &Lookup::Found(settings())), Err(AppError::NotFound(_))));
    assert!(matches!(get_settings(1, &Lookup::Found(0), &Lookup::Found(settings())), Err(AppError::Forbidden(_))));
    assert!(matches!(get_settings(1, &Lookup::Found(1), &Lookup::Missing), Err(AppError::NotFound(_))));
}

#[test]
fn settings_are_kept_within_bounds() {
    let bits = Lookup::Found(MANAGE_SETTINGS);
    let refused = |change: &dyn Fn(&mut UpdateSettingsRequest)| {
        let mut body = UpdateSettingsRequest::default();
        change(&mut body);
        update_settings(1, &bits, &body, &Lookup::Found(0), &Lookup::Found(settings())).err().unwrap()
    };
    assert!(matches!(refused(&|b| b.max_message_length = Some(0)),
        AppError::BadRequest(m) if m == "max_message_length must be between 1 and 100000"));
    assert!(matches!(refused(&|b| b.max_members = Some(100_001)),
        AppError::BadRequest(m) if m == "max_members must be between 1 and 100000"));
    assert!(matches!(refused(&|b| b.max_messages_per_minute = Some(-1)),
        AppError::BadRequest(m) if m == "max_messages_per_minute must be between 0 and 10000"));
    assert!(matches!(refused(&|b| b.default_role_id = Some(9)),
        AppError::BadRequest(m) if m == "default_role_id does not reference an existing role"));
    let body = UpdateSettingsRequest::default();
    assert!(update_settings(1, &Lookup::Found(ALL_BITS & !MANAGE_SETTINGS), &body, &Lookup::Missing,
        &Lookup::Found(settings())).is_err());
    assert!(update_settings(2, &bits, &body, &Lookup::Missing, &Lookup::Found(settings())).is_err());
}
