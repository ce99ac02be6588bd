use base64::Engine;
use ed25519_dalek::Signer;
use onyx_server::auth::{
    auth_middleware, bearer_token, generate_group_keypair, generate_nonce, generate_token, hash_token,
    hex_encode, new_nonce_store, resolve_token, verify_decoded, verify_signature, AuthUser, NONCE_MAX_ENTRIES,
};
use onyx_server::clock::{kept_millis, now_ms, timestamp_of, utc_timestamp, whole_seconds, Stopwatch, SECOND};
use onyx_server::error::{any_counted, AppError, Lookup};
use onyx_server::json::{JsonValue, Fields};
use onyx_server::models::member::Role;
use onyx_server::models::permission::{
    Permission, ALL_BITS, BAN_MEMBERS, KICK_MEMBERS, MANAGE_ROLES, VIEW_INVITE_LINK,
};
use onyx_server::moderation::{check_moderator, check_owner};
use onyx_server::permissions::{
    count_owner_equivalent_members, has_any_permission, has_permission, is_owner_equivalent,
    require_permission,
};
use onyx_server::rate_limit::{RateLimiter, SlowModeTracker};
use onyx_server::text;

fn perm(bits: i64) -> Permission {
    Permission { bits }
}

#[test]
fn trimming_removes_unicode_white_space() {
    assert_eq!(text::trim("\u{3000} \t a b\n\u{a0}"), "a b");
    assert_eq!(text::trim(" \n "), "");
    assert_eq!(text::byte_len("é"), 2);
}

#[test]
fn splitting_and_joining() {
    assert_eq!(text::split("a.b..c", '.'), vec!["a", "b", "", "c"]);
    assert_eq!(text::split("", '.'), vec![""]);
    assert_eq!(text::glue3("a", "-", "b"), "a-b");
    assert!(text::contains("abcde", "cd"));
    assert!(!text::contains("abcde", "ce"));
    assert!(text::starts_with("abc", "ab") && text::ends_with("abc", "bc"));
    assert_eq!(text::strip_prefix("Bearer x", "Bearer "), Some("x".to_string()));
    assert_eq!(text::strip_prefix("bearer x", "Bearer "), None);
    assert_eq!(text::trim_end_matches("a.pid.pid", ".pid"), "a");
}

#[test]
fn numbers_are_shown_and_parsed() {
    assert_eq!(text::show_u64(u64::MAX), "18446744073709551615");
    assert_eq!(text::show_i64(i64::MIN), "-9223372036854775808");
    assert_eq!(text::show_i64(0), "0");
    assert_eq!(text::parse_u32("4294967295"), Some(u32::MAX));
    assert_eq!(text::parse_u32("4294967296"), None);
    assert_eq!(text::parse_u32("+7"), Some(7));
    assert_eq!(text::parse_u32(""), None);
    assert_eq!(text::parse_u32("1x"), None);
}

#[test]
fn hexadecimal_has_two_digits_a_byte() {
    assert_eq!(hex_encode(&[0x00, 0x0f, 0xa5, 0xff]), "000fa5ff");
    assert_eq!(hex_encode(&[]), "");
    assert_ne!(hex_encode(&[1, 16]), hex_encode(&[16, 1]));
}

#[test]
fn tokens_are_hashed_with_sha256() {
    assert_eq!(
        hash_token("abc"),
        "ba7816bf8f01cfea414140de5dae2223b00361a396177a9cb410ff61f20015ad"
    );
    assert_eq!(
        hash_token(""),
        "e3b0c44298fc1c149afbf4c8996fb92427ae41e4649b934ca495991b7852b855"
    );
}

#[test]
fn tokens_and_nonces_are_new_each_time() {
    let a = generate_token();
    assert_eq!(a.len(), 64);
    assert!(a.chars().all(|c| c.is_ascii_hexdigit() && !c.is_ascii_uppercase()));
    assert_ne!(a, generate_token());
    assert_eq!(generate_nonce().len(), 32);
    assert_ne!(generate_nonce(), generate_nonce());
}

#[test]
fn a_key_pair_signs_what_it_verifies() {
    let (public, secret) = generate_group_keypair();
    let bytes: [u8; 32] = secret.clone().try_into().unwrap();
    let key = ed25519_dalek::SigningKey::from_bytes(&bytes);
    let nonce = [7u8; 32];
    let signature = key.sign(&nonce).to_bytes();
    let signature_b64 = base64::engine::general_purpose::STANDARD.encode(signature);
    assert!(verify_signature(&public, &nonce, &signature_b64));
    assert!(!verify_signature(&public, &[8u8; 32], &signature_b64));
    assert!(!verify_signature("no base64!", &nonce, &signature_b64));
    assert!(!verify_signature(&public, &nonce, "????"));
    let public_bytes = base64::engine::general_purpose::STANDARD.decode(&public).unwrap();
    assert_eq!(public_bytes, key.verifying_key().to_bytes().to_vec());
    assert!(verify_decoded(&Some(public_bytes.clone()), &nonce, &Some(signature.to_vec())));
    assert!(!verify_decoded(&Some(public_bytes[..31].to_vec()), &nonce, &Some(signature.to_vec())));
    assert!(!verify_decoded(&Some(public_bytes.clone()), &nonce, &Some(signature[..63].to_vec())));
    assert!(!verify_decoded(&None, &nonce, &Some(signature.to_vec())));
    let mut other = signature.to_vec();
    other[0] ^= 1;
    assert!(!verify_decoded(&Some(public_bytes), &nonce, &Some(other)));
}

#[test]
fn device_tokens_come_before_sessions() {
    let dev = Lookup::Found("dev".to_string());
    let ses = Lookup::Found("ses".to_string());
    assert_eq!(resolve_token(&dev, &ses), Some("dev".to_string()));
    assert_eq!(resolve_token(&Lookup::Missing, &ses), Some("ses".to_string()));
    assert_eq!(resolve_token(&Lookup::Failed("x".to_string()), &ses), Some("ses".to_string()));
    assert_eq!(resolve_token(&Lookup::Missing, &Lookup::Missing), None);
}

#[test]
fn only_bearer_tokens_are_accepted() {
    assert_eq!(bearer_token(&Some("Bearer t0k".to_string())), Some("t0k".to_string()));
    assert_eq!(bearer_token(&Some("Basic t0k".to_string())), None);
    assert_eq!(bearer_token(&None), None);
    let found = Lookup::Found("ann".to_string());
    let ok = auth_middleware(&Some("Bearer t".to_string()), &found, &Lookup::Missing);
    assert!(matches!(ok, Ok(AuthUser(u)) if u == "ann"));
    assert!(matches!(auth_middleware(&None, &found, &Lookup::Missing), Err(401)));
    let unknown = auth_middleware(&Some("Bearer t".to_string()), &Lookup::Missing, &Lookup::Missing);
    assert!(matches!(unknown, Err(401)));
}

#[test]
fn a_nonce_is_taken_once_and_expires() {
    let mut store = new_nonce_store();
    assert!(store.issue("ann", vec![1, 2], 5 * SECOND).is_ok());
    assert!(store.issue("bob", vec![3], 6 * SECOND).is_ok());
    assert_eq!(store.take("ann", 64 * SECOND).unwrap(), vec![1, 2]);
    assert!(matches!(store.take("ann", 64 * SECOND),
        Err(AppError::BadRequest(m)) if m == "No pending challenge for this user"));
    assert!(matches!(store.take("bob", 66 * SECOND),
        Err(AppError::BadRequest(m)) if m == "Challenge expired, request a new one"));
    assert!(store.issue("bob", vec![4], 70 * SECOND).is_ok());
    assert!(store.issue("bob", vec![5], 71 * SECOND).is_ok());
    assert_eq!(store.take("bob", 71 * SECOND).unwrap(), vec![5]);
}

#[test]
fn pending_challenges_are_bounded() {
    let mut store = new_nonce_store();
    let mut i: usize = 0;
    while i < NONCE_MAX_ENTRIES {
        let name = text::show_u64(i as u64);
        assert!(store.issue(&name, Vec::new(), SECOND).is_ok());
        i += 1;
    }
    assert!(matches!(store.issue("one more", Vec::new(), 2 * SECOND),
        Err(AppError::BadRequest(m)) if m == "Too many pending challenges, try again later"));
    assert!(store.issue("one more", Vec::new(), 62 * SECOND).is_ok());
}

#[test]
fn a_window_of_a_minute_holds_so_many_actions() {
    let mut limiter = RateLimiter::new(2);
    assert!(limiter.check_and_record_at("ann", 0));
    assert!(limiter.check_and_record_at("ann", 10 * SECOND));
    assert!(!limiter.check_and_record_at("ann", 59 * SECOND));
    assert!(limiter.check_and_record_at("bob", 59 * SECOND));
    assert!(limiter.check_and_record_at("ann", 60 * SECOND));
    assert!(!limiter.check_and_record_at("ann", 69 * SECOND));
    assert!(limiter.check_and_record_at("ann", 70 * SECOND));
    let mut none = RateLimiter::new(0);
    assert!(!none.check_and_record("ann"));
    let mut one = RateLimiter::new(1);
    assert!(one.check_and_record("ann"));
    assert!(!one.check_and_record("ann"));
}

#[test]
fn slow_mode_keeps_posts_apart() {
    let mut slow = SlowModeTracker::new();
    assert_eq!(slow.check_and_record_at("ann", 10, SECOND), Ok(()));
    assert_eq!(slow.check_and_record_at("ann", 10, 4 * SECOND), Err(7));
    assert_eq!(slow.check_and_record_at("bob", 10, 4 * SECOND), Ok(()));
    assert_eq!(slow.check_and_record_at("ann", 10, 11 * SECOND), Ok(()));
    assert_eq!(slow.check_and_record_at("ann", 10, 20 * SECOND), Err(1));
    assert_eq!(slow.check_and_record_at("ann", 0, 22 * SECOND), Ok(()));
    assert_eq!(slow.check_and_record_at("ann", 10, 29 * SECOND), Err(3));
    assert_eq!(slow.check_and_record_at("ann", -5, 30 * SECOND), Ok(()));
    assert_eq!(slow.check_and_record_at("ann", 10, 39 * SECOND), Err(1));
    let mut now = SlowModeTracker::new();
    assert_eq!(now.check_and_record("ann", 60), Ok(()));
    assert!(now.check_and_record("ann", 60).is_err());
    assert_eq!(now.check_and_record("ann", -1), Ok(()));
}

#[test]
fn clocks_run() {
    let watch = Stopwatch::start();
    let first = watch.read();
    assert!(watch.read() >= first);
    assert_eq!(whole_seconds(SECOND, 3 * SECOND - 1), 1);
    assert_eq!(whole_seconds(5, 4), 0);
    assert!(now_ms() > 1_600_000_000_000);
    assert!(utc_timestamp().ends_with("+00:00"));
}

#[test]
fn permissions_have_wire_names() {
    assert_eq!(Permission::from_wire_name("kick_members").map(|p| p.bits), Some(KICK_MEMBERS));
    assert_eq!(Permission::from_wire_name("view_invite_link").map(|p| p.bits), Some(VIEW_INVITE_LINK));
    assert!(Permission::from_wire_name("KICK_MEMBERS").is_none());
    assert_eq!(perm(KICK_MEMBERS | MANAGE_ROLES).to_names(), vec!["kick_members", "manage_roles"]);
    let names = Permission::all().to_names();
    assert_eq!(names.len(), 14);
    assert_eq!(Permission::from_names(&names).unwrap().bits, ALL_BITS);
    assert_eq!(Permission::from_names(&[]).unwrap().bits, 0);
    assert!(Permission::from_names(&["kick_members".to_string(), "fly".to_string()]).is_err());
    assert_eq!(Permission::from_bits_truncate(-1).bits(), ALL_BITS);
    assert_eq!(ALL_BITS, 0x7dff);
}

#[test]
fn roles_have_names() {
    assert_eq!(Role::Owner.as_str(), "owner");
    assert_eq!(Role::Moderator.as_str(), "moderator");
    assert!(matches!(Role::from_str("owner"), Some(Role::Owner)));
    assert_eq!(Role::from_str("moderator").map(|r| r.can_moderate()), Some(true));
    assert_eq!(Role::from_str("member").map(|r| r.can_moderate()), Some(false));
    assert_eq!(Role::from_str("member").map(|r| r.is_owner()), Some(false));
    assert!(Role::from_str("Owner").is_none());
}

#[test]
fn permission_checks_follow_the_role() {
    let bits = Lookup::Found(KICK_MEMBERS);
    assert!(has_permission(&bits, perm(KICK_MEMBERS)).unwrap());
    assert!(!has_permission(&bits, perm(BAN_MEMBERS)).unwrap());
    assert!(!has_permission(&Lookup::Missing, perm(KICK_MEMBERS)).unwrap());
    assert!(matches!(has_permission(&Lookup::Failed("x".to_string()), perm(KICK_MEMBERS)),
        Err(AppError::Internal(m)) if m == "x"));
    assert!(has_any_permission(&bits, &[perm(BAN_MEMBERS), perm(KICK_MEMBERS)]).unwrap());
    assert!(!has_any_permission(&bits, &[perm(BAN_MEMBERS)]).unwrap());
    assert!(!has_any_permission(&bits, &[]).unwrap());
    assert!(is_owner_equivalent(&Lookup::Found(1)).unwrap());
    assert!(!is_owner_equivalent(&Lookup::Found(2)).unwrap());
    assert!(!is_owner_equivalent(&Lookup::Missing).unwrap());
    assert!(is_owner_equivalent(&Lookup::Failed("x".to_string())).is_err());
    assert_eq!(count_owner_equivalent_members(&Lookup::Found(3)).unwrap(), 3);
    assert!(count_owner_equivalent_members(&Lookup::Missing).is_err());
    assert!(require_permission(&bits, perm(KICK_MEMBERS)).is_ok());
    assert!(matches!(require_permission(&bits, perm(BAN_MEMBERS)),
        Err(AppError::Forbidden(m)) if m == "Insufficient permissions"));
    assert!(any_counted(&Lookup::Found(1)).unwrap());
    assert!(!any_counted(&Lookup::Found(0)).unwrap());
}

#[test]
fn role_names_grant_moderation() {
    let role = |s: &str| Lookup::Found(s.to_string());
    assert!(matches!(check_moderator(&role("owner")), Ok(Role::Owner)));
    assert!(matches!(check_moderator(&role("member")), Err(m) if m == "Insufficient permissions"));
    assert!(matches!(check_moderator(&role("king")), Err(m) if m == "Invalid role"));
    assert!(matches!(check_moderator(&Lookup::Missing), Err(m) if m == "Not a member"));
    assert!(check_owner(&role("owner")).is_ok());
    assert!(matches!(check_owner(&role("moderator")), Err(m) if m == "Only owners can perform this action"));
    assert!(matches!(check_owner(&Lookup::Failed("db".to_string())), Err(m) if m == "db"));
}

#[test]
fn json_members_are_found() {
    let v = Fields::new().put_text("a", "x").put_bool("b", true).put_int("c", -3).done();
    assert_eq!(v.get("a").and_then(|m| m.as_text()), Some("x".to_string()));
    assert!(v.get("b").map(|m| m.is_true()).unwrap());
    assert!(v.get("d").is_none());
    assert!(matches!(v.get("c"), Some(JsonValue::Int(-3))));
    assert!(JsonValue::Null.get("a").is_none());
}

#[test]
fn milliseconds_are_kept() {
    assert_eq!(kept_millis(None), 0);
    assert_eq!(kept_millis(Some((1_700_000_000, 999_999_999))), 1_700_000_000_999);
    assert_eq!(kept_millis(Some((9_223_372_036_854_775, 808_000_000))), i64::MIN);
}

#[test]
fn moments_are_written_in_utc() {
    assert_eq!(timestamp_of(Some((851_013_597, 0))), "1996-12-19T16:39:57+00:00");
    assert_eq!(timestamp_of(Some((951_868_799, 1_000_000))), "2000-02-29T23:59:59.001+00:00");
    assert_eq!(timestamp_of(Some((951_868_800, 999_999_999))), "2000-03-01T00:00:00.999999999+00:00");
    assert_eq!(timestamp_of(Some((253_402_300_799, 0))), "9999-12-31T23:59:59+00:00");
    assert_eq!(timestamp_of(Some((253_402_300_800, 0))), "+10000-01-01T00:00:00+00:00");
    let start = "1970-01-01T00:00:00+00:00";
    assert_eq!(timestamp_of(Some((0, 0))), start);
    assert_eq!(timestamp_of(None), start);
    assert_eq!(timestamp_of(Some((10_000_000_000_000, 5))), start);
    assert_eq!(timestamp_of(Some((u64::MAX, 0))), start);
}

fn number_at(s: &str, at: usize) -> u32 {
    s[at..at + 2].parse().unwrap()
}

#[test]
fn timestamps_are_in_utc() {
    let t = utc_timestamp();
    let (date, rest) = t.split_once('T').unwrap();
    let (year, day) = date.split_once('-').unwrap();
    assert!(year.len() == 4 && year.chars().all(|c| c.is_ascii_digit()));
    assert!(day.len() == 5 && &day[2..3] == "-");
    assert!((1..=12).contains(&number_at(day, 0)) && (1..=31).contains(&number_at(day, 3)));
    let time = rest.strip_suffix("+00:00").unwrap();
    assert!(&time[2..3] == ":" && &time[5..6] == ":");
    assert!(number_at(time, 0) <= 23 && number_at(time, 3) <= 59 && number_at(time, 6) <= 59);
    let fraction = &time[8..];
    assert!(matches!(fraction.len(), 0 | 4 | 7 | 10));
    if !fraction.is_empty() {
        assert!(fraction.starts_with('.') && fraction[1..].chars().all(|c| c.is_ascii_digit()));
    }
}
