use onyx_server::cli::{Cli, Commands, GroupAction};
use onyx_server::db::{
    has_column, moderator_permissions, open_failure, pragma_failure, pragmas, run_migrations, table_failure,
    tables, Column, Columns, Migration,
};
use onyx_server::error::Lookup;
use onyx_server::instance_config::{save_failure, Instance, InstancesConfig, LoadFailure};
use onyx_server::models::permission::Permission;
use onyx_server::permissions::has_permission;
use onyx_server::pm::{
    cleanup_stale_pids, get_instance_status, init_failure, is_listed, is_stale, kill_failure, last_lines,
    list_instances, log_file_name, logs_dir, new_lines, pid_content, pid_file_name, pids_dir, probe_arguments,
    read_pid, show_logs, start_failure, start_instance, started_line, stop_instance, write_pid_failure, Probe,
    ProcessStatus, StartFailure,
};
use onyx_server::server::{
    bind_failure, describe_interface, describe_local, describe_public, listen_address, Ipv4,
};
use onyx_server::ws::protocol::{ClientMessage, ServerMessage};

fn columns(there: bool) -> Columns {
    Columns {
        password_hash: Ok(there),
        public_channel_token: Ok(there),
        max_message_length: Ok(there),
        media_provider: Ok(there),
        max_file_size: Ok(there),
        allowed_file_types: Ok(there),
        rate_limit: Ok(there),
        slow_mode_seconds: Ok(there),
        role_id: Ok(there),
        require_approval: Ok(there),
        default_role_id: Ok(there),
        max_members: Ok(there),
        motd: Ok(there),
        max_messages_per_minute: Ok(there),
    }
}

#[test]
fn a_new_database_needs_every_migration() {
    let plan = run_migrations(&columns(false));
    assert_eq!(plan.run.len(), 19);
    assert!(plan.stop.is_none());
    assert!(plan.run[0] == Migration::Add(Column::PasswordHash));
    assert!(plan.run[8] == Migration::SeedOwner);
    assert!(plan.run[11] == Migration::Add(Column::RoleId));
    assert!(plan.run[12] == Migration::FillRoleIds);
    assert!(plan.run[18] == Migration::Add(Column::MaxMessagesPerMinute));
}

#[test]
fn an_up_to_date_database_only_fills_in() {
    let plan = run_migrations(&columns(true));
    assert!(plan.run == vec![
        Migration::SeedOwner,
        Migration::SeedModerator,
        Migration::SeedMember,
        Migration::FillRoleIds,
        Migration::FillDefaultRole,
    ]);
}

#[test]
fn a_failed_look_stops_later_migrations_only() {
    let mut c = columns(true);
    c.password_hash = Err("x".to_string());
    assert!(run_migrations(&c).run[0] == Migration::Add(Column::PasswordHash));
    c.motd = Err("locked".to_string());
    let plan = run_migrations(&c);
    assert_eq!(plan.stop, Some("locked".to_string()));
    assert_eq!(plan.run.len(), 6);
    c.role_id = Err("first".to_string());
    let plan = run_migrations(&c);
    assert_eq!(plan.stop, Some("first".to_string()));
    assert_eq!(plan.run.len(), 4);
}

#[test]
fn migrations_have_statements_and_labels() {
    assert_eq!(
        Migration::Add(Column::Motd).sql(),
        "ALTER TABLE group_info ADD COLUMN motd TEXT NOT NULL DEFAULT '';"
    );
    assert_eq!(Migration::Add(Column::Motd).failure("e"), "Migration failed (motd): e");
    assert_eq!(Migration::SeedModerator.failure("e"), "Migration failed (seed moderator role): e");
    assert_eq!(Migration::SeedOwner.bits(), Some(0x7dff));
    assert_eq!(moderator_permissions().bits(), 0x7dc7);
    assert_eq!(Migration::SeedModerator.bits(), Some(0x7dc7));
    assert_eq!(Migration::SeedMember.bits(), None);
    assert!(Migration::FillRoleIds.sql().contains("SET role_id = 2 WHERE role_id IS NULL AND role = 'moderator'"));
    assert_eq!(
        Column::RoleId.query(),
        "SELECT COUNT(*) FROM pragma_table_info('members') WHERE name = 'role_id'"
    );
    assert_eq!(has_column(Ok(1)), Ok(true));
    assert_eq!(has_column(Ok(0)), Ok(false));
    assert_eq!(has_column(Err("e".to_string())), Err("e".to_string()));
    assert_eq!(open_failure("p", "e"), "Failed to open database 'p': e");
    assert_eq!(pragma_failure("e"), "Failed to set pragmas: e");
    assert_eq!(table_failure("e"), "Failed to create tables: e");
    assert!(pragmas().contains("foreign_keys=ON"));
}

fn open() -> rusqlite::Connection {
    let conn = rusqlite::Connection::open_in_memory().unwrap();
    conn.execute_batch("PRAGMA foreign_keys=ON;").unwrap();
    conn.execute_batch(tables()).unwrap();
    conn
}

fn look(conn: &rusqlite::Connection, c: Column) -> Result<bool, String> {
    has_column(conn.query_row(&c.query(), [], |r| r.get(0)).map_err(|e| e.to_string()))
}

fn looked(conn: &rusqlite::Connection) -> Columns {
    Columns {
        password_hash: look(conn, Column::PasswordHash),
        public_channel_token: look(conn, Column::PublicChannelToken),
        max_message_length: look(conn, Column::MaxMessageLength),
        media_provider: look(conn, Column::MediaProvider),
        max_file_size: look(conn, Column::MaxFileSize),
        allowed_file_types: look(conn, Column::AllowedFileTypes),
        rate_limit: look(conn, Column::RateLimit),
        slow_mode_seconds: look(conn, Column::SlowModeSeconds),
        role_id: look(conn, Column::RoleId),
        require_approval: look(conn, Column::RequireApproval),
        default_role_id: look(conn, Column::DefaultRoleId),
        max_members: look(conn, Column::MaxMembers),
        motd: look(conn, Column::Motd),
        max_messages_per_minute: look(conn, Column::MaxMessagesPerMinute),
    }
}

fn migrate(conn: &rusqlite::Connection) -> usize {
    let plan = run_migrations(&looked(conn));
    assert!(plan.stop.is_none());
    for m in &plan.run {
        match m.bits() {
            Some(b) => {
                conn.execute(m.sql(), [b]).unwrap();
            }
            None => conn.execute_batch(m.sql()).unwrap(),
        }
    }
    plan.run.len()
}

#[test]
fn migrations_run_on_sqlite_and_are_idempotent() {
    let conn = open();
    conn.execute_batch(
        "INSERT INTO members (username, display_name, role) VALUES ('ann', 'Ann', 'owner');
         INSERT INTO members (username, display_name, role) VALUES ('bob', 'Bob', 'moderator');
         INSERT INTO members (username, display_name, role) VALUES ('cat', 'Cat', 'guest');",
    )
    .unwrap();
    assert_eq!(migrate(&conn), 17);
    let role = |u: &str| -> i64 {
        conn.query_row("SELECT role_id FROM members WHERE username = ?1", [u], |r| r.get(0)).unwrap()
    };
    assert_eq!((role("ann"), role("bob"), role("cat")), (1, 2, 3));
    conn.execute_batch("UPDATE members SET role_id = 3 WHERE username = 'ann'").unwrap();
    assert_eq!(migrate(&conn), 5);
    assert_eq!(role("ann"), 3);
    let owner: i64 = conn.query_row("SELECT permissions FROM roles WHERE id = 1", [], |r| r.get(0)).unwrap();
    assert_eq!(owner, 0x7dff);
}

#[test]
fn an_old_group_table_gets_a_unique_public_token() {
    let conn = rusqlite::Connection::open_in_memory().unwrap();
    conn.execute_batch(
        "CREATE TABLE group_info (
            id INTEGER PRIMARY KEY CHECK (id IN (1, 2)),
            name TEXT NOT NULL,
            description TEXT DEFAULT '',
            is_channel INTEGER NOT NULL DEFAULT 0,
            owner_username TEXT NOT NULL,
            invite_token TEXT NOT NULL UNIQUE,
            avatar_version INTEGER NOT NULL DEFAULT 0,
            created_at TEXT NOT NULL DEFAULT (datetime('now'))
         );
         INSERT INTO group_info (id, name, owner_username, invite_token) VALUES (1, 'Old', '', 'invite');",
    )
    .unwrap();
    conn.execute_batch(tables()).unwrap();
    assert_eq!(look(&conn, Column::PublicChannelToken), Ok(false));
    assert_eq!(migrate(&conn), 18);
    assert_eq!(look(&conn, Column::PublicChannelToken), Ok(true));
    conn.execute_batch(
        "UPDATE group_info SET public_channel_token = 'p' WHERE id = 1;
         INSERT INTO group_info (id, name, owner_username, invite_token) VALUES (2, 'New', '', 'other');",
    )
    .unwrap();
    assert!(conn.execute_batch("UPDATE group_info SET public_channel_token = 'p' WHERE id = 2").is_err());
    assert!(conn.execute_batch("UPDATE group_info SET public_channel_token = 'q' WHERE id = 2").is_ok());
    assert_eq!(migrate(&conn), 5);
}

#[test]
fn system_roles_rank_owners_over_moderators_over_members() {
    let may = |bits: Option<i64>, name: &str| {
        has_permission(&Lookup::Found(bits.unwrap_or(0)), Permission::from_wire_name(name).unwrap()).unwrap()
    };
    for name in Permission::all().to_names() {
        let reserved = ["manage_roles", "manage_settings", "manage_donations"].contains(&name.as_str());
        assert!(may(Migration::SeedOwner.bits(), &name));
        assert_eq!(may(Migration::SeedModerator.bits(), &name), !reserved);
        assert!(!may(Migration::SeedMember.bits(), &name));
    }
}

#[test]
fn a_role_that_took_a_system_name_is_kept() {
    let conn = open();
    conn.execute_batch("INSERT INTO roles (id, name, permissions) VALUES (9, 'Moderator', 4)").unwrap();
    migrate(&conn);
    let bits = |id: i64| -> Option<i64> {
        conn.query_row("SELECT permissions FROM roles WHERE id = ?1", [id], |r| r.get(0)).ok()
    };
    assert_eq!((bits(1), bits(2), bits(9)), (Some(0x7dff), None, Some(4)));
}

#[test]
fn migrations_leave_edited_rows_alone() {
    let conn = open();
    conn.execute_batch(
        "INSERT INTO group_info (id, name, owner_username, invite_token) VALUES (1, 'Old', '', 'invite');",
    )
    .unwrap();
    migrate(&conn);
    conn.execute_batch(
        "UPDATE group_info SET motd = 'Hello', slow_mode_seconds = 30;
         UPDATE roles SET permissions = 1, color = '#000000' WHERE id = 2;",
    )
    .unwrap();
    migrate(&conn);
    let group: (String, i64) = conn
        .query_row("SELECT motd, slow_mode_seconds FROM group_info", [], |r| Ok((r.get(0)?, r.get(1)?)))
        .unwrap();
    assert_eq!(group, ("Hello".to_string(), 30));
    let role: (i64, String) = conn
        .query_row("SELECT permissions, color FROM roles WHERE id = 2", [], |r| Ok((r.get(0)?, r.get(1)?)))
        .unwrap();
    assert_eq!(role, (1, "#000000".to_string()));
}

fn instance(name: &str) -> Instance {
    let mut i = Instance::default();
    i.name = name.to_string();
    i.config = "c.toml".to_string();
    i
}

#[test]
fn instances_have_unique_names() {
    let config = InstancesConfig { instances: vec![instance("a"), instance("b")] };
    let loaded = InstancesConfig::load(Ok(config)).unwrap();
    assert_eq!(loaded.find_instance("b").map(|i| i.config.as_str()), Some("c.toml"));
    assert!(loaded.find_instance("c").is_none());
    let twice = InstancesConfig { instances: vec![instance("a"), instance("b"), instance("a")] };
    assert!(matches!(InstancesConfig::load(Ok(twice)),
        Err(m) if m == "Duplicate instance name found: 'a'. All instance names must be unique."));
    assert!(matches!(InstancesConfig::load(Err(LoadFailure::NotRead("e".to_string()))),
        Err(m) if m == "Failed to read instances config: e"));
    assert!(matches!(InstancesConfig::load(Err(LoadFailure::NotParsed("e".to_string()))),
        Err(m) if m == "Failed to parse instances config: e"));
    assert_eq!(save_failure(true, "e"), "Failed to write config: e");
    assert_eq!(save_failure(false, "e"), "Failed to serialize config: e");
    let fresh = Instance::default();
    assert!(fresh.enabled && !fresh.auto_restart && fresh.port.is_none());
}

#[test]
fn the_default_file_is_toml() {
    let text = InstancesConfig::default_toml();
    let value: toml::Value = toml::from_str(&text).unwrap();
    let first = &value["instance"][0];
    assert_eq!(first["name"].as_str(), Some("main-group"));
    assert_eq!(first["port"].as_integer(), Some(3000));
    assert!(text.starts_with("# ONYX Server - Process Manager Configuration\n"));
}

#[test]
fn process_numbers_are_noted() {
    assert_eq!(pid_file_name("a"), "a.pid");
    assert_eq!(log_file_name("a"), "a.log");
    assert_eq!((pids_dir(), logs_dir()), (".onyx/pids", ".onyx/logs"));
    assert_eq!(read_pid(&Some(pid_content(4711))), Some(4711));
    assert_eq!(read_pid(&Some(" 12\n".to_string())), Some(12));
    assert_eq!(read_pid(&Some("x".to_string())), None);
    assert_eq!(read_pid(&None), None);
    assert_eq!(probe_arguments(7), vec!["-0", "7"]);
    assert!(is_listed("onyx.exe  4711 Console", 4711));
    assert!(!is_listed("INFO: none", 4711));
    assert!(is_stale(Some(1), false) && !is_stale(Some(1), true) && !is_stale(None, false));
    assert_eq!(cleanup_stale_pids("a.pid"), Some("a".to_string()));
    assert_eq!(cleanup_stale_pids("a.txt"), None);
    assert_eq!(write_pid_failure("e"), "Failed to write PID file: e");
    assert_eq!(init_failure(false, "e"), "Failed to create PID directory: e");
    assert_eq!(init_failure(true, "e"), "Failed to create logs directory: e");
}

#[test]
fn instances_are_started_and_stopped() {
    let mut i = instance("a");
    assert_eq!(start_instance(&i, None, false).unwrap(), vec!["--config", "c.toml", "serve"]);
    i.port = Some(3000);
    assert_eq!(
        start_instance(&i, Some(5), false).unwrap(),
        vec!["--config", "c.toml", "serve", "--port", "3000"]
    );
    assert_eq!(
        start_instance(&i, Some(5), true),
        Err("Instance 'a' is already running (PID: 5)".to_string())
    );
    assert_eq!(started_line(&i, 5), "Started instance 'a' (PID: 5, Port: 3000)");
    i.port = None;
    assert_eq!(started_line(&i, 5), "Started instance 'a' (PID: 5, Port: default)");
    i.enabled = false;
    assert_eq!(start_instance(&i, None, false), Err("Instance 'a' is disabled in config".to_string()));
    assert_eq!(stop_instance("a", Some(5), true), Ok(5));
    assert_eq!(stop_instance("a", None, true), Err("Instance 'a' is not running".to_string()));
    assert_eq!(
        stop_instance("a", Some(5), false),
        Err("Instance 'a' is not running (stale PID file)".to_string())
    );
    assert_eq!(kill_failure("e"), "Failed to kill process: e");
    assert_eq!(start_failure(&StartFailure::NoProgram("e".to_string())), "Failed to get current executable path: e");
    assert_eq!(start_failure(&StartFailure::NoLog("e".to_string())), "Failed to open log file: e");
    assert_eq!(start_failure(&StartFailure::NoSecondLog("e".to_string())), "Failed to clone log handle: e");
    assert_eq!(start_failure(&StartFailure::NotSpawned("e".to_string())), "Failed to spawn process: e");
}

#[test]
fn instances_are_listed() {
    let config = InstancesConfig { instances: vec![instance("a"), instance("b"), instance("c")] };
    let probes = vec![
        Probe { pid: Some(1), running: true },
        Probe { pid: Some(2), running: false },
        Probe { pid: None, running: false },
    ];
    let list = list_instances(&config, &probes);
    assert_eq!(list.len(), 3);
    assert!(list[0].status == ProcessStatus::Running && list[0].pid == Some(1) && list[0].name == "a");
    assert!(list[1].status == ProcessStatus::Stopped && list[1].pid == Some(2));
    assert!(list[2].status == ProcessStatus::Stopped && list[2].pid.is_none());
    assert!(get_instance_status(&instance("x"), None, false).config == "c.toml");
}

#[test]
fn the_last_lines_are_shown() {
    let log: Vec<String> = vec!["1".to_string(), "2".to_string(), "3".to_string()];
    assert_eq!(last_lines(&log, 2), vec!["2", "3"]);
    assert_eq!(last_lines(&log, 5), vec!["1", "2", "3"]);
    assert_eq!(last_lines(&log, 0), Vec::<String>::new());
    assert_eq!(new_lines(&log, 1), vec!["2", "3"]);
    assert_eq!(new_lines(&log, 4), Vec::<String>::new());
    let (head, lines) = show_logs("a", 1, &Some(Ok(log))).unwrap();
    assert_eq!(head, "Last 1 lines of logs for instance 'a':\n");
    assert_eq!(lines, vec!["3"]);
    assert_eq!(show_logs("a", 1, &None), Err("No logs found for instance 'a'".to_string()));
    assert_eq!(
        show_logs("a", 1, &Some(Err("e".to_string()))),
        Err("Failed to open log file: e".to_string())
    );
}

#[test]
fn addresses_are_described() {
    let ip = |a: u8, b: u8, c: u8, d: u8| Ipv4 { a, b, c, d };
    assert_eq!(describe_interface(ip(127, 0, 0, 1), 80), None);
    assert_eq!(describe_interface(ip(192, 168, 0, 9), 80), Some("  LAN         192.168.0.9:80".to_string()));
    assert_eq!(describe_interface(ip(172, 31, 0, 9), 80), Some("  LAN         172.31.0.9:80".to_string()));
    assert_eq!(describe_interface(ip(172, 32, 0, 9), 80), Some("  Public      172.32.0.9:80".to_string()));
    assert_eq!(describe_interface(ip(10, 1, 2, 3), 80), Some(format!("  {:<10}  10.1.2.3:80", "LAN")));
    assert_eq!(describe_public(" 8.8.8.8\n", 80), Some("  Public      8.8.8.8:80".to_string()));
    assert_eq!(describe_public(" \n", 80), None);
    assert_eq!(describe_local(80), "  Local:      127.0.0.1:80");
    assert_eq!(listen_address("0.0.0.0", 3000), "0.0.0.0:3000");
    assert_eq!(bind_failure("a", "e"), "Failed to bind to a: e");
}

#[test]
fn commands_and_messages_are_plain_values() {
    let cli = Cli { command: Commands::Group { action: GroupAction::ToChannel }, server: None, config: None };
    assert!(matches!(cli.command, Commands::Group { action: GroupAction::ToChannel }));
    assert!(matches!(ClientMessage::Typing { group_id: 1 }, ClientMessage::Typing { group_id: 1 }));
    assert!(matches!(ServerMessage::Pong, ServerMessage::Pong));
}
