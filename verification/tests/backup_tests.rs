use ragdoll::backup::{
    backup_file_name, backups_to_prune, escape_sql_string, format_timestamp, has_daily_for_today, list_backups,
    integrity_verdict, parse_backup_file_name, read_backup_file_name, resolve_backup_path, restore_source_name,
    restore_temp_name, temp_file_name, vacuum_into_sql, validate_backup_file_name, wal_sidecars,
    BackupInfo, BackupNameError, BackupTrigger, NameParse, Timestamp,
};
use time::OffsetDateTime;

fn ts_of(t: OffsetDateTime) -> Timestamp {
    Timestamp {
        year: t.year(),
        month: u8::from(t.month()),
        day: t.day(),
        hour: t.hour(),
        minute: t.minute(),
        second: t.second(),
        millisecond: t.millisecond(),
    }
}

fn at(unix: i64) -> Timestamp {
    ts_of(OffsetDateTime::from_unix_timestamp(unix).unwrap())
}

fn entries(names: &[String]) -> Vec<(String, u64)> {
    names.iter().map(|n| (n.clone(), 1)).collect()
}

#[test]
fn backup_file_name_roundtrip() {
    let now = at(1_718_000_000);
    let file_name = backup_file_name(BackupTrigger::Daily, &now);
    assert_eq!(file_name, "ragdoll-20240610T061320000Z-daily.db");
    let (parsed, trigger) = parse_backup_file_name(&file_name).unwrap();
    assert_eq!(trigger, BackupTrigger::Daily);
    assert_eq!(parsed, now);
}

#[test]
fn timestamps_are_zero_padded() {
    let t = Timestamp { year: 7, month: 1, day: 2, hour: 3, minute: 4, second: 5, millisecond: 6 };
    assert_eq!(format_timestamp(&t), "00070102T030405006Z");
    let t = Timestamp { year: -5, ..t };
    assert_eq!(format_timestamp(&t), "-0050102T030405006Z");
    let name = backup_file_name(BackupTrigger::Manual, &t);
    assert_eq!(parse_backup_file_name(&name), Some((t, BackupTrigger::Manual)));
}

#[test]
fn short_timestamps_without_milliseconds_are_read() {
    let (t, trigger) = parse_backup_file_name("ragdoll-20240610T061320Z-manual.db").unwrap();
    assert_eq!(trigger, BackupTrigger::Manual);
    assert_eq!(t, Timestamp { year: 2024, month: 6, day: 10, hour: 6, minute: 13, second: 20, millisecond: 0 });
    assert_eq!(parse_backup_file_name("ragdoll-20240230T061320Z-manual.db"), None);
    assert_eq!(parse_backup_file_name("ragdoll-20240610T241320Z-manual.db"), None);
}

#[test]
fn non_ascii_timestamps_are_reported_instead_of_panicking() {
    assert!(matches!(read_backup_file_name("ragdoll-20241é0T061320000Z-daily.db"), NameParse::Panics));
    assert!(matches!(read_backup_file_name("ragdoll-2024é10T061320000Z-daily.db"), NameParse::Rejected));
}

#[test]
fn resolve_backup_path_rejects_invalid_names() {
    assert!(resolve_backup_path("/data/backups", "../etc/passwd", true).is_err());
    assert!(resolve_backup_path("/data/backups", "not-a-backup.db", true).is_err());
}

#[test]
fn resolve_backup_path_needs_an_existing_file() {
    let name = "ragdoll-20240610T061320000Z-daily.db";
    assert_eq!(resolve_backup_path("/data/backups", name, false).unwrap_err(), BackupNameError::NotFound);
    assert_eq!(BackupNameError::NotFound.message(), "backup not found");
    assert_eq!(
        resolve_backup_path("/data/backups", name, true).unwrap(),
        "/data/backups/ragdoll-20240610T061320000Z-daily.db"
    );
    assert_eq!(resolve_backup_path("/data/backups", "../etc/passwd", false).unwrap_err(), BackupNameError::UnsafePath);
}

#[test]
fn validate_backup_file_name_rejects_invalid_names() {
    assert!(validate_backup_file_name("backup.db").is_err());
    assert!(validate_backup_file_name("ragdoll-not-a-timestamp-manual.db").is_err());
    assert!(validate_backup_file_name("../ragdoll-20240610T061320000Z-manual.db").is_err());
    assert_eq!(validate_backup_file_name("a\\b").unwrap_err(), BackupNameError::UnsafePath);
    assert_eq!(BackupNameError::BadFormat.message(), "invalid backup file name format");
    assert!(BackupNameError::UnsafePath.message().contains("invalid backup file name"));
}

#[test]
fn list_backups_sorts_newest_file_name_first() {
    let older = backup_file_name(BackupTrigger::Daily, &at(1_700_000_000));
    let newer = backup_file_name(BackupTrigger::Daily, &at(1_800_000_000));
    let backups = list_backups(&entries(&[older.clone(), newer.clone(), ".hidden".into(), "other.db".into()]));
    assert_eq!(backups.len(), 2);
    assert_eq!(backups[0].file_name, newer);
    assert_eq!(backups[1].file_name, older);
    assert_eq!(backups[1].created_at, "2023-11-14T22:13:20Z");
}

#[test]
fn prune_keeps_limits_per_trigger() {
    let base = 1_700_000_000;
    let mut names = Vec::new();
    for i in 0..4 {
        names.push(backup_file_name(BackupTrigger::Daily, &at(base + i)));
    }
    for i in 0..3 {
        names.push(backup_file_name(BackupTrigger::Manual, &at(base + 100 + i)));
    }
    let backups = list_backups(&entries(&names));
    let daily_gone = backups_to_prune(&backups, BackupTrigger::Daily, 2);
    let manual_gone = backups_to_prune(&backups, BackupTrigger::Manual, 1);
    assert_eq!(daily_gone.len(), 2);
    assert_eq!(manual_gone.len(), 2);
    let kept: Vec<BackupInfo> = backups
        .into_iter()
        .filter(|b| !daily_gone.contains(&b.file_name) && !manual_gone.contains(&b.file_name))
        .collect();
    assert_eq!(kept.iter().filter(|b| b.trigger == BackupTrigger::Daily).count(), 2);
    assert_eq!(kept.iter().filter(|b| b.trigger == BackupTrigger::Manual).count(), 1);
    assert!(kept.iter().any(|b| b.file_name == names[3]));
    assert!(kept.iter().any(|b| b.file_name == names[6]));
}

#[test]
fn prune_uses_timestamp_from_file_name() {
    let older = backup_file_name(BackupTrigger::Manual, &at(1_700_000_000));
    let newer = backup_file_name(BackupTrigger::Manual, &at(1_800_000_000));
    let backups = list_backups(&entries(&[older.clone(), newer.clone()]));
    let gone = backups_to_prune(&backups, BackupTrigger::Manual, 1);
    assert_eq!(gone, vec![older]);
}

#[test]
fn has_daily_for_today_detects_today_and_yesterday() {
    let today = at(1_718_000_000);
    let yesterday = at(1_718_000_000 - 86_400);
    let only_yesterday = list_backups(&entries(&[backup_file_name(BackupTrigger::Daily, &yesterday)]));
    assert!(!has_daily_for_today(&only_yesterday, &today));
    let both = list_backups(&entries(&[
        backup_file_name(BackupTrigger::Daily, &yesterday),
        backup_file_name(BackupTrigger::Daily, &today),
    ]));
    assert!(has_daily_for_today(&both, &today));
    let manual_today = list_backups(&entries(&[backup_file_name(BackupTrigger::Manual, &today)]));
    assert!(!has_daily_for_today(&manual_today, &today));
}

#[test]
fn temp_names_and_sql_quoting() {
    assert_eq!(temp_file_name("x.db"), ".x.db.tmp");
    assert_eq!(escape_sql_string("/tmp/it's"), "/tmp/it''s");
}

#[test]
fn triggers_have_names() {
    assert_eq!(BackupTrigger::Manual.as_str(), "manual");
    assert_eq!(BackupTrigger::parse("daily"), Some(BackupTrigger::Daily));
    assert_eq!(BackupTrigger::parse("weekly"), None);
}

#[test]
fn restore_works_on_named_copies() {
    assert_eq!(
        restore_source_name("ragdoll-backup-daily-x.db"),
        ".restore-source-ragdoll-backup-daily-x.db.tmp"
    );
    assert_eq!(restore_temp_name(Some("live.db")), ".live.db.restore.tmp");
    assert_eq!(restore_temp_name(None), ".ragdoll.db.restore.tmp");
    assert_eq!(wal_sidecars("/d/ragdoll.db"), vec!["/d/ragdoll.db-wal", "/d/ragdoll.db-shm"]);
}

#[test]
fn integrity_and_vacuum_statements() {
    assert!(integrity_verdict("ok").is_ok());
    assert_eq!(integrity_verdict("*** in database main ***").unwrap_err(), "integrity_check failed: *** in database main ***");
    assert_eq!(vacuum_into_sql("/b/it's.tmp"), "VACUUM INTO '/b/it''s.tmp'");
}
