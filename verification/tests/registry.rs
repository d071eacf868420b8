use cural::Error;
use cural::handle::INVALID_HANDLE_RAW;
use cural::process::ProcessRecord;
use cural::registry::ProcessFind;
use cural::registry::ProcessScan;

fn record(id: u32, name: &str) -> ProcessRecord {
    let mut name_buf: Vec<u8> = name.as_bytes().to_vec();
    name_buf.push(0);
    name_buf.push(0xff); // padding garbage past the terminator
    ProcessRecord { id, name_buf }
}

#[test]
fn all_collects_every_accessible_process() {
    let mut scan = ProcessScan::begin(5).unwrap();
    scan.on_record(record(100, "init.exe"));
    scan.on_open(41);
    scan.on_record(record(200, "svc.exe"));
    scan.on_open(42);
    scan.on_end();
    let (processes, snapshot) = scan.finish();
    assert_eq!(processes.len(), 2);
    assert_eq!(*processes[0].get_id(), 100);
    assert_eq!(processes[0].get_name(), "init.exe");
    assert_eq!(processes[0].get_handle(), 41);
    assert_eq!(*processes[1].get_id(), 200);
    assert_eq!(processes[1].get_name(), "svc.exe");
    assert_eq!(processes[1].get_handle(), 42);
    assert_eq!(snapshot.release(), 5);
}

#[test]
fn all_skips_processes_whose_handle_cannot_be_opened() {
    let mut scan = ProcessScan::begin(6).unwrap();
    scan.on_record(record(4, "system"));
    scan.on_open(0); // acquisition failed: skipped, not fatal
    scan.on_record(record(900, "user.exe"));
    scan.on_open(77);
    scan.on_record(record(5, "protected.exe"));
    scan.on_open(INVALID_HANDLE_RAW); // invalid sentinel: skipped too
    scan.on_end();
    let (processes, snapshot) = scan.finish();
    assert_eq!(processes.len(), 1);
    assert_eq!(*processes[0].get_id(), 900);
    assert_eq!(processes[0].get_name(), "user.exe");
    assert_eq!(snapshot.release(), 6);
}

#[test]
fn all_on_empty_enumeration_is_empty() {
    let mut scan = ProcessScan::begin(9).unwrap();
    scan.on_end();
    let (processes, snapshot) = scan.finish();
    assert!(processes.is_empty());
    assert_eq!(snapshot.release(), 9);
}

#[test]
fn scan_refuses_invalid_snapshot_handle() {
    assert!(matches!(
        ProcessScan::begin(INVALID_HANDLE_RAW),
        Err(Error::ResourceUnavailable)
    ));
    assert!(matches!(ProcessScan::begin(0), Err(Error::ResourceUnavailable)));
}

#[test]
fn find_returns_the_matching_process() {
    let mut find = ProcessFind::begin(11, String::from("game.exe")).unwrap();
    assert!(!find.on_record(record(1, "idle.exe")));
    assert!(find.on_record(record(321, "game.exe")));
    find.on_open(55);
    let (result, snapshot) = find.finish();
    let process = result.unwrap();
    assert_eq!(*process.get_id(), 321);
    assert_eq!(process.get_name(), "game.exe");
    assert_eq!(process.get_handle(), 55);
    assert_eq!(snapshot.release(), 11);
}

#[test]
fn find_is_case_sensitive_and_exact() {
    let mut find = ProcessFind::begin(12, String::from("game.exe")).unwrap();
    assert!(!find.on_record(record(1, "Game.exe")));
    assert!(!find.on_record(record(2, "game.exe2")));
    assert!(!find.on_record(record(3, "game.ex")));
    find.on_end();
    let (result, snapshot) = find.finish();
    assert_eq!(result.unwrap_err(), Error::NotFound);
    assert_eq!(snapshot.release(), 12);
}

#[test]
fn find_reports_not_found_only_after_exhaustion() {
    let mut find = ProcessFind::begin(13, String::from("absent.exe")).unwrap();
    assert!(!find.on_record(record(1, "a.exe")));
    assert!(!find.on_record(record(2, "b.exe")));
    find.on_end();
    let (result, snapshot) = find.finish();
    assert_eq!(result.unwrap_err(), Error::NotFound);
    assert_eq!(snapshot.release(), 13);
}

#[test]
fn find_propagates_a_failed_open_for_the_match() {
    // Unlike the full listing's skip policy, a handle that cannot be opened
    // for the very process the caller asked for is a hard failure.
    let mut find = ProcessFind::begin(14, String::from("game.exe")).unwrap();
    assert!(find.on_record(record(321, "game.exe")));
    find.on_open(0);
    let (result, snapshot) = find.finish();
    assert_eq!(result.unwrap_err(), Error::ResourceUnavailable);
    assert_eq!(snapshot.release(), 14);
}

#[test]
fn find_reports_invalid_opened_handle() {
    let mut find = ProcessFind::begin(15, String::from("game.exe")).unwrap();
    assert!(find.on_record(record(321, "game.exe")));
    find.on_open(INVALID_HANDLE_RAW);
    let (result, snapshot) = find.finish();
    assert_eq!(result.unwrap_err(), Error::InvalidData);
    assert_eq!(snapshot.release(), 15);
}

#[test]
fn process_handle_is_released_once_with_its_own_value() {
    let mut scan = ProcessScan::begin(21).unwrap();
    scan.on_record(record(50, "one.exe"));
    scan.on_open(61);
    scan.on_end();
    let (mut processes, snapshot) = scan.finish();
    assert_eq!(snapshot.release(), 21);
    let process = processes.pop().unwrap();
    assert_eq!(process.release(), 61);
}
