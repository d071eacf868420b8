use cural::Error;
use cural::handle::INVALID_HANDLE_RAW;
use cural::module::ModuleRecord;
use cural::resolver::ModuleFind;
use cural::resolver::ModuleScan;

fn record(name: &str, base_address: usize) -> ModuleRecord {
    let mut name_buf: Vec<u8> = name.as_bytes().to_vec();
    name_buf.push(0);
    name_buf.push(0x7f); // padding garbage past the terminator
    ModuleRecord { name_buf, base_address }
}

#[test]
fn get_all_modules_resolves_every_record() {
    let mut scan = ModuleScan::begin(31).unwrap();
    scan.on_first(Some(record("game.exe", 0x0040_0000)));
    scan.on_next(Some(record("KERNEL32.DLL", 0x7ff8_0000)));
    scan.on_next(None);
    let (modules, snapshot) = scan.finish();
    assert_eq!(modules.len(), 2);
    assert_eq!(modules[0].get_name(), "game.exe");
    assert_eq!(*modules[0].get_address(), 0x0040_0000);
    assert_eq!(modules[1].get_name(), "KERNEL32.DLL");
    assert_eq!(*modules[1].get_address(), 0x7ff8_0000);
    assert_eq!(snapshot.release(), 31);
}

#[test]
fn zero_modules_is_an_empty_listing_not_a_failure() {
    let mut scan = ModuleScan::begin(32).unwrap();
    scan.on_first(None);
    let (modules, snapshot) = scan.finish();
    assert!(modules.is_empty());
    assert_eq!(snapshot.release(), 32);
}

#[test]
fn module_listing_refuses_invalid_snapshot_handle() {
    assert!(matches!(
        ModuleScan::begin(INVALID_HANDLE_RAW),
        Err(Error::ResourceUnavailable)
    ));
}

#[test]
fn get_module_finds_a_later_module() {
    let mut find = ModuleFind::begin(33, String::from("USER32.DLL")).unwrap();
    assert!(!find.on_first(Some(record("game.exe", 0x0040_0000))));
    assert!(!find.on_next(Some(record("KERNEL32.DLL", 0x7ff8_0000))));
    assert!(find.on_next(Some(record("USER32.DLL", 0x7ff9_0000))));
    let (result, snapshot) = find.finish();
    let module = result.unwrap();
    assert_eq!(module.get_name(), "USER32.DLL");
    assert_eq!(*module.get_address(), 0x7ff9_0000);
    assert_eq!(snapshot.release(), 33);
}

#[test]
fn get_module_examines_the_very_first_module_too() {
    let mut find = ModuleFind::begin(34, String::from("game.exe")).unwrap();
    assert!(find.on_first(Some(record("game.exe", 0x0040_0000))));
    let (result, snapshot) = find.finish();
    assert_eq!(*result.unwrap().get_address(), 0x0040_0000);
    assert_eq!(snapshot.release(), 34);
}

#[test]
fn get_module_reports_not_found_after_exhaustion() {
    let mut find = ModuleFind::begin(35, String::from("NONEXISTENT.DLL")).unwrap();
    assert!(!find.on_first(Some(record("game.exe", 0x0040_0000))));
    assert!(!find.on_next(Some(record("KERNEL32.DLL", 0x7ff8_0000))));
    assert!(!find.on_next(None));
    let (result, snapshot) = find.finish();
    assert_eq!(result.unwrap_err(), Error::NotFound);
    assert_eq!(snapshot.release(), 35);
}

#[test]
fn get_module_on_zero_modules_reports_not_found() {
    let mut find = ModuleFind::begin(36, String::from("NONEXISTENT.DLL")).unwrap();
    assert!(!find.on_first(None));
    let (result, snapshot) = find.finish();
    assert_eq!(result.unwrap_err(), Error::NotFound);
    assert_eq!(snapshot.release(), 36);
}
