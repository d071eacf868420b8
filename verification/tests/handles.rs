use cural::Error;
use cural::handle::Handle;
use cural::handle::INVALID_HANDLE_RAW;
use cural::module::ModuleRecord;
use cural::process::ProcessRecord;
use cural::process::Process;
use cural::registry::ProcessScan;
use cural::resolver::ModuleScan;

#[test]
fn acquire_refuses_the_invalid_sentinel_and_null() {
    assert!(matches!(
        Handle::acquire(INVALID_HANDLE_RAW),
        Err(Error::ResourceUnavailable)
    ));
    assert!(matches!(Handle::acquire(0), Err(Error::ResourceUnavailable)));
}

#[test]
fn acquire_then_release_hands_back_the_same_raw_value() {
    let handle = Handle::acquire(12345).unwrap();
    assert_eq!(handle.raw(), 12345);
    assert_eq!(handle.release(), 12345);
}

#[test]
fn is_x64_propagates_the_os_error_code() {
    assert_eq!(Process::is_x64(0, 0, 87), Err(Error::Os(87)));
    assert_eq!(Process::is_x64(1, 0, 87), Ok(true));
    assert_eq!(Process::is_x64(1, 1, 87), Ok(false));
    assert_eq!(Process::is_x64(1, 2, 87), Ok(true));
}

#[test]
fn repeated_snapshot_sessions_release_each_handle_exactly_once() {
    // Handle-budget stress: every session, process and module flavor alike,
    // ends by handing its snapshot handle back for release, on the empty,
    // the populated and the abandoned path.
    for i in 0..100_000usize {
        let raw = (i % 1000) + 1;
        let mut scan = ProcessScan::begin(raw).unwrap();
        if i % 2 == 0 {
            scan.on_record(ProcessRecord { id: 1, name_buf: vec![b'p', 0] });
            let opened = if i % 7 == 0 { 99 } else { 0 };
            scan.on_open(opened);
        }
        scan.on_end();
        let (processes, snapshot) = scan.finish();
        assert_eq!(snapshot.release(), raw);
        for process in processes {
            assert_eq!(process.release(), 99);
        }

        let mut modules = ModuleScan::begin(raw).unwrap();
        if i % 3 == 0 {
            modules.on_first(Some(ModuleRecord { name_buf: vec![b'm', 0], base_address: i }));
            modules.on_next(None);
        } else {
            modules.on_first(None);
        }
        let (_, snapshot) = modules.finish();
        assert_eq!(snapshot.release(), raw);
    }
}
