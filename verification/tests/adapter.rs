use std::cell::Cell;

use sqlite_vfs::io_methods::x_close;
use sqlite_vfs::null_ptr_error;
use sqlite_vfs::register;
use sqlite_vfs::registry::Registry;
use sqlite_vfs::vfs::x_open;
use sqlite_vfs::FileExt;
use sqlite_vfs::FileState;
use sqlite_vfs::NativeError;
use sqlite_vfs::RegisterError;
use sqlite_vfs::VFSState;
use sqlite_vfs::MAX_PATHNAME;
use sqlite_vfs::SQLITE_CANTOPEN;
use sqlite_vfs::SQLITE_ERROR;
use sqlite_vfs::SQLITE_OK;
use sqlite_vfs::VFS;
use sqlite_vfs::VFS_VERSION;

struct DummyVFS;

impl VFS for DummyVFS {
    fn x_open(&self) {}
}

struct CountingVFS {
    opens: Cell<u32>,
}

impl VFS for CountingVFS {
    fn x_open(&self) {
        self.opens.set(self.opens.get() + 1);
    }
}

#[test]
fn register_valid_name_is_discoverable() {
    let mut reg: Registry<DummyVFS> = Registry::new();
    assert_eq!(reg.len(), 0);
    assert!(reg.find("dummyvfs").is_none());

    let r = register(&mut reg, "dummyvfs", false, DummyVFS);
    assert!(r.is_ok());
    assert_eq!(reg.len(), 1);
    assert_eq!(reg.find("dummyvfs"), Some(0));
    assert_eq!(reg.default_index(), None);

    let desc = reg.descriptor(0);
    assert_eq!(desc.version, VFS_VERSION);
    assert_eq!(desc.max_pathname, MAX_PATHNAME);
    assert_eq!(desc.handle_size, std::mem::size_of::<FileState>());
    assert!(desc.has_open);
    assert!(desc.has_close);
    assert_eq!(desc.name, "dummyvfs".chars().collect::<Vec<char>>());

    assert_eq!(reg.last_error_of(0), None);
}

#[test]
fn register_nul_name_fails_without_registration() {
    let mut reg: Registry<DummyVFS> = Registry::new();
    let r = register(&mut reg, "badname\0x", false, DummyVFS);
    assert_eq!(r, Err(RegisterError::Nul(7)));

    // Nothing was handed to the engine: no descriptor is visible under any
    // prefix of the requested name.
    assert_eq!(reg.len(), 0);
    assert!(reg.find("badname\0x").is_none());
    assert!(reg.find("badname").is_none());
    assert!(reg.find("b").is_none());
    assert_eq!(reg.default_index(), None);
}

#[test]
fn register_nul_name_reports_first_position() {
    let mut reg: Registry<DummyVFS> = Registry::new();
    let r = register(&mut reg, "\0a\0b", true, DummyVFS);
    assert_eq!(r, Err(RegisterError::Nul(0)));
    assert_eq!(reg.default_index(), None);
}

#[test]
fn register_duplicate_name_keeps_first_usable() {
    let mut reg: Registry<DummyVFS> = Registry::new();
    assert!(register(&mut reg, "memfs", false, DummyVFS).is_ok());

    let second = register(&mut reg, "memfs", false, DummyVFS);
    assert_eq!(second, Err(RegisterError::Register(SQLITE_ERROR)));

    // The first registration is untouched and still works end to end.
    assert_eq!(reg.len(), 1);
    assert_eq!(reg.find("memfs"), Some(0));
    let mut file = Some(FileState::new());
    assert_eq!(reg.open_file(0, &mut file), SQLITE_OK);
    assert_eq!(file.unwrap().ext(), FileExt::Init);
}

#[test]
fn register_distinct_names_coexist() {
    let mut reg: Registry<DummyVFS> = Registry::new();
    assert!(register(&mut reg, "first", false, DummyVFS).is_ok());
    assert!(register(&mut reg, "second", true, DummyVFS).is_ok());
    assert_eq!(reg.len(), 2);
    assert_eq!(reg.find("first"), Some(0));
    assert_eq!(reg.find("second"), Some(1));
    assert_eq!(reg.default_index(), Some(1));
}

#[test]
fn set_last_error_is_last_write_wins() {
    let mut state = VFSState::new(DummyVFS);
    assert_eq!(state.last_error(), None);

    let first = state.set_last_error(SQLITE_ERROR, NativeError::NullPointer);
    assert_eq!(first, SQLITE_ERROR);
    assert_eq!(
        state.last_error(),
        Some((SQLITE_ERROR, NativeError::NullPointer))
    );

    let second = state.set_last_error(SQLITE_CANTOPEN, NativeError::InvalidFilePointer);
    assert_eq!(second, SQLITE_CANTOPEN);
    // Only the second pair is observable.
    assert_eq!(
        state.last_error(),
        Some((SQLITE_CANTOPEN, NativeError::InvalidFilePointer))
    );
}

#[test]
fn open_then_close_finalizes_exactly_once() {
    let mut vfs_arg = Some(VFSState::new(DummyVFS));
    let mut file_arg = Some(FileState::new());
    assert_eq!(file_arg.as_ref().unwrap().ext(), FileExt::Uninit);

    // Close before open must not finalize the uninitialized extension.
    assert_eq!(x_close(&mut file_arg), SQLITE_ERROR);
    assert_eq!(file_arg.as_ref().unwrap().ext(), FileExt::Uninit);

    assert_eq!(x_open(&mut vfs_arg, &mut file_arg), SQLITE_OK);
    assert_eq!(file_arg.as_ref().unwrap().ext(), FileExt::Init);

    assert_eq!(x_close(&mut file_arg), SQLITE_OK);
    assert_eq!(file_arg.as_ref().unwrap().ext(), FileExt::Closed);

    // A second close reports failure and does not finalize again.
    assert_eq!(x_close(&mut file_arg), SQLITE_ERROR);
    assert_eq!(file_arg.as_ref().unwrap().ext(), FileExt::Closed);
}

#[test]
fn trampolines_survive_null_pointers() {
    assert_eq!(null_ptr_error(), NativeError::NullPointer);

    // Null filesystem pointer: generic failure, nothing touched.
    let mut no_vfs: Option<VFSState<DummyVFS>> = None;
    let mut no_file: Option<FileState> = None;
    assert_eq!(x_open(&mut no_vfs, &mut no_file), SQLITE_ERROR);

    let mut file_arg = Some(FileState::new());
    assert_eq!(x_open(&mut no_vfs, &mut file_arg), SQLITE_ERROR);
    assert_eq!(file_arg.as_ref().unwrap().ext(), FileExt::Uninit);

    // Valid filesystem pointer, null file handle: the cannot-open code is
    // both returned and recorded in the last-error slot.
    let mut vfs_arg = Some(VFSState::new(DummyVFS));
    assert_eq!(x_open(&mut vfs_arg, &mut no_file), SQLITE_CANTOPEN);
    assert_eq!(
        vfs_arg.as_ref().unwrap().last_error(),
        Some((SQLITE_CANTOPEN, NativeError::InvalidFilePointer))
    );

    // Null file handle at close: generic failure.
    assert_eq!(x_close(&mut no_file), SQLITE_ERROR);
}

#[test]
fn open_file_with_null_handle_records_cantopen() {
    let mut reg: Registry<DummyVFS> = Registry::new();
    assert!(register(&mut reg, "memfs", false, DummyVFS).is_ok());
    let mut no_file: Option<FileState> = None;
    assert_eq!(reg.open_file(0, &mut no_file), SQLITE_CANTOPEN);
    assert_eq!(
        reg.last_error_of(0),
        Some((SQLITE_CANTOPEN, NativeError::InvalidFilePointer))
    );
}

#[test]
fn memfs_default_two_opens_reach_backend_twice() {
    let mut reg: Registry<CountingVFS> = Registry::new();
    let backend = CountingVFS { opens: Cell::new(0) };
    assert!(register(&mut reg, "memfs", true, backend).is_ok());
    assert_eq!(reg.default_index(), Some(0));
    assert_eq!(reg.find("memfs"), Some(0));

    let mut file_a = Some(FileState::new());
    let mut file_b = Some(FileState::new());
    assert_eq!(reg.open_file(0, &mut file_a), SQLITE_OK);
    assert_eq!(reg.open_file(0, &mut file_b), SQLITE_OK);

    // The backend's open capability ran once per file, and neither handle's
    // extension was corrupted by the other open.
    assert_eq!(reg.backend(0).opens.get(), 2);
    assert_eq!(file_a.unwrap().ext(), FileExt::Init);
    assert_eq!(file_b.unwrap().ext(), FileExt::Init);
}
