//! An adapter that lets the SQLite engine delegate file-system operations to a
//! pluggable storage backend.
//!
//! The engine talks to a registered virtual filesystem only through a callback
//! table and two fixed-layout handle structures; every pointer it hands back may
//! be null or invalid.  This crate verifies the adapter's own logic: the
//! registration protocol, the per-VFS last-error channel, the file-handle
//! extension lifecycle, and the trampoline decision logic that recovers typed
//! state from nullable arguments and translates outcomes into SQLite status
//! codes.  The `unsafe` glue that binds this logic to the real C ABI lives
//! outside the verified library.

use vstd::prelude::*;

pub mod io_methods;
pub mod registry;
pub mod vfs;

verus! {

/// The engine's "success" status code.
pub const SQLITE_OK: i32 = 0;

/// The engine's generic failure status code; also the code its registry
/// reports when a filesystem name is already taken.
pub const SQLITE_ERROR: i32 = 1;

/// The engine's "unable to open the database file" status code.
pub const SQLITE_CANTOPEN: i32 = 14;

/// The capability interface a storage backend implements.  The engine never
/// calls a backend directly: each callback-table slot is a trampoline that
/// recovers the backend and delegates to one of these methods.
pub trait VFS {
    /// Invoked when the engine wants to begin using a file.
    fn x_open(&self);
}

/// The native error recorded beside a status code in the last-error slot.
/// The adapter itself produces only boundary-validity errors; a fuller
/// backend would add its own capability-failure values here.
#[derive(Clone, Copy, Debug, PartialEq, Eq, Structural)]
pub enum NativeError {
    /// A pointer that should have referred to adapter state was null.
    NullPointer,
    /// The engine-allocated file-handle buffer could not be used.
    InvalidFilePointer,
}

/// The error that stands for a null pointer received from the engine.
pub fn null_ptr_error() -> (e: NativeError)
    ensures
        e == NativeError::NullPointer,
{
    NativeError::NullPointer
}

/// The state shared by every callback invocation for one registered virtual
/// filesystem: the backend instance and the last-error slot.  The engine's
/// descriptor holds an opaque pointer to this state for the filesystem's
/// whole lifetime.
pub struct VFSState<T: VFS> {
    pub(crate) vfs: T,
    pub(crate) last_error: Option<(i32, NativeError)>,
}

impl<T: VFS> VFSState<T> {
    /// The backend instance this state carries.
    pub closed spec fn backend_spec(self) -> T {
        self.vfs
    }

    /// The most recently recorded (status code, native error) pair, if any.
    pub closed spec fn last_error_spec(self) -> Option<(i32, NativeError)> {
        self.last_error
    }

    /// `self` with the last-error slot overwritten by `(code, error)`.
    pub closed spec fn with_last_error(self, code: i32, error: NativeError) -> VFSState<T> {
        VFSState { last_error: Some((code, error)), ..self }
    }

    /// Fresh state for a newly registered filesystem: the backend is stored
    /// and no error has been recorded yet.
    pub fn new(vfs: T) -> (s: VFSState<T>)
        ensures
            s.backend_spec() == vfs,
            s.last_error_spec() is None,
    {
        VFSState { vfs, last_error: None }
    }

    /// Record `(code, error)` in the last-error slot, overwriting whatever was
    /// there, and return `code` unchanged so a call site can record and
    /// propagate the status code in one expression.
    pub fn set_last_error(&mut self, code: i32, error: NativeError) -> (r: i32)
        ensures
            r == code,
            *final(self) == old(self).with_last_error(code, error),
    {
        self.last_error = Some((code, error));
        code
    }

    /// A read of the last-error slot, for diagnostic retrieval.
    pub fn last_error(&self) -> (r: Option<(i32, NativeError)>)
        ensures
            r == self.last_error_spec(),
    {
        self.last_error
    }

    /// A read of the backend instance.
    pub fn backend(&self) -> (r: &T)
        ensures
            *r == self.backend_spec(),
    {
        &self.vfs
    }
}

/// The last-error slot is last-write-wins: recording a second pair leaves the
/// state exactly as if only the second pair had ever been recorded.
pub proof fn lemma_last_error_last_write_wins<T: VFS>(
    s: VFSState<T>,
    code1: i32,
    error1: NativeError,
    code2: i32,
    error2: NativeError,
)
    ensures
        s.with_last_error(code1, error1).with_last_error(code2, error2) == s.with_last_error(
            code2,
            error2,
        ),
        s.with_last_error(code1, error1).with_last_error(code2, error2).last_error_spec() == Some(
            (code2, error2),
        ),
{
}

/// The lifecycle of the adapter-owned extension region of a file handle.  The
/// engine allocates the handle as a raw buffer, so the extension is
/// uninitialized until the open trampoline writes it, and it is finalized by
/// the close trampoline.
#[derive(Clone, Copy, Debug, PartialEq, Eq, Structural)]
pub enum FileExt {
    /// The engine has allocated the buffer but open has not run: the region
    /// must not be read.
    Uninit,
    /// Open has written the shared VFS-state reference into the region.
    Init,
    /// Close has finalized (dropped) the region's contents.
    Closed,
}

/// One open file: the engine-owned header is interpreted by the engine alone,
/// so the adapter's view of the handle is its extension region.
pub struct FileState {
    pub(crate) ext: FileExt,
}

impl FileState {
    /// The lifecycle stage of the extension region.
    pub closed spec fn ext_spec(self) -> FileExt {
        self.ext
    }

    /// A handle as the engine hands it to the open trampoline: a buffer whose
    /// extension region is still uninitialized.
    pub fn new() -> (f: FileState)
        ensures
            f.ext_spec() == FileExt::Uninit,
    {
        FileState { ext: FileExt::Uninit }
    }

    /// A read of the lifecycle stage.
    pub fn ext(&self) -> (e: FileExt)
        ensures
            e == self.ext_spec(),
    {
        self.ext
    }
}

/// What the open trampoline does to the extension region: it writes the
/// shared-state reference, making the region initialized.
pub open spec fn ext_after_open(e: FileExt) -> FileExt {
    FileExt::Init
}

/// What the close trampoline does to the extension region: an initialized
/// region is finalized; any other region is refused and left untouched.
pub open spec fn ext_after_close(e: FileExt) -> FileExt {
    if e is Init {
        FileExt::Closed
    } else {
        e
    }
}

/// The ABI variant of the descriptor and of the callback table built here.
pub const VFS_VERSION: i32 = 2;

/// The maximum path length advertised in the descriptor.
pub const MAX_PATHNAME: i32 = 512;

/// Why registration failed.
#[derive(Clone, Copy, Debug, PartialEq, Eq, Structural)]
pub enum RegisterError {
    /// The requested name holds an interior nul character; the value is the
    /// position of the first one.  Such a name cannot be handed to the engine,
    /// which takes a null-terminated string, so no registration call is made.
    Nul(usize),
    /// The engine's registration call failed with this status code.
    Register(i32),
}

/// Whether a name holds an interior nul character.
pub open spec fn has_nul(s: Seq<char>) -> bool {
    exists|i: int| 0 <= i < s.len() && s[i] == '\0'
}

/// Whether `p` is the position of the first nul character of `s`.
pub open spec fn first_nul_is(s: Seq<char>, p: int) -> bool {
    &&& 0 <= p < s.len()
    &&& s[p] == '\0'
    &&& forall|j: int| 0 <= j < p ==> s[j] != '\0'
}

/// Register a filesystem under `name`, with `vfs` as its backend, optionally
/// as the process default.
///
/// The name is first checked for interior nul characters; an offending name
/// is refused with the `Nul` error before anything reaches the engine.  A
/// valid name is stored permanently, wrapped with fresh shared state into a
/// descriptor that advertises the handle size the engine must allocate and
/// the open and close slots, and handed to the engine's registry.  The
/// registry's verdict decides the result: its success code yields `Ok`, any
/// other code is surfaced as the `Register` error, with the registry — and
/// so the engine — left exactly as it was.
pub fn register<T: VFS>(
    reg: &mut registry::Registry<T>,
    name: &str,
    as_default: bool,
    vfs: T,
) -> (r: Result<(), RegisterError>)
    requires
        old(reg).wf(),
    ensures
        final(reg).wf(),
        r is Ok <==> !has_nul(name@) && !old(reg).contains_name(name@),
        has_nul(name@) ==> ((r matches Err(RegisterError::Nul(p)) && first_nul_is(name@, p as int))
            && *final(reg) == *old(reg)),
        !has_nul(name@) && old(reg).contains_name(name@) ==> r == Err::<(), RegisterError>(
            RegisterError::Register(SQLITE_ERROR),
        ) && *final(reg) == *old(reg),
        r is Ok ==> final(reg).name_seq() == old(reg).name_seq().push(name@)
            && final(reg).contains_name(name@)
            && final(reg).state_at(old(reg).len_spec() as int).backend_spec() == vfs
            && final(reg).state_at(old(reg).len_spec() as int).last_error_spec() is None
            && final(reg).desc_at(old(reg).len_spec() as int).name@ == name@
            && final(reg).desc_at(old(reg).len_spec() as int).version == VFS_VERSION
            && final(reg).desc_at(old(reg).len_spec() as int).max_pathname == MAX_PATHNAME
            && final(reg).desc_at(old(reg).len_spec() as int).handle_size as nat
                == vstd::layout::size_of::<FileState>()
            && final(reg).desc_at(old(reg).len_spec() as int).has_open
            && final(reg).desc_at(old(reg).len_spec() as int).has_close
            && (as_default ==> final(reg).default_spec() == Some(old(reg).len_spec() as int))
            && (!as_default ==> final(reg).default_spec() == old(reg).default_spec()),
        r is Ok ==> forall|j: int|
            0 <= j < old(reg).len_spec() ==> final(reg).desc_at(j) == old(reg).desc_at(j)
                && final(reg).state_at(j) == old(reg).state_at(j),
{
    // The engine takes the name as a null-terminated string, so an interior
    // nul character makes the name unusable: refuse it before the engine is
    // involved, naming the first offending position.
    let stored = match scan_name(name) {
        Ok(v) => v,
        Err(p) => {
            return Err(RegisterError::Nul(p));
        },
    };

    // The callback table provides open and close; every other slot is left
    // out and so reported to the engine as unsupported.  The descriptor
    // advertises exactly the bytes one file handle needs, so the engine
    // allocates the extension region along with the header.
    let desc = registry::Descriptor {
        version: VFS_VERSION,
        handle_size: core::mem::size_of::<FileState>(),
        max_pathname: MAX_PATHNAME,
        name: stored,
        has_open: true,
        has_close: true,
    };
    let state = VFSState::new(vfs);
    let code = reg.install(desc, as_default, state);
    if code != SQLITE_OK {
        return Err(RegisterError::Register(code));
    }
    proof {
        assert(reg.name_seq()[old(reg).len_spec() as int] == name@);
    }
    Ok(())
}

/// Check a requested name for interior nul characters, copying it into the
/// permanently owned form the descriptor keeps: the copy comes back exactly
/// when the name has no nul, and otherwise the position of the first one.
fn scan_name(name: &str) -> (r: Result<Vec<char>, usize>)
    ensures
        r is Ok <==> !has_nul(name@),
        r matches Ok(v) ==> v@ == name@,
        r matches Err(p) ==> first_nul_is(name@, p as int),
{
    let n = name.unicode_len();
    let mut stored: Vec<char> = Vec::new();
    let mut i: usize = 0;
    while i < n
        invariant
            i <= n,
            n == name@.len(),
            stored@ == name@.subrange(0, i as int),
            forall|j: int| 0 <= j < i ==> name@[j] != '\0',
        decreases n - i,
    {
        let c = name.get_char(i);
        if c == '\0' {
            return Err(i);
        }
        stored.push(c);
        proof {
            assert(stored@ =~= name@.subrange(0, i + 1 as int));
        }
        i += 1;
    }
    proof {
        assert(stored@ =~= name@);
    }
    Ok(stored)
}

} // verus!
