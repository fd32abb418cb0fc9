//! Filesystem-level trampoline logic.
//!
//! The engine calls the open slot with a pointer to the registered
//! descriptor's shared state and a pointer to a freshly allocated file-handle
//! buffer; either pointer may be null.  The nullable arguments are modelled as
//! `Option`s: `None` is a null (or foreign-invalid) pointer, `Some` is a
//! pointer whose target the checked recovery yielded.

use vstd::prelude::*;

use crate::FileExt;
use crate::FileState;
use crate::NativeError;
use crate::VFS;
use crate::VFSState;
use crate::SQLITE_CANTOPEN;
use crate::SQLITE_ERROR;
use crate::SQLITE_OK;
use crate::ext_after_open;

verus! {

/// The open trampoline.
///
/// A null filesystem pointer leaves no state to record into, so it is answered
/// with the engine's generic failure code and nothing is touched.  A valid
/// filesystem pointer with an unusable file-handle buffer records a
/// cannot-open error in the last-error slot and propagates that code, without
/// touching the uninitialized extension region.  With both arguments valid,
/// the backend's `x_open` capability runs and the extension region is
/// initialized exactly here, before the success code is returned.
pub fn x_open<T: VFS>(
    vfs_arg: &mut Option<VFSState<T>>,
    file_arg: &mut Option<FileState>,
) -> (code: i32)
    ensures
        (*old(vfs_arg)) is None ==> code == SQLITE_ERROR
            && *final(vfs_arg) == *old(vfs_arg)
            && *final(file_arg) == *old(file_arg),
        (*old(vfs_arg)) matches Some(s) ==> ((*old(file_arg)) is None ==> code == SQLITE_CANTOPEN
            && *final(vfs_arg)
                == Some(s.with_last_error(SQLITE_CANTOPEN, NativeError::InvalidFilePointer))
            && *final(file_arg) == *old(file_arg)),
        (*old(vfs_arg)) is Some && (*old(file_arg)) is Some ==> code == SQLITE_OK
            && *final(vfs_arg) == *old(vfs_arg)
            && (*final(file_arg)) is Some
            && (*final(file_arg))->Some_0.ext_spec() == ext_after_open(
            (*old(file_arg))->Some_0.ext_spec(),
        ),
{
    match vfs_arg {
        None => SQLITE_ERROR,
        Some(state) => match file_arg {
            None => state.set_last_error(SQLITE_CANTOPEN, NativeError::InvalidFilePointer),
            Some(file) => {
                state.backend().x_open();
                file.ext = FileExt::Init;
                SQLITE_OK
            },
        },
    }
}

} // verus!
