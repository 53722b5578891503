//! The three kinds of native handle and what the binding decides about them.
//!
//! A handle is held as the address the native library returned, with zero
//! for the null handle. Every function here takes the plain results of the
//! native calls it stands for, so that the caller makes the call and this
//! module decides what the result means.

use vstd::prelude::*;
use vstd::utf8::valid_utf8;
use crate::error::{Error, ZfsError};
use crate::kinds::{ZPoolState, ZfsType};
use crate::string::{nul_free, SafeString};

verus! {

/// The unsigned integer with the same 32 bits as `raw`, in two's complement.
pub open spec fn as_unsigned(raw: i32) -> u32 {
    if raw >= 0 {
        raw as u32
    } else {
        (raw + 0x1_0000_0000) as u32
    }
}

/// The handles that a sequence of datasets holds, in the same order.
pub open spec fn handles_of(datasets: Seq<ZfsDataset>) -> Seq<usize> {
    datasets.map_values(|d: ZfsDataset| d@)
}

/// An open session of the native library. Pools and datasets are looked up
/// through it.
#[derive(Debug)]
pub struct LibZfs {
    handle: usize,
    unknown: u32,
}

impl View for LibZfs {
    type V = usize;

    closed spec fn view(&self) -> usize {
        self.handle
    }
}

impl LibZfs {
    #[verifier::type_invariant]
    spec fn wf(self) -> bool {
        self.handle != 0
    }

    /// The error code that the session's error state holds when the library
    /// had nothing specific to report.
    pub closed spec fn unknown_code(self) -> u32 {
        self.unknown
    }

    /// What a lookup returns, given the handle that the native open call
    /// gave, the session's last error and the operating system's error
    /// number: the handle if it is not null, and otherwise the classified
    /// failure.
    pub open spec fn resolved(self, ptr: usize, last: ZfsError, os_error: i32) -> Result<
        usize,
        Error,
    > {
        if ptr != 0 {
            Ok(ptr)
        } else {
            Err(Error::classified(last, self.unknown_code(), os_error))
        }
    }

    /// Takes ownership of the session that the native initializer returned.
    /// A null handle means that initialization failed; no session exists
    /// then whose error state could be asked, so the failure is the
    /// operating system's.
    ///
    /// `unknown` is the native code for an unspecific error, which the
    /// session uses to classify failed lookups.
    pub fn new(handle: usize, unknown: u32, os_error: i32) -> (r: Result<LibZfs, Error>)
        ensures
            handle == 0 ==> r == Err::<LibZfs, Error>(Error::Sys(os_error)),
            handle != 0 ==> (r matches Ok(session) && session@ == handle
                && session.unknown_code() == unknown),
    {
        if handle == 0 {
            Err(Error::Sys(os_error))
        } else {
            Ok(LibZfs { handle, unknown })
        }
    }

    /// The native session handle, which is never null.
    pub fn handle(&self) -> (h: usize)
        ensures
            h == self@,
            h != 0,
    {
        proof {
            use_type_invariant(self);
        }
        self.handle
    }

    /// Wraps the pool that the native open call returned, or says why there
    /// is none.
    pub fn pool_by_name(&self, opened: usize, last: ZfsError, os_error: i32) -> (r: Result<
        ZPool,
        Error,
    >)
        ensures
            match self.resolved(opened, last, os_error) {
                Ok(h) => r matches Ok(pool) && pool@ == h,
                Err(e) => r == Err::<ZPool, Error>(e),
            },
    {
        match self.ptr_or_err(opened, last, os_error) {
            Ok(handle) => Ok(ZPool { handle }),
            Err(e) => Err(e),
        }
    }

    /// Wraps the dataset that the native open call returned, or says why
    /// there is none.
    pub fn dataset_by_name(&self, opened: usize, last: ZfsError, os_error: i32) -> (r: Result<
        ZfsDataset,
        Error,
    >)
        ensures
            match self.resolved(opened, last, os_error) {
                Ok(h) => r matches Ok(dataset) && dataset@ == h,
                Err(e) => r == Err::<ZfsDataset, Error>(e),
            },
    {
        match self.ptr_or_err(opened, last, os_error) {
            Ok(handle) => Ok(ZfsDataset { handle }),
            Err(e) => Err(e),
        }
    }

    /// Decides whether a native open call succeeded. A handle that is not
    /// null is returned as it is. For a null handle the failure is
    /// classified from the session's last error and the operating system's
    /// error number.
    pub fn ptr_or_err(&self, ptr: usize, last: ZfsError, os_error: i32) -> (r: Result<
        usize,
        Error,
    >)
        ensures
            r == self.resolved(ptr, last, os_error),
    {
        if ptr == 0 {
            Err(Error::classify(last, self.unknown, os_error))
        } else {
            Ok(ptr)
        }
    }
}

/// An open storage pool.
#[derive(Debug)]
pub struct ZPool {
    handle: usize,
}

impl View for ZPool {
    type V = usize;

    closed spec fn view(&self) -> usize {
        self.handle
    }
}

impl ZPool {
    /// The native pool handle.
    pub fn handle(&self) -> (h: usize)
        ensures
            h == self@,
    {
        self.handle
    }

    /// The pool's state, from the integer that the native query returned.
    /// The query is declared to return a signed integer; its bits are those
    /// of a state code.
    pub fn get_state(&self, raw: i32) -> (state: ZPoolState)
        requires
            ZPoolState::defined(as_unsigned(raw)),
        ensures
            ZPoolState::of_code(as_unsigned(raw)) == Some(state),
    {
        ZPoolState::from(to_unsigned(raw))
    }

    /// The pool's name, from the bytes of the C string that the native
    /// query returned.
    pub fn get_name(&self, raw: Vec<u8>) -> (name: SafeString)
        requires
            valid_utf8(raw@),
            nul_free(raw@),
        ensures
            name.bytes() == raw@,
    {
        read_name(raw)
    }
}

/// An open dataset: a filesystem, volume, snapshot or bookmark.
#[derive(Debug)]
pub struct ZfsDataset {
    handle: usize,
}

impl View for ZfsDataset {
    type V = usize;

    closed spec fn view(&self) -> usize {
        self.handle
    }
}

impl ZfsDataset {
    /// The native dataset handle.
    pub fn handle(&self) -> (h: usize)
        ensures
            h == self@,
    {
        self.handle
    }

    /// The dataset's kind, from the code that the native query returned.
    pub fn get_type(&self, raw: u32) -> (kind: ZfsType)
        requires
            ZfsType::defined(raw),
        ensures
            ZfsType::of_code(raw) == Some(kind),
    {
        ZfsType::from(raw)
    }

    /// The dataset's name, from the bytes of the C string that the native
    /// query returned.
    pub fn get_name(&self, raw: Vec<u8>) -> (name: SafeString)
        requires
            valid_utf8(raw@),
            nul_free(raw@),
        ensures
            name.bytes() == raw@,
    {
        read_name(raw)
    }

    /// Wraps the handle of the pool that the dataset belongs to, as the
    /// native query returned it.
    pub fn get_pool(&self, pool: usize) -> (owner: ZPool)
        ensures
            owner@ == pool,
    {
        ZPool { handle: pool }
    }

    /// The name of the pool that the dataset belongs to, from the bytes of
    /// the C string that the native query returned.
    pub fn get_pool_name(&self, raw: Vec<u8>) -> (name: SafeString)
        requires
            valid_utf8(raw@),
            nul_free(raw@),
        ensures
            name.bytes() == raw@,
    {
        read_name(raw)
    }

    /// The snapshots of the dataset, from the handles that the native walk
    /// visited: one owned dataset for each, in the order of the visits.
    pub fn get_snapshots(&self, visited: &Vec<usize>) -> (snapshots: Vec<ZfsDataset>)
        ensures
            handles_of(snapshots@) == visited@,
    {
        collect(visited)
    }

    /// The snapshots of the dataset, from the handles that the native walk
    /// by creation time visited: one owned dataset for each, in the order
    /// of the visits, so oldest first.
    pub fn get_snapshots_ordered(&self, visited: &Vec<usize>) -> (snapshots: Vec<ZfsDataset>)
        ensures
            handles_of(snapshots@) == visited@,
    {
        collect(visited)
    }

    /// The filesystems directly under the dataset, from the handles that
    /// the native walk visited: one owned dataset for each, in the order of
    /// the visits.
    pub fn get_filesystems(&self, visited: &Vec<usize>) -> (filesystems: Vec<ZfsDataset>)
        ensures
            handles_of(filesystems@) == visited@,
    {
        collect(visited)
    }

    /// The children of the dataset, of whatever kind, from the handles that
    /// the native walk visited: one owned dataset for each, in the order of
    /// the visits.
    pub fn get_children(&self, visited: &Vec<usize>) -> (datasets: Vec<ZfsDataset>)
        ensures
            handles_of(datasets@) == visited@,
    {
        collect(visited)
    }

    /// Wraps the duplicate of this dataset's handle that the native library
    /// made. The duplicate is an owner of its own.
    pub fn clone(&self, duplicate: usize) -> (copy: ZfsDataset)
        ensures
            copy@ == duplicate,
    {
        ZfsDataset { handle: duplicate }
    }
}

/// The step of a native walk: takes ownership of the visited handle, puts
/// it at the end of what was collected so far, and returns zero, which tells
/// the walk to go on.
pub fn zfs_iter_collect(handle: usize, collected: &mut Vec<ZfsDataset>) -> (go_on: i32)
    ensures
        go_on == 0,
        handles_of(final(collected)@) == handles_of(old(collected)@).push(handle),
        final(collected)@.take(old(collected)@.len() as int) == old(collected)@,
{
    collected.push(ZfsDataset { handle });
    proof {
        assert(handles_of(collected@) =~= handles_of(old(collected)@).push(handle));
        assert(collected@.take(old(collected)@.len() as int) =~= old(collected)@);
    }
    0
}

/// Replays a walk: runs the step on each visited handle in turn, for as
/// long as the step says to go on. The step always does, so every visit is
/// collected.
fn collect(visited: &Vec<usize>) -> (collected: Vec<ZfsDataset>)
    ensures
        handles_of(collected@) == visited@,
{
    let mut collected: Vec<ZfsDataset> = Vec::new();
    let mut go_on: i32 = 0;
    let mut i: usize = 0;
    assert(handles_of(collected@) =~= visited@.take(0));
    while go_on == 0 && i < visited.len()
        invariant
            go_on == 0,
            i <= visited.len(),
            handles_of(collected@) == visited@.take(i as int),
        decreases visited.len() - i,
    {
        go_on = zfs_iter_collect(visited[i], &mut collected);
        assert(visited@.take(i as int).push(visited@[i as int]) =~= visited@.take(i + 1));
        i += 1;
    }
    assert(visited@.take(i as int) =~= visited@);
    collected
}

/// The bits of a signed integer, read as an unsigned one.
fn to_unsigned(raw: i32) -> (bits: u32)
    ensures
        bits == as_unsigned(raw),
{
    if raw >= 0 {
        raw as u32
    } else {
        (raw - i32::MIN) as u32 + 0x8000_0000
    }
}

/// Reads a name that is known to be UTF-8 text without a NUL byte.
fn read_name(raw: Vec<u8>) -> (name: SafeString)
    requires
        valid_utf8(raw@),
        nul_free(raw@),
    ensures
        name.bytes() == raw@,
{
    match SafeString::decode(raw) {
        Ok(name) => name,
        Err(_) => unreached(),
    }
}

} // verus!
