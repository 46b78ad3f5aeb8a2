//! COM server bookkeeping: the live-object count that decides whether the
//! DLL may unload, and the registry paths of the TIP's class.

use vstd::prelude::*;
use vstd::string::StringExecFns;

verus! {

/// The class id of the TIP, in registry form.
pub const CHEIME_TIP_CLSID_STR: &'static str = "{B5F1C9A8-3E7D-4A15-AE2D-F89C1B6E3A07}";

pub const CHEIME_TIP_NAME: &'static str = "CheIME TIP";

/// Count of live COM objects of the DLL.
#[derive(Debug, Default)]
pub struct ObjectCount {
    live: usize,
}

impl View for ObjectCount {
    type V = usize;

    closed spec fn view(&self) -> usize {
        self.live
    }
}

/// `n + 1`, wrapping at the end of the range as an atomic counter does.
pub open spec fn wrapping_inc(n: usize) -> usize {
    if n == usize::MAX {
        0
    } else {
        (n + 1) as usize
    }
}

/// `n - 1`, wrapping at zero as an atomic counter does.
pub open spec fn wrapping_dec(n: usize) -> usize {
    if n == 0 {
        usize::MAX
    } else {
        (n - 1) as usize
    }
}

impl ObjectCount {
    pub fn new() -> (count: Self)
        ensures
            count@ == 0,
    {
        ObjectCount { live: 0 }
    }
}

pub fn increment_object_count(count: &mut ObjectCount)
    ensures
        final(count)@ == wrapping_inc(old(count)@),
{
    count.live = if count.live == usize::MAX {
        0
    } else {
        count.live + 1
    };
}

pub fn decrement_object_count(count: &mut ObjectCount)
    ensures
        final(count)@ == wrapping_dec(old(count)@),
{
    count.live = if count.live == 0 {
        usize::MAX
    } else {
        count.live - 1
    };
}

pub fn live_object_count(count: &ObjectCount) -> (n: usize)
    ensures
        n == count@,
{
    count.live
}

/// Reset the count to zero.
pub fn reset_object_count(count: &mut ObjectCount)
    ensures
        final(count)@ == 0,
{
    count.live = 0;
}

/// The DLL may unload only when no object is live and no server lock is held.
pub fn can_unload_now(live_objects: usize, server_locks: usize) -> (b: bool)
    ensures
        b == (live_objects == 0 && server_locks == 0),
{
    live_objects == 0 && server_locks == 0
}

/// The registry subkey of the TIP's class.
pub fn clsid_registry_path() -> (path: String)
    ensures
        path@ == "Software\\Classes\\CLSID\\"@ + CHEIME_TIP_CLSID_STR@,
{
    let mut path = String::from_str("Software\\Classes\\CLSID\\");
    path.append(CHEIME_TIP_CLSID_STR);
    path
}

/// The InprocServer32 subkey of the TIP's class.
pub fn inproc_server_registry_path() -> (path: String)
    ensures
        path@ == "Software\\Classes\\CLSID\\"@ + CHEIME_TIP_CLSID_STR@ + "\\InprocServer32"@,
{
    let mut path = clsid_registry_path();
    path.append("\\InprocServer32");
    path
}

/// Incrementing then decrementing the count restores it.
pub proof fn lemma_increment_decrement(n: usize)
    ensures
        wrapping_dec(wrapping_inc(n)) == n,
        wrapping_inc(wrapping_dec(n)) == n,
{
}

} // verus!
