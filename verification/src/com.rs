//! The COM server's decisions: reference counts of its objects, which
//! interfaces the class factory answers for, and the argument checks of
//! the factory and of `DllGetClassObject`.

use vstd::prelude::*;

verus! {

/// A COM object's reference count.
pub struct RefCount {
    count: u32,
}

impl View for RefCount {
    type V = u32;

    closed spec fn view(&self) -> u32 {
        self.count
    }
}

/// What a `Release` did.
#[derive(Clone, Copy, Debug, PartialEq, Eq, Structural)]
pub struct Released {
    /// The count after the release (what `Release` returns).
    pub remaining: u32,
    /// Whether this was the last reference: the object must be destroyed
    /// (and the server's live-object count lowered).
    pub destroy: bool,
}

/// The count after a reference is taken.
pub open spec fn count_after_add_ref(n: u32) -> int {
    n + 1
}

/// The count after a reference is dropped.
pub open spec fn count_after_release(n: u32) -> int {
    n - 1
}

/// Whether dropping a reference from count `n` destroys the object.
pub open spec fn release_destroys(n: u32) -> bool {
    n == 1
}

impl RefCount {
    /// A new object's count: its creator's one reference.
    pub fn new() -> (c: Self)
        ensures
            c@ == 1,
    {
        RefCount { count: 1 }
    }

    /// Take a reference; the new count.
    pub fn add_ref(&mut self) -> (n: u32)
        requires
            old(self)@ < u32::MAX,
        ensures
            n == count_after_add_ref(old(self)@),
            final(self)@ == n,
    {
        self.count = self.count + 1;
        self.count
    }

    /// Drop a reference.
    pub fn release(&mut self) -> (r: Released)
        requires
            old(self)@ > 0,
        ensures
            r.remaining == count_after_release(old(self)@),
            r.destroy == release_destroys(old(self)@),
            final(self)@ == r.remaining,
    {
        self.count = self.count - 1;
        Released { remaining: self.count, destroy: self.count == 0 }
    }
}

/// The interfaces the class factory is asked for.
#[derive(Clone, Copy, Debug, PartialEq, Eq, Structural)]
pub enum RequestedInterface {
    Unknown,
    ClassFactory,
    Other,
}

/// The answer of a COM entry point, before it becomes an `HRESULT`.
#[derive(Clone, Copy, Debug, PartialEq, Eq, Structural)]
pub enum ComAnswer {
    Granted,
    Pointer,
    NoInterface,
    NoAggregation,
    ClassNotAvailable,
    /// Go on: the checks passed and the call's work is to be done.
    Proceed,
}

/// `QueryInterface` of the class factory: a missing output pointer, object
/// or interface id is a pointer error; the factory answers for `IUnknown`
/// and `IClassFactory` (taking a reference) and for nothing else.
pub fn factory_query(has_out: bool, has_this: bool, has_iid: bool, iid: RequestedInterface) -> (a: ComAnswer)
    ensures
        !has_out || !has_this || !has_iid ==> a == ComAnswer::Pointer,
        has_out && has_this && has_iid ==> a == (if iid == RequestedInterface::Other {
            ComAnswer::NoInterface
        } else {
            ComAnswer::Granted
        }),
{
    if !has_out || !has_this || !has_iid {
        ComAnswer::Pointer
    } else if iid == RequestedInterface::Other {
        ComAnswer::NoInterface
    } else {
        ComAnswer::Granted
    }
}

/// `CreateInstance` of the class factory: pointer checks, then aggregation
/// is refused; otherwise the instance is created.
pub fn factory_create(has_out: bool, has_this: bool, has_iid: bool, has_outer: bool) -> (a: ComAnswer)
    ensures
        !has_out || !has_this || !has_iid ==> a == ComAnswer::Pointer,
        has_out && has_this && has_iid && has_outer ==> a == ComAnswer::NoAggregation,
        has_out && has_this && has_iid && !has_outer ==> a == ComAnswer::Proceed,
{
    if !has_out || !has_this || !has_iid {
        ComAnswer::Pointer
    } else if has_outer {
        ComAnswer::NoAggregation
    } else {
        ComAnswer::Proceed
    }
}

/// `DllGetClassObject`: pointer checks, then only the text service's class
/// is available; otherwise a factory is created and queried.
pub fn class_object(has_out: bool, has_clsid: bool, has_iid: bool, is_our_class: bool) -> (a: ComAnswer)
    ensures
        !has_out || !has_clsid || !has_iid ==> a == ComAnswer::Pointer,
        has_out && has_clsid && has_iid && !is_our_class ==> a == ComAnswer::ClassNotAvailable,
        has_out && has_clsid && has_iid && is_our_class ==> a == ComAnswer::Proceed,
{
    if !has_out || !has_clsid || !has_iid {
        ComAnswer::Pointer
    } else if !is_our_class {
        ComAnswer::ClassNotAvailable
    } else {
        ComAnswer::Proceed
    }
}

/// The interface ids the text service is asked for.
#[derive(Clone, Copy, Debug, PartialEq, Eq, Structural)]
pub enum TipIid {
    Unknown,
    TextInputProcessor,
    TextInputProcessorEx,
    KeyEventSink,
    ThreadMgrEventSink,
    CompositionSink,
    DisplayAttributeProvider,
    Other,
}

/// The interface headers of one text-service object.
#[derive(Clone, Copy, Debug, PartialEq, Eq, Structural)]
pub enum TipInterface {
    Primary,
    Key,
    ThreadMgr,
    Composition,
    Display,
}

/// Which header of the object answers for an interface id:
/// `IUnknown` and both processor interfaces share the primary header.
pub open spec fn tip_interface_spec(iid: TipIid) -> Option<TipInterface> {
    match iid {
        TipIid::Unknown | TipIid::TextInputProcessor | TipIid::TextInputProcessorEx => Some(
            TipInterface::Primary,
        ),
        TipIid::KeyEventSink => Some(TipInterface::Key),
        TipIid::ThreadMgrEventSink => Some(TipInterface::ThreadMgr),
        TipIid::CompositionSink => Some(TipInterface::Composition),
        TipIid::DisplayAttributeProvider => Some(TipInterface::Display),
        TipIid::Other => None,
    }
}

/// The header that answers for `iid`, if any.
pub fn tip_interface(iid: TipIid) -> (r: Option<TipInterface>)
    ensures
        r == tip_interface_spec(iid),
{
    match iid {
        TipIid::Unknown | TipIid::TextInputProcessor | TipIid::TextInputProcessorEx => Some(
            TipInterface::Primary,
        ),
        TipIid::KeyEventSink => Some(TipInterface::Key),
        TipIid::ThreadMgrEventSink => Some(TipInterface::ThreadMgr),
        TipIid::CompositionSink => Some(TipInterface::Composition),
        TipIid::DisplayAttributeProvider => Some(TipInterface::Display),
        TipIid::Other => None,
    }
}

/// `QueryInterface` on any of the text service's headers: a missing output
/// pointer, object or interface id is a pointer error; a known interface
/// is handed out with one new reference; any other is refused.
pub fn tip_query(has_out: bool, has_owner: bool, has_iid: bool, iid: TipIid) -> (a: (
    ComAnswer,
    Option<TipInterface>,
))
    ensures
        !has_out || !has_owner || !has_iid ==> a == (ComAnswer::Pointer, None::<TipInterface>),
        has_out && has_owner && has_iid ==> a == (match tip_interface_spec(iid) {
            Some(h) => (ComAnswer::Granted, Some(h)),
            None => (ComAnswer::NoInterface, None),
        }),
{
    if !has_out || !has_owner || !has_iid {
        (ComAnswer::Pointer, None)
    } else {
        match tip_interface(iid) {
            Some(h) => (ComAnswer::Granted, Some(h)),
            None => (ComAnswer::NoInterface, None),
        }
    }
}

/// `IUnknown` is answered by the primary header, so the object has one
/// identity whichever header it is reached through; two interface ids are
/// answered by the same header only when they are equal or both name the
/// processor itself.
pub proof fn lemma_tip_identity(a: TipIid, b: TipIid)
    requires
        tip_interface_spec(a) is Some,
        tip_interface_spec(b) is Some,
    ensures
        tip_interface_spec(TipIid::Unknown) == Some(TipInterface::Primary),
        tip_interface_spec(a) == tip_interface_spec(b) <==> (a == b || (tip_interface_spec(a)
            == Some(TipInterface::Primary) && tip_interface_spec(b) == Some(
            TipInterface::Primary,
        ))),
        tip_interface_spec(a) == Some(TipInterface::Primary) <==> (a == TipIid::Unknown || a
            == TipIid::TextInputProcessor || a == TipIid::TextInputProcessorEx),
{
}

/// A reference taken and then dropped leaves the count as it was, and
/// that release destroys nothing while the object had a reference before.
pub proof fn lemma_add_ref_release(n: u32)
    requires
        n < u32::MAX,
    ensures
        count_after_release(count_after_add_ref(n) as u32) == n,
        n > 0 ==> !release_destroys(count_after_add_ref(n) as u32),
{
}

} // verus!
