//! The enumerator of the text service's display attributes. There is one
//! attribute, the inline preedit's; the enumerator yields it once until
//! reset.

use vstd::prelude::*;

verus! {

/// The display-attribute provider's one attribute.
#[derive(Clone, Copy, Debug, PartialEq, Eq, Structural)]
pub struct PreeditDisplayAttribute;

/// Why an enumerator call is refused.
#[derive(Clone, Copy, Debug, PartialEq, Eq, Structural)]
pub enum EnumError {
    /// A pointer the call needs is null.
    NullPointer,
}

/// What a call of `next` does.
#[derive(Clone, Copy, Debug, PartialEq, Eq, Structural)]
pub struct NextResult {
    /// How many attributes are handed out (0 or 1).
    pub produced: u32,
    /// Whether as many were handed out as asked for (`S_OK`; else `S_FALSE`).
    pub complete: bool,
}

/// How many attributes a `next` of `count` hands out, the attribute having
/// been handed out already or not.
pub open spec fn next_produced(yielded: bool, count: u32) -> u32 {
    if count > 0 && !yielded {
        1
    } else {
        0
    }
}

/// Hands out the preedit attribute once.
pub struct AttributeEnumerator {
    yielded: bool,
}

impl View for AttributeEnumerator {
    type V = bool;

    /// Whether the attribute was handed out already.
    closed spec fn view(&self) -> bool {
        self.yielded
    }
}

impl AttributeEnumerator {
    /// An enumerator that has (or has not) handed out the attribute.
    pub fn new(yielded: bool) -> (e: Self)
        ensures
            e@ == yielded,
    {
        AttributeEnumerator { yielded }
    }

    /// A copy in the same position.
    pub fn duplicate(&self) -> (e: Self)
        ensures
            e@ == self@,
    {
        AttributeEnumerator { yielded: self.yielded }
    }

    /// Hand out up to `count` attributes. A positive count needs the output
    /// array, and any count but 1 needs the place for the number handed out.
    pub fn next(&mut self, count: u32, has_output: bool, has_fetched: bool) -> (r: Result<NextResult, EnumError>)
        ensures
            (count > 0 && !has_output) || (count != 1 && !has_fetched) ==> r == Err::<NextResult, EnumError>(
                EnumError::NullPointer,
            ) && final(self)@ == old(self)@,
            !((count > 0 && !has_output) || (count != 1 && !has_fetched)) ==> r == Ok::<NextResult, EnumError>(
                NextResult {
                    produced: next_produced(old(self)@, count),
                    complete: next_produced(old(self)@, count) == count,
                },
            ) && final(self)@ == (old(self)@ || count > 0),
    {
        if count > 0 && !has_output {
            return Err(EnumError::NullPointer);
        }
        if count != 1 && !has_fetched {
            return Err(EnumError::NullPointer);
        }
        let produced: u32 = if count > 0 && !self.yielded {
            1
        } else {
            0
        };
        if count > 0 {
            self.yielded = true;
        }
        Ok(NextResult { produced, complete: produced == count })
    }

    /// Skip `count` attributes; `true` (`S_OK`) when that many were left.
    pub fn skip(&mut self, count: u32) -> (ok: bool)
        ensures
            count == 0 ==> ok && final(self)@ == old(self)@,
            count > 0 ==> final(self)@ && ok == (count <= (if old(self)@ {
                0u32
            } else {
                1u32
            })),
    {
        if count == 0 {
            return true;
        }
        let available: u32 = if self.yielded {
            0
        } else {
            1
        };
        self.yielded = true;
        count <= available
    }

    /// Start over.
    pub fn reset(&mut self)
        ensures
            !final(self)@,
    {
        self.yielded = false;
    }
}

/// From a fresh (or reset) enumerator the attribute is handed out exactly
/// once: the first `next` asking for any produces it, and no later `next`
/// produces anything.
pub proof fn lemma_yields_once(count: u32, later: u32)
    requires
        count > 0,
    ensures
        next_produced(false, count) == 1,
        next_produced(false || count > 0, later) == 0,
{
}

} // verus!
