use vstd::prelude::*;
use vstd::slice::slice_to_vec;

verus! {

/// A single-assignment holder for one provider's authorization code.
///
/// The first `set` stores its code; every later `set` leaves the slot as it
/// was and reports that it was ignored.
pub struct CodeSlot {
    code: Option<Vec<u8>>,
}

impl View for CodeSlot {
    type V = Option<Seq<u8>>;

    closed spec fn view(&self) -> Option<Seq<u8>> {
        match self.code {
            Some(c) => Some(c@),
            None => None,
        }
    }
}

impl CodeSlot {
    pub fn new() -> (r: CodeSlot)
        ensures
            r@.is_none(),
    {
        CodeSlot { code: None }
    }

    /// Publishes `code` unless a code is already held; returns whether it was stored.
    pub fn set(&mut self, code: Vec<u8>) -> (stored: bool)
        ensures
            stored == old(self)@.is_none(),
            final(self)@ == (if stored {
                Some(code@)
            } else {
                old(self)@
            }),
    {
        if self.code.is_some() {
            false
        } else {
            self.code = Some(code);
            true
        }
    }

    /// The code, once one has been published.
    pub fn read(&self) -> (r: Option<Vec<u8>>)
        ensures
            match r {
                Some(c) => self@ == Some(c@),
                None => self@.is_none(),
            },
    {
        match &self.code {
            Some(c) => Some(slice_to_vec(c.as_slice())),
            None => None,
        }
    }

    pub fn is_set(&self) -> (r: bool)
        ensures
            r == self@.is_some(),
    {
        self.code.is_some()
    }
}

} // verus!
