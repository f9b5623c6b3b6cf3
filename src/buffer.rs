use vstd::prelude::*;
use vstd::string::StringSliceAdditionalSpecFns;
use vstd::string::StrSliceExecFns;

verus! {

/// What a bounded buffer holds: its whole region, whose length is the
/// capacity, and how much of it is in use.
pub struct BufferView {
    pub region: Seq<u8>,
    pub used: nat,
}

/// A fixed-capacity, append-only byte region handed to the validation engine.
/// The region is owned here; the engine only ever borrows it.
pub struct IscBuffer {
    region: Vec<u8>,
    used: usize,
}

impl View for IscBuffer {
    type V = BufferView;

    closed spec fn view(&self) -> BufferView {
        BufferView { region: self.region@, used: self.used as nat }
    }
}

impl IscBuffer {
    /// In use never exceeds capacity, and the capacity is addressable.
    pub open spec fn wf(&self) -> bool {
        &&& self@.used <= self@.region.len()
        &&& self@.region.len() <= usize::MAX
    }

    pub open spec fn spec_capacity(&self) -> nat {
        self@.region.len()
    }

    /// A buffer over the bytes of `s`, all of them in use (read mode).
    pub fn from_str(s: &str) -> (r: IscBuffer)
        ensures
            r.wf(),
            r@.region == s.spec_bytes(),
            r@.used == r@.region.len(),
    {
        let region = s.as_bytes_vec();
        let used = region.len();
        assert(region@.len() == used);
        IscBuffer { region, used }
    }

    /// An empty buffer of `capacity` zero bytes (write mode).
    pub fn with_capacity(capacity: usize) -> (r: IscBuffer)
        ensures
            r.wf(),
            r@.region == Seq::new(capacity as nat, |i: int| 0u8),
            r@.used == 0,
    {
        let region = vec![0u8; capacity];
        assert(region@ =~= Seq::new(capacity as nat, |i: int| 0u8));
        IscBuffer { region, used: 0 }
    }

    /// Marks `length` more bytes of the region as in use. Going past the
    /// capacity is a caller error, ruled out by the precondition.
    pub fn append(&mut self, length: usize)
        requires
            old(self).wf(),
            old(self)@.used + length <= old(self).spec_capacity(),
        ensures
            final(self).wf(),
            final(self)@.used == old(self)@.used + length,
            final(self)@.region == old(self)@.region,
    {
        self.used = self.used + length;
    }

    /// The whole region, as the engine's buffer descriptor points at it.
    pub fn as_ptr(&self) -> (r: &[u8])
        ensures
            r@ == self@.region,
    {
        self.region.as_slice()
    }

    /// The part of the region in use.
    pub fn used_bytes(&self) -> (r: &[u8])
        requires
            self.wf(),
        ensures
            r@ == self@.region.take(self@.used as int),
    {
        let r = &self.region.as_slice()[0..self.used];
        assert(r@ =~= self@.region.take(self@.used as int));
        r
    }

    pub fn used(&self) -> (r: usize)
        ensures
            r == self@.used,
    {
        self.used
    }

    pub fn capacity(&self) -> (r: usize)
        ensures
            r == self.spec_capacity(),
    {
        self.region.len()
    }
}

} // verus!
