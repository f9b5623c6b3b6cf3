use vstd::prelude::*;
use vstd::utf8::encode_utf8;
use vstd::utf8::valid_utf8;

verus! {

/// The text that `String::from_utf8_lossy` makes of some bytes.
pub uninterp spec fn lossy_text(b: Seq<u8>) -> Seq<char>;

/// Relies on `String::from_utf8_lossy`: the result depends on the bytes
/// alone, and bytes that are valid UTF-8 come back as the characters they
/// encode.
#[verifier::external_body]
fn decode_lossy(b: &[u8]) -> (r: String)
    ensures
        r@ == lossy_text(b@),
        valid_utf8(b@) ==> encode_utf8(r@) == b@,
        b@.len() == 0 ==> r@.len() == 0,
{
    String::from_utf8_lossy(b).into_owned()
}

/// The bytes a stream of `capacity` bytes holds after `more` is written to
/// it while it held `held`: what does not fit is lost.
pub open spec fn after_write(held: Seq<u8>, more: Seq<u8>, capacity: nat) -> Seq<u8> {
    let all = held + more;
    if all.len() <= capacity {
        all
    } else {
        all.take(capacity as int)
    }
}

/// A capturing destination for the engine's diagnostic lines: a rewindable
/// in-memory stream of fixed capacity whose contents are read and cleared
/// in one step.
pub struct DiagnosticSink {
    captured: Vec<u8>,
    capacity: usize,
}

impl View for DiagnosticSink {
    type V = Seq<u8>;

    /// The bytes written since the sink was made or last drained.
    closed spec fn view(&self) -> Seq<u8> {
        self.captured@
    }
}

impl DiagnosticSink {
    pub closed spec fn spec_capacity(&self) -> nat {
        self.capacity as nat
    }

    pub open spec fn wf(&self) -> bool {
        self@.len() <= self.spec_capacity()
    }

    /// An empty sink that holds at most `capacity` bytes between drains.
    pub fn new(capacity: usize) -> (r: DiagnosticSink)
        ensures
            r.wf(),
            r@.len() == 0,
            r.spec_capacity() == capacity,
    {
        DiagnosticSink { captured: Vec::new(), capacity }
    }

    pub fn capacity(&self) -> (r: usize)
        ensures
            r == self.spec_capacity(),
    {
        self.capacity
    }

    /// Appends what the engine wrote; bytes past the capacity are lost.
    pub fn write(&mut self, bytes: &[u8])
        requires
            old(self).wf(),
        ensures
            final(self).wf(),
            final(self).spec_capacity() == old(self).spec_capacity(),
            final(self)@ == after_write(old(self)@, bytes@, old(self).spec_capacity()),
    {
        let ghost held = self.captured@;
        let mut i: usize = 0;
        while i < bytes.len() && self.captured.len() < self.capacity
            invariant
                i <= bytes.len(),
                self.capacity == old(self).capacity,
                self.captured@ == (held + bytes@).take(held.len() + i),
                self.captured.len() <= self.capacity,
            decreases bytes.len() - i,
        {
            self.captured.push(bytes[i]);
            i = i + 1;
            assert(self.captured@ =~= (held + bytes@).take(held.len() + i));
        }
        assert((held + bytes@).take(held.len() + bytes.len()) =~= held + bytes@);
    }

    /// Hands back, as text, everything written since the sink was made or
    /// last drained, and clears it: a second drain with no write between
    /// hands back nothing.
    pub fn drain(&mut self) -> (r: String)
        requires
            old(self).wf(),
        ensures
            r@ == lossy_text(old(self)@),
            old(self)@.len() == 0 ==> r@.len() == 0,
            final(self).wf(),
            final(self)@.len() == 0,
            final(self).spec_capacity() == old(self).spec_capacity(),
    {
        let text = decode_lossy(self.captured.as_slice());
        self.captured = Vec::new();
        text
    }
}

} // verus!
