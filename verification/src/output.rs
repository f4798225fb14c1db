//! The buffer in which each record is handed back to the host.

use vstd::prelude::*;

verus! {

/// The single reusable buffer of a filter instance. After every write it
/// holds one record followed by one zero byte, as the host's convention asks.
pub struct OutputBuffer {
    bytes: Vec<u8>,
}

impl View for OutputBuffer {
    type V = Seq<u8>;

    closed spec fn view(&self) -> Seq<u8> {
        self.bytes@
    }
}

impl OutputBuffer {
    /// `payload` followed by the terminator: what the buffer holds after
    /// `payload` was stored in it.
    pub open spec fn framed(payload: Seq<u8>) -> Seq<u8> {
        payload.push(0u8)
    }

    /// An empty buffer.
    pub fn new() -> (buffer: OutputBuffer)
        ensures
            buffer@ == Seq::<u8>::empty(),
    {
        OutputBuffer { bytes: Vec::new() }
    }

    /// Overwrites the buffer with `payload` and the terminator. Nothing of
    /// what it held before is kept.
    pub fn store(&mut self, payload: &[u8])
        ensures
            final(self)@ == Self::framed(payload@),
    {
        self.bytes.clear();
        self.bytes.extend_from_slice(payload);
        self.bytes.push(0u8);
    }

    /// What the buffer holds, read-only.
    pub fn as_slice(&self) -> (bytes: &[u8])
        ensures
            bytes@ == self@,
    {
        self.bytes.as_slice()
    }
}

/// Hands `record` back unchanged: the buffer then holds the record's bytes
/// and the terminator.
pub fn pass_through(buffer: &mut OutputBuffer, record: &[u8])
    ensures
        final(buffer)@ == OutputBuffer::framed(record@),
{
    buffer.store(record);
}

} // verus!
