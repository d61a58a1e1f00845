use vstd::prelude::*;

verus! {

/// SB/SC with no link partner: bytes written to SB are forwarded to a host
/// sink, held here until the host takes them.
pub struct Serial {
    pub output: Vec<u8>,
}

impl Serial {
    pub fn new() -> (r: Serial)
        ensures
            r.output@ == Seq::<u8>::empty(),
    {
        Serial { output: Vec::new() }
    }

    /// With nothing on the other end of the cable SB reads 0xFF.
    pub fn read_sb(&self) -> (r: u8)
        ensures
            r == 0xFF,
    {
        0xFF
    }

    /// Forwards the byte to the host sink.
    pub fn write_sb(&mut self, val: u8)
        ensures
            final(self).output@ == old(self).output@.push(val),
    {
        self.output.push(val);
    }

    pub fn read_sc(&self) -> (r: u8)
        ensures
            r == 0xFF,
    {
        0xFF
    }

    /// Transfers complete at once, so the control byte has no effect.
    pub fn write_sc(&mut self, _val: u8)
        ensures
            final(self).output@ == old(self).output@,
    {
    }

    /// Hands the bytes sent so far to the host and empties the sink.
    pub fn take_output(&mut self) -> (r: Vec<u8>)
        ensures
            r@ == old(self).output@,
            final(self).output@ == Seq::<u8>::empty(),
    {
        let mut out = Vec::new();
        std::mem::swap(&mut out, &mut self.output);
        out
    }
}

} // verus!
