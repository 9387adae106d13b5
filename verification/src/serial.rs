//! Serial port stub: enough for test-harness output. Reads of the data
//! register return 0xFF (no peer is connected); bytes written there are
//! captured so a host can tap them when a transfer is started.

use vstd::prelude::*;

verus! {

pub struct Serial {
    /// Last byte written to the data register (0xFF01).
    pub sb: u8,
    /// Control register (0xFF02) as written.
    pub sc: u8,
    /// Bytes handed off on each transfer start, for the host to drain.
    pub out: Vec<u8>,
}

impl Serial {
    pub fn new() -> (r: Serial)
        ensures
            r.sb == 0xFF,
            r.sc == 0,
            r.out@ == Seq::<u8>::empty(),
    {
        Serial { sb: 0xFF, sc: 0, out: Vec::new() }
    }

    /// What a read of a serial register returns: 0xFF for the data register,
    /// the control register with its unused bits set for 0xFF02.
    pub open spec fn read_spec(self, addr: u16) -> u8 {
        if addr == 0xFF02 { self.sc | 0x7C } else { 0xFF }
    }

    pub fn read(&self, addr: u16) -> (r: u8)
        ensures
            r == self.read_spec(addr),
    {
        if addr == 0xFF02 { self.sc | 0x7C } else { 0xFF }
    }

    /// Writes are accepted; a write to the control register with bit 7 set
    /// starts a transfer, which hands the pending data byte to the host tap.
    pub fn write(&mut self, addr: u16, val: u8)
        ensures
            final(self).sb == if addr == 0xFF01 { val } else { old(self).sb },
            final(self).sc == if addr == 0xFF02 { val } else { old(self).sc },
            final(self).out@ == if addr == 0xFF02 && val & 0x80 != 0 {
                old(self).out@.push(old(self).sb)
            } else {
                old(self).out@
            },
    {
        if addr == 0xFF01 {
            self.sb = val;
        } else if addr == 0xFF02 {
            self.sc = val;
            if val & 0x80 != 0 {
                self.out.push(self.sb);
            }
        }
    }

    /// Drains the bytes captured so far, oldest first.
    pub fn consume_output(&mut self) -> (r: Vec<u8>)
        ensures
            r == old(self).out,
            final(self).sb == old(self).sb,
            final(self).sc == old(self).sc,
            final(self).out@ == Seq::<u8>::empty(),
    {
        let mut taken: Vec<u8> = Vec::new();
        core::mem::swap(&mut taken, &mut self.out);
        proof {
            assert(self.out@ =~= Seq::<u8>::empty());
        }
        taken
    }
}

} // verus!
