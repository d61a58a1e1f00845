use vstd::prelude::*;

verus! {

/// Capacity of a pixel FIFO.
pub const FIFO_SLOTS: u8 = 16;

/// A 16-slot circular queue of pixels. Each pixel is a byte: bits 0-1 colour
/// index, bit 2 enabled (background), bit 3 palette and bit 4 priority
/// (objects).
pub struct PixelFIFO {
    pub inner: Vec<u8>,
    pub count: u8,
    pub read_head: u8,
    pub write_head: u8,
}

impl PixelFIFO {
    pub open spec fn wf(&self) -> bool {
        &&& self.inner@.len() == 16
        &&& self.count <= FIFO_SLOTS
        &&& self.read_head < 16
        &&& self.write_head == (self.read_head + self.count) % 16
    }

    /// The queued pixels, oldest first.
    pub open spec fn view(&self) -> Seq<u8> {
        Seq::new(self.count as nat, |i: int| self.inner@[(self.read_head + i) % 16])
    }

    pub fn new() -> (r: PixelFIFO)
        ensures
            r.wf(),
            r.view() == Seq::<u8>::empty(),
    {
        let r = PixelFIFO { inner: vec![0u8; 16], count: 0, read_head: 0, write_head: 0 };
        assert(r.view() =~= Seq::<u8>::empty());
        r
    }

    pub fn len(&self) -> (r: u8)
        requires
            self.wf(),
        ensures
            r as int == self.view().len(),
    {
        self.count
    }

    pub fn push(&mut self, pixel: u8)
        requires
            old(self).wf(),
            old(self).view().len() < 16,
        ensures
            final(self).wf(),
            final(self).view() == old(self).view().push(pixel),
    {
        let ghost before = self.view();
        self.inner.set(self.write_head as usize, pixel);
        self.write_head = (self.write_head + 1) % 16;
        self.count = self.count + 1;
        assert(self.view() =~= before.push(pixel));
    }

    pub fn pop(&mut self) -> (r: u8)
        requires
            old(self).wf(),
            old(self).view().len() > 0,
        ensures
            final(self).wf(),
            r == old(self).view()[0],
            final(self).view() == old(self).view().drop_first(),
    {
        let ghost before = self.view();
        let ret = self.inner[self.read_head as usize];
        self.read_head = (self.read_head + 1) % 16;
        self.count = self.count - 1;
        assert(self.view() =~= before.drop_first());
        ret
    }

    /// The pixel `i` places behind the head.
    pub fn get(&self, i: u8) -> (r: u8)
        requires
            self.wf(),
            i < self.view().len(),
        ensures
            r == self.view()[i as int],
    {
        self.inner[((self.read_head + i) % 16) as usize]
    }

    /// Replaces the pixel `i` places behind the head.
    pub fn replace(&mut self, i: u8, pixel: u8)
        requires
            old(self).wf(),
            i < old(self).view().len(),
        ensures
            final(self).wf(),
            final(self).view() == old(self).view().update(i as int, pixel),
    {
        let ghost before = self.view();
        let slot = ((self.read_head + i) % 16) as usize;
        self.inner.set(slot, pixel);
        assert(self.view() =~= before.update(i as int, pixel));
    }
}

} // verus!
