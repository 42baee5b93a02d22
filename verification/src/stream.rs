use vstd::prelude::*;

verus! {

/// A writable byte sink: the stream boundary of the save half. `sunk()` is
/// the sequence of bytes the sink has accepted so far.
pub trait ByteSink {
    spec fn sunk(&self) -> Seq<u8>;

    /// Write the whole buffer, or report a failure. After a failure the
    /// sink may have accepted part of the buffer.
    fn write_all(&mut self, data: &[u8]) -> (r: Result<(), String>)
        ensures
            r is Ok ==> final(self).sunk() == old(self).sunk() + data@,
    ;
}

/// A readable byte source: the stream boundary of the load half. `avail()`
/// is the sequence of bytes still to be read.
pub trait ByteSource {
    spec fn avail(&self) -> Seq<u8>;

    /// Read the source to exhaustion, or report a failure.
    fn read_to_end(&mut self) -> (r: Result<Vec<u8>, String>)
        ensures
            r is Ok ==> r->Ok_0@ == old(self).avail() && final(self).avail() == Seq::<u8>::empty(),
    ;
}

/// An in-memory sink: a growable byte buffer that accepts every write.
pub struct MemSink {
    pub data: Vec<u8>,
}

impl MemSink {
    pub fn new() -> (r: MemSink)
        ensures
            r.sunk() == Seq::<u8>::empty(),
    {
        MemSink { data: Vec::new() }
    }
}

impl ByteSink for MemSink {
    open spec fn sunk(&self) -> Seq<u8> {
        self.data@
    }

    fn write_all(&mut self, data: &[u8]) -> (r: Result<(), String>)
        ensures
            r is Ok,
    {
        proof {
            assert(old(self).data@ + data@.subrange(0, 0) =~= old(self).data@);
        }
        let mut i: usize = 0;
        while i < data.len()
            invariant
                i <= data.len(),
                self.data@ == old(self).data@ + data@.subrange(0, i as int),
            decreases data.len() - i,
        {
            self.data.push(data[i]);
            proof {
                assert(old(self).data@ + data@.subrange(0, i + 1) =~= (old(self).data@
                    + data@.subrange(0, i as int)).push(data@[i as int]));
            }
            i += 1;
        }
        proof {
            assert(data@.subrange(0, data@.len() as int) =~= data@);
        }
        Ok(())
    }
}

/// An in-memory source: a byte buffer read in one draught.
pub struct MemSource {
    pub data: Vec<u8>,
}

impl MemSource {
    pub fn new(data: Vec<u8>) -> (r: MemSource)
        ensures
            r.avail() == data@,
    {
        MemSource { data }
    }
}

impl ByteSource for MemSource {
    open spec fn avail(&self) -> Seq<u8> {
        self.data@
    }

    fn read_to_end(&mut self) -> (r: Result<Vec<u8>, String>)
        ensures
            r is Ok,
    {
        let mut out: Vec<u8> = Vec::new();
        let mut i: usize = 0;
        while i < self.data.len()
            invariant
                i <= self.data.len(),
                self.data@ == old(self).data@,
                out@ == self.data@.subrange(0, i as int),
            decreases self.data.len() - i,
        {
            out.push(self.data[i]);
            i += 1;
        }
        proof {
            assert(out@ =~= old(self).data@);
        }
        self.data = Vec::new();
        Ok(out)
    }
}

} // verus!
