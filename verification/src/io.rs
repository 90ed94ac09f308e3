//! The byte-stream endpoints: a single-byte input source and a single-byte
//! output sink, as capability traits the execution engine is generic over,
//! together with in-memory implementations.

use vstd::prelude::*;

verus! {

/// An input or output operation that did not complete: the source could not
/// supply a byte (failure or end of stream), or the sink refused one.
#[derive(Clone, Copy, Debug, PartialEq, Eq, Structural)]
pub struct IoFault;

/// A source of single bytes. `remaining()` is the sequence of bytes the
/// source can still supply, head first; an implementation outside this crate
/// chooses its own meaning for it. A successful read hands out the head and
/// keeps the rest; a failed read supplies nothing.
pub trait ByteSource {
    spec fn remaining(&self) -> Seq<u8>;

    /// Read exactly one byte, blocking until it is available.
    fn get(&mut self) -> (r: Result<u8, IoFault>)
        ensures
            match r {
                Ok(b) => old(self).remaining().len() > 0 && b == old(self).remaining()[0]
                    && final(self).remaining() == old(self).remaining().drop_first(),
                Err(_) => final(self).remaining() == old(self).remaining(),
            },
    ;
}

/// A sink for single bytes. `written()` is the sequence of bytes accepted so
/// far, in order. A successful write appends exactly the given byte; a failed
/// write appends nothing.
pub trait ByteSink {
    spec fn written(&self) -> Seq<u8>;

    /// Write exactly one byte.
    fn put(&mut self, b: u8) -> (r: Result<(), IoFault>)
        ensures
            match r {
                Ok(_) => final(self).written() == old(self).written().push(b),
                Err(_) => final(self).written() == old(self).written(),
            },
    ;
}

/// An in-memory input source: supplies the bytes of a buffer front to back,
/// then reports end of stream.
pub struct VecSource {
    pub data: Vec<u8>,
    pub pos: usize,
}

impl VecSource {
    /// A source that will supply exactly the bytes of `data`, in order.
    pub fn new(data: Vec<u8>) -> (s: VecSource)
        ensures
            s.remaining() == data@,
    {
        let s = VecSource { data, pos: 0 };
        proof {
            assert(s.remaining() =~= s.data@);
        }
        s
    }
}

impl ByteSource for VecSource {
    open spec fn remaining(&self) -> Seq<u8> {
        if self.pos <= self.data@.len() {
            self.data@.skip(self.pos as int)
        } else {
            Seq::empty()
        }
    }

    fn get(&mut self) -> (r: Result<u8, IoFault>)
        ensures
            r is Ok <==> old(self).remaining().len() > 0,
    {
        if self.pos < self.data.len() {
            let b = self.data[self.pos];
            self.pos = self.pos + 1;
            proof {
                assert(self.remaining() =~= old(self).remaining().drop_first());
            }
            Ok(b)
        } else {
            Err(IoFault)
        }
    }
}

/// An in-memory output sink: accepts every byte and appends it to a buffer.
pub struct VecSink {
    pub data: Vec<u8>,
}

impl VecSink {
    /// An empty sink.
    pub fn new() -> (s: VecSink)
        ensures
            s.written() == Seq::<u8>::empty(),
    {
        let s = VecSink { data: Vec::new() };
        proof {
            assert(s.written() =~= Seq::<u8>::empty());
        }
        s
    }
}

impl ByteSink for VecSink {
    open spec fn written(&self) -> Seq<u8> {
        self.data@
    }

    fn put(&mut self, b: u8) -> (r: Result<(), IoFault>)
        ensures
            r is Ok,
    {
        self.data.push(b);
        Ok(())
    }
}

} // verus!
