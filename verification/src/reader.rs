//! A read-ahead buffered reader with `min_size`/`max_size` thresholds, used
//! by in-process byte sources. `fill_buf` tops the buffer up from the
//! underlying reader until it holds at least `min_size` bytes, the reader
//! signals end of stream, or the buffer reaches `max_size`; the buffer never
//! exceeds `max_size`.

use vstd::prelude::*;

verus! {

/// The port a buffered reader pulls from; it stands for the reader the
/// caller supplies. An empty result signals end of stream; a failure is
/// reported as text.
pub trait ByteRead: Sized {
    /// The bytes this reader has yet to yield, in order: its stream view.
    spec fn stream(&self) -> Seq<u8>;

    /// Reads up to `max` fresh bytes: some prefix of the stream, which it
    /// consumes; an empty result (for a non-empty ask) only at end of
    /// stream.
    fn read_up_to(&mut self, max: usize) -> (r: Result<Vec<u8>, String>)
        ensures
            r matches Ok(v) ==> {
                &&& v@.len() <= max
                &&& v@.len() <= old(self).stream().len()
                &&& v@ == old(self).stream().take(v@.len() as int)
                &&& final(self).stream() == old(self).stream().skip(v@.len() as int)
                &&& (v@.len() == 0 ==> max == 0 || old(self).stream().len() == 0)
            },
            r is Err ==> final(self).stream() == old(self).stream(),
    ;
}

/// An in-memory reader over a fixed byte sequence; serves reads from the
/// front until depleted.
pub struct VecReader {
    data: Vec<u8>,
    pos: usize,
}

impl VecReader {
    /// The bytes not yet served.
    pub closed spec fn remaining(&self) -> Seq<u8> {
        if self.pos <= self.data@.len() {
            self.data@.skip(self.pos as int)
        } else {
            Seq::empty()
        }
    }

    /// A reader over the given bytes.
    pub fn new(data: Vec<u8>) -> (r: Self)
        ensures
            r.remaining() == data@,
    {
        let r = VecReader { data, pos: 0 };
        proof {
            assert(r.remaining() =~= r.data@);
        }
        r
    }
}

impl ByteRead for VecReader {
    /// The stream is exactly the bytes not yet served.
    open spec fn stream(&self) -> Seq<u8> {
        self.remaining()
    }

    /// Serves the longest prefix of `remaining()` that fits in `max` and
    /// removes it.
    fn read_up_to(&mut self, max: usize) -> (r: Result<Vec<u8>, String>)
        ensures
            r matches Ok(v) && ({
                let served = if max <= old(self).remaining().len() {
                    max as int
                } else {
                    old(self).remaining().len() as int
                };
                &&& v@ == old(self).remaining().take(served)
                &&& final(self).remaining() == old(self).remaining().skip(served)
            }),
    {
        if self.pos > self.data.len() {
            self.pos = self.data.len();
        }
        let avail = self.data.len() - self.pos;
        let take = if max < avail {
            max
        } else {
            avail
        };
        let out = crate::wire::copy_range(&self.data, self.pos, self.pos + take);
        self.pos = self.pos + take;
        proof {
            assert(out@ =~= old(self).remaining().take(out@.len() as int));
            assert(self.remaining() =~= old(self).remaining().skip(out@.len() as int));
        }
        Ok(out)
    }
}

/// A read-ahead buffer over an arbitrary byte reader, with a low-water mark
/// `min_size` and a capacity `max_size`.
pub struct MinMaxBufReader<R: ByteRead> {
    inner: R,
    buf: Vec<u8>,
    min_size: usize,
    max_size: usize,
    reached_eof: bool,
}

impl<R: ByteRead> MinMaxBufReader<R> {
    /// The buffered bytes, front first.
    pub closed spec fn buffered(&self) -> Seq<u8> {
        self.buf@
    }

    /// The low-water mark.
    pub closed spec fn min_spec(&self) -> nat {
        self.min_size as nat
    }

    /// The capacity.
    pub closed spec fn max_spec(&self) -> nat {
        self.max_size as nat
    }

    /// Whether the underlying reader has signalled end of stream at least
    /// once.
    pub closed spec fn eof_seen(&self) -> bool {
        self.reached_eof
    }

    /// The bytes the underlying reader has yet to yield.
    pub closed spec fn upstream(&self) -> Seq<u8> {
        self.inner.stream()
    }

    /// The buffer never outgrows the capacity, and once end of stream was
    /// seen the underlying reader has nothing left.
    pub open spec fn wf(&self) -> bool {
        &&& self.buffered().len() <= self.max_spec()
        &&& (self.eof_seen() ==> self.upstream().len() == 0)
    }

    /// An empty buffer over the given reader. `min_size` must not exceed
    /// `max_size`.
    pub fn new(inner: R, min_size: usize, max_size: usize) -> (r: Self)
        requires
            min_size <= max_size,
        ensures
            r.wf(),
            r.buffered().len() == 0,
            r.min_spec() == min_size,
            r.max_spec() == max_size,
            !r.eof_seen(),
            r.upstream() == inner.stream(),
    {
        MinMaxBufReader { inner, buf: Vec::new(), min_size, max_size, reached_eof: false }
    }

    /// Tops the buffer up until it holds at least `min_size` bytes, the
    /// reader signals end of stream, or the buffer is full. Already-buffered
    /// bytes stay in place, in order; what is appended comes exactly from
    /// the reader's stream, so buffer plus stream is conserved. A buffer
    /// already at the low-water mark is served without touching the reader.
    pub fn fill_buf_min(&mut self) -> (r: Result<(), String>)
        requires
            old(self).wf(),
        ensures
            final(self).wf(),
            final(self).min_spec() == old(self).min_spec(),
            final(self).max_spec() == old(self).max_spec(),
            final(self).buffered().len() >= old(self).buffered().len(),
            final(self).buffered().subrange(0, old(self).buffered().len() as int) == old(self).buffered(),
            final(self).buffered() + final(self).upstream() == old(self).buffered() + old(self).upstream(),
            old(self).eof_seen() ==> final(self).eof_seen(),
            old(self).buffered().len() >= old(self).min_spec() ==> r is Ok && *final(self) == *old(self),
            r is Ok ==> final(self).buffered().len() >= final(self).min_spec() || final(self).eof_seen() || final(self).buffered().len() == final(self).max_spec(),
    {
        if self.buf.len() >= self.min_size {
            return Ok(());
        }
        let ghost orig = self.buf@;
        let ghost orig_up = self.inner.stream();
        loop
            invariant
                orig == old(self).buffered(),
                orig_up == old(self).upstream(),
                old(self).buffered().len() < old(self).min_spec(),
                self.wf(),
                self.min_spec() == old(self).min_spec(),
                self.max_spec() == old(self).max_spec(),
                self.buf@.len() >= orig.len(),
                self.buf@.subrange(0, orig.len() as int) == orig,
                self.buf@ + self.inner.stream() == orig + orig_up,
                old(self).eof_seen() ==> self.eof_seen(),
            decreases self.max_size - self.buf.len(),
        {
            if self.buf.len() >= self.min_size {
                return Ok(());
            }
            if self.buf.len() >= self.max_size {
                return Ok(());
            }
            let want = self.max_size - self.buf.len();
            let ghost pre_buf = self.buf@;
            let ghost pre_up = self.inner.stream();
            match self.inner.read_up_to(want) {
                Ok(chunk) => {
                    if chunk.len() == 0 {
                        self.reached_eof = true;
                        return Ok(());
                    }
                    let ghost served = chunk@;
                    let mut chunk = chunk;
                    self.buf.append(&mut chunk);
                    proof {
                        assert(self.buf@ == pre_buf + served);
                        assert(served == pre_up.take(served.len() as int));
                        assert(self.inner.stream() == pre_up.skip(served.len() as int));
                        assert(self.buf@.subrange(0, orig.len() as int) =~= pre_buf.subrange(
                            0,
                            orig.len() as int,
                        ));
                        assert(self.buf@ + self.inner.stream() =~= pre_buf + pre_up);
                    }
                },
                Err(e) => {
                    return Err(e);
                },
            }
        }
    }

    /// Serves up to `max` bytes from the front of the (freshly topped-up)
    /// buffer. What is served, what stays buffered and what the reader still
    /// holds together form the original stream: nothing is lost, invented or
    /// reordered.
    pub fn read(&mut self, max: usize) -> (r: Result<Vec<u8>, String>)
        requires
            old(self).wf(),
        ensures
            final(self).wf(),
            final(self).min_spec() == old(self).min_spec(),
            final(self).max_spec() == old(self).max_spec(),
            old(self).buffered().len() >= old(self).min_spec() ==> r is Ok,
            r matches Ok(v) ==> v@.len() <= max,
            r matches Ok(v) ==> v@.len() == max || final(self).buffered().len() == 0,
            r matches Ok(v) ==> v@ + final(self).buffered() + final(self).upstream() == old(self).buffered() + old(self).upstream(),
    {
        match self.fill_buf_min() {
            Ok(()) => {},
            Err(e) => {
                return Err(e);
            },
        }
        let ghost filled = self.buf@;
        let ghost up = self.inner.stream();
        let take = if max < self.buf.len() {
            max
        } else {
            self.buf.len()
        };
        let out = crate::wire::copy_range(&self.buf, 0, take);
        let rest: Vec<u8> = crate::wire::copy_range(&self.buf, take, self.buf.len());
        self.buf = rest;
        proof {
            assert(out@ + self.buf@ =~= filled);
            assert(out@ + self.buf@ + up =~= filled + up);
            assert((out@ + self.buf@) + up =~= out@ + (self.buf@ + up));
        }
        Ok(out)
    }

    /// A copy of everything buffered, without touching the reader.
    pub fn buffered_copy(&self) -> (r: Vec<u8>)
        ensures
            r@ == self.buffered(),
    {
        crate::wire::copy_range(&self.buf, 0, self.buf.len())
    }

    /// Tops the buffer up and returns a copy of everything buffered.
    pub fn fill_buf(&mut self) -> (r: Result<Vec<u8>, String>)
        requires
            old(self).wf(),
        ensures
            final(self).wf(),
            final(self).min_spec() == old(self).min_spec(),
            final(self).max_spec() == old(self).max_spec(),
            final(self).buffered().len() >= old(self).buffered().len(),
            final(self).buffered().subrange(0, old(self).buffered().len() as int) == old(self).buffered(),
            final(self).buffered() + final(self).upstream() == old(self).buffered() + old(self).upstream(),
            old(self).eof_seen() ==> final(self).eof_seen(),
            old(self).buffered().len() >= old(self).min_spec() ==> r is Ok && final(self).buffered() == old(self).buffered() && final(self).upstream() == old(self).upstream(),
            r matches Ok(v) ==> v@ == final(self).buffered(),
            r matches Ok(v) ==> final(self).buffered().len() >= final(self).min_spec() || final(self).eof_seen() || final(self).buffered().len() == final(self).max_spec(),
    {
        match self.fill_buf_min() {
            Ok(()) => {},
            Err(e) => {
                return Err(e);
            },
        }
        Ok(crate::wire::copy_range(&self.buf, 0, self.buf.len()))
    }

    /// Discards the front `amt` buffered bytes, or the whole buffer when
    /// fewer are held.
    pub fn consume(&mut self, amt: usize)
        requires
            old(self).wf(),
        ensures
            final(self).wf(),
            final(self).min_spec() == old(self).min_spec(),
            final(self).max_spec() == old(self).max_spec(),
            final(self).eof_seen() == old(self).eof_seen(),
            final(self).upstream() == old(self).upstream(),
            amt <= old(self).buffered().len() ==> final(self).buffered() == old(self).buffered().skip(amt as int),
            amt > old(self).buffered().len() ==> final(self).buffered().len() == 0,
    {
        let take = if amt < self.buf.len() {
            amt
        } else {
            self.buf.len()
        };
        let rest: Vec<u8> = crate::wire::copy_range(&self.buf, take, self.buf.len());
        self.buf = rest;
        proof {
            if amt <= old(self).buffered().len() {
                assert(self.buf@ =~= old(self).buffered().skip(amt as int));
            }
        }
    }
}

} // verus!
