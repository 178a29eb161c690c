//! The in-process byte source that backs a source guest: a read-ahead
//! buffered reader plus a snapshot of the current buffer and a consume
//! offset. `reload` discards what was consumed, refills from the reader, and
//! reports the accounting; `current_slice` and `len` read the snapshot.

use crate::reader::{ByteRead, MinMaxBufReader};
use vstd::prelude::*;

verus! {

/// A byte-source failure the caller cannot recover from.
#[derive(Debug, PartialEq)]
pub enum SourceError {
    Unrecoverable(String),
}

/// The accounting of one successful reload.
#[derive(Debug, Clone, Copy, PartialEq, Eq, Structural)]
pub struct ReloadInfo {
    pub newly_loaded_bytes: usize,
    pub available_bytes: usize,
    pub skipped_bytes: usize,
}

impl ReloadInfo {
    /// Accounting with nothing skipped.
    pub fn new(newly_loaded_bytes: usize, available_bytes: usize) -> (r: Self)
        ensures
            r == (ReloadInfo { newly_loaded_bytes, available_bytes, skipped_bytes: 0 }),
    {
        ReloadInfo { newly_loaded_bytes, available_bytes, skipped_bytes: 0 }
    }
}

/// A byte source over a buffered reader. `content` snapshots the reader's
/// buffer as of the last reload; `offset` counts how much of it the caller
/// has consumed since.
pub struct PluginByteSource<R: ByteRead> {
    reader: MinMaxBufReader<R>,
    content: Vec<u8>,
    offset: usize,
}

impl<R: ByteRead> PluginByteSource<R> {
    /// The snapshot taken by the last reload.
    pub closed spec fn content_spec(&self) -> Seq<u8> {
        self.content@
    }

    /// How much of the snapshot has been consumed.
    pub closed spec fn offset_spec(&self) -> nat {
        self.offset as nat
    }

    /// Whether the underlying reader has signalled end of stream.
    pub closed spec fn reader_eof(&self) -> bool {
        self.reader.eof_seen()
    }

    /// The reader's low-water mark.
    pub closed spec fn buffer_min_spec(&self) -> nat {
        self.reader.min_spec()
    }

    /// The reader's capacity.
    pub closed spec fn total_capacity_spec(&self) -> nat {
        self.reader.max_spec()
    }

    /// The bytes the reader currently holds buffered.
    pub closed spec fn reader_buffered(&self) -> Seq<u8> {
        self.reader.buffered()
    }

    /// The bytes the underlying reader has yet to yield.
    pub closed spec fn reader_upstream(&self) -> Seq<u8> {
        self.reader.upstream()
    }

    /// The consume offset never runs past the snapshot, the snapshot is
    /// exactly the reader's buffer, the buffer is within capacity, and a
    /// seen end of stream means the reader has nothing left.
    pub open spec fn wf(&self) -> bool {
        &&& self.offset_spec() <= self.content_spec().len()
        &&& self.content_spec() == self.reader_buffered()
        &&& self.content_spec().len() <= self.total_capacity_spec()
        &&& (self.reader_eof() ==> self.reader_upstream().len() == 0)
    }

    /// A source reading ahead through a buffer of `total_capacity` bytes
    /// with low-water mark `buffer_min`.
    pub fn new(input: R, total_capacity: usize, buffer_min: usize) -> (r: Self)
        requires
            buffer_min <= total_capacity,
        ensures
            r.wf(),
            r.content_spec().len() == 0,
            r.offset_spec() == 0,
            !r.reader_eof(),
            r.buffer_min_spec() == buffer_min,
            r.total_capacity_spec() == total_capacity,
            r.reader_upstream() == input.stream(),
    {
        let r = PluginByteSource {
            reader: MinMaxBufReader::new(input, buffer_min, total_capacity),
            content: Vec::new(),
            offset: 0,
        };
        proof {
            assert(r.content_spec() =~= r.reader_buffered());
        }
        r
    }

    /// Marks the front `offset` bytes of the current slice consumed; asking
    /// for more than is available changes nothing.
    pub fn consume(&mut self, offset: usize)
        requires
            old(self).wf(),
        ensures
            final(self).wf(),
            final(self).content_spec() == old(self).content_spec(),
            offset <= old(self).len_spec() ==> final(self).offset_spec() == old(self).offset_spec() + offset,
            offset > old(self).len_spec() ==> final(self).offset_spec() == old(self).offset_spec(),
    {
        if self.len() >= offset {
            let cl = self.content.len();
            proof {
                assert(self.offset + offset <= cl);
            }
            self.offset = self.offset + offset;
        }
    }

    /// The unconsumed length of the snapshot.
    pub open spec fn len_spec(&self) -> nat {
        (self.content_spec().len() - self.offset_spec()) as nat
    }

    /// Discards the consumed front from the reader, refills, and snapshots
    /// the reader's buffer: the old unconsumed window stays as the
    /// snapshot's prefix, what is appended comes from the reader's stream,
    /// and nothing is lost — window plus stream is conserved. Returns `None`
    /// at end of input (nothing available), and otherwise the accounting:
    /// everything in the new snapshot is available, and what outgrew the old
    /// unconsumed length is newly loaded. A window already at `buffer_min`
    /// reloads without reading; otherwise at least `buffer_min` bytes are
    /// available afterwards unless the input is ending or the buffer is
    /// full. On a reader failure the snapshot keeps the old window (plus any
    /// partial refill) and the failure is unrecoverable.
    pub fn reload(&mut self) -> (r: Result<Option<ReloadInfo>, SourceError>)
        requires
            old(self).wf(),
        ensures
            final(self).wf(),
            final(self).offset_spec() == 0,
            final(self).len_spec() >= old(self).len_spec(),
            final(self).content_spec().subrange(0, old(self).len_spec() as int) == old(self).content_spec().skip(old(self).offset_spec() as int),
            final(self).content_spec() + final(self).reader_upstream() == old(self).content_spec().skip(old(self).offset_spec() as int) + old(self).reader_upstream(),
            old(self).len_spec() >= old(self).buffer_min_spec() ==> r is Ok,
            r matches Ok(oi) ==> (oi is None <==> final(self).content_spec().len() == 0),
            r matches Ok(oi) ==> oi matches Some(info) ==> {
                &&& info.available_bytes == final(self).content_spec().len()
                &&& info.newly_loaded_bytes as int == if final(self).content_spec().len() > old(self).len_spec() {
                    final(self).content_spec().len() - old(self).len_spec()
                } else {
                    0
                }
                &&& info.skipped_bytes == 0
            },
            r is Ok ==> final(self).content_spec().len() >= final(self).buffer_min_spec() || final(self).reader_eof() || final(self).content_spec().len() == final(self).total_capacity_spec(),
    {
        let initial_len = self.len();
        self.reader.consume(self.offset);
        proof {
            assert(self.reader.buffered() =~= old(self).content_spec().skip(
                old(self).offset_spec() as int,
            ));
        }
        match self.reader.fill_buf() {
            Ok(buffer) => {
                self.content = buffer;
                self.offset = 0;
                let available_bytes = self.content.len();
                let newly_loaded_bytes = if available_bytes > initial_len {
                    available_bytes - initial_len
                } else {
                    0
                };
                if available_bytes == 0 {
                    Ok(None)
                } else {
                    Ok(Some(ReloadInfo::new(newly_loaded_bytes, available_bytes)))
                }
            },
            Err(e) => {
                self.content = self.reader.buffered_copy();
                self.offset = 0;
                Err(SourceError::Unrecoverable(e))
            },
        }
    }

    /// The unconsumed part of the snapshot; does not touch the reader.
    pub fn current_slice(&self) -> (r: Vec<u8>)
        requires
            self.wf(),
        ensures
            r@ == self.content_spec().skip(self.offset_spec() as int),
    {
        crate::wire::copy_range(&self.content, self.offset, self.content.len())
    }

    /// The unconsumed length of the snapshot; does not touch the reader.
    pub fn len(&self) -> (r: usize)
        requires
            self.wf(),
        ensures
            r == self.len_spec(),
    {
        self.content.len() - self.offset
    }
}

} // verus!
