//! From the reads of a byte source to the chunks of a streamed body.
//!
//! The stream is polled; whoever polls it makes one read of the source into
//! a buffer of `CHUNK_SIZE` bytes and hands over what the read gave. A read
//! that put bytes into the buffer becomes one chunk of exactly those bytes. A
//! read that put none there ends the stream. A read that failed hands its
//! error on and ends the stream. A read that is not done yet leaves the
//! stream as it is. Once the stream has ended it gives nothing more, and the
//! source is not to be read again.

use vstd::prelude::*;
use vstd::slice::slice_to_vec;

verus! {

/// The size of the buffer that the source reads into, and so the largest
/// size of a chunk.
pub const CHUNK_SIZE: usize = 1024;

/// What one read of the byte source gave.
pub enum ReadOutcome<'a, E> {
    /// The read is done. These are the bytes that it put into the buffer;
    /// none at all says that the source is at its end.
    Filled(&'a [u8]),
    /// The read failed.
    Failed(E),
    /// The source has nothing yet and will wake the reader.
    Pending,
}

/// What a `ReadOutcome` is.
pub enum ReadView<E> {
    Filled(Seq<u8>),
    Failed(E),
    Pending,
}

impl<'a, E> View for ReadOutcome<'a, E> {
    type V = ReadView<E>;

    open spec fn view(&self) -> ReadView<E> {
        match *self {
            ReadOutcome::Filled(bytes) => ReadView::Filled(bytes@),
            ReadOutcome::Failed(error) => ReadView::Failed(error),
            ReadOutcome::Pending => ReadView::Pending,
        }
    }
}

/// What the stream gives when it is polled.
#[derive(Debug, PartialEq, Eq)]
pub enum Polled<E> {
    /// Nothing yet: the source was not ready.
    Pending,
    /// The next chunk of the body.
    Chunk(Vec<u8>),
    /// The error of the source. It is the last thing that the stream gives.
    Failed(E),
    /// The stream has ended.
    Done,
}

/// What a `Polled` is.
pub enum PolledView<E> {
    Pending,
    Chunk(Seq<u8>),
    Failed(E),
    Done,
}

impl<E> View for Polled<E> {
    type V = PolledView<E>;

    open spec fn view(&self) -> PolledView<E> {
        match *self {
            Polled::Pending => PolledView::Pending,
            Polled::Chunk(bytes) => PolledView::Chunk(bytes@),
            Polled::Failed(error) => PolledView::Failed(error),
            Polled::Done => PolledView::Done,
        }
    }
}

/// Whether a read ends the stream: it failed, or it put no byte into the
/// buffer.
pub open spec fn is_last<E>(read: ReadView<E>) -> bool {
    match read {
        ReadView::Filled(bytes) => bytes.len() == 0,
        ReadView::Failed(_) => true,
        ReadView::Pending => false,
    }
}

/// What a poll gives for a read, on a stream that has ended or not.
pub open spec fn item<E>(ended: bool, read: ReadView<E>) -> PolledView<E> {
    if ended {
        PolledView::Done
    } else {
        match read {
            ReadView::Filled(bytes) => if bytes.len() > 0 {
                PolledView::Chunk(bytes)
            } else {
                PolledView::Done
            },
            ReadView::Failed(error) => PolledView::Failed(error),
            ReadView::Pending => PolledView::Pending,
        }
    }
}

/// Whether the stream has ended after a poll.
pub open spec fn ends<E>(ended: bool, read: ReadView<E>) -> bool {
    ended || is_last(read)
}

/// What the polls give, one after the other, when the reads of the source
/// give `reads` in turn.
pub open spec fn items<E>(ended: bool, reads: Seq<ReadView<E>>) -> Seq<PolledView<E>>
    decreases reads.len(),
{
    if reads.len() == 0 {
        Seq::<PolledView<E>>::empty()
    } else {
        seq![item(ended, reads[0])] + items(ends(ended, reads[0]), reads.skip(1))
    }
}

/// The bytes of the chunks among what the polls gave, in order.
pub open spec fn delivered<E>(polled: Seq<PolledView<E>>) -> Seq<u8>
    decreases polled.len(),
{
    if polled.len() == 0 {
        Seq::<u8>::empty()
    } else {
        match polled[0] {
            PolledView::Chunk(bytes) => bytes + delivered(polled.skip(1)),
            _ => delivered(polled.skip(1)),
        }
    }
}

/// The bytes that the source gave before the first read that ends the
/// stream, in order.
pub open spec fn offered<E>(reads: Seq<ReadView<E>>) -> Seq<u8>
    decreases reads.len(),
{
    if reads.len() == 0 || is_last(reads[0]) {
        Seq::<u8>::empty()
    } else {
        match reads[0] {
            ReadView::Filled(bytes) => bytes + offered(reads.skip(1)),
            _ => offered(reads.skip(1)),
        }
    }
}

/// The state of a streamed body: whether it has ended.
#[derive(Debug)]
pub struct ChunkStream {
    ended: bool,
}

impl ChunkStream {
    /// Whether the stream has ended.
    pub closed spec fn ended(&self) -> bool {
        self.ended
    }

    /// A stream at its start.
    pub fn new() -> (stream: ChunkStream)
        ensures
            !stream.ended(),
    {
        ChunkStream { ended: false }
    }

    /// Whether the stream has ended. The source of a stream that has ended
    /// is not read any more.
    pub fn is_ended(&self) -> (ended: bool)
        ensures
            ended == self.ended(),
    {
        self.ended
    }

    /// Takes what one read of the source gave and says what the stream gives
    /// for it.
    pub fn poll_next<E>(&mut self, read: ReadOutcome<'_, E>) -> (polled: Polled<E>)
        ensures
            polled@ == item(old(self).ended(), read@),
            final(self).ended() == ends(old(self).ended(), read@),
    {
        if self.ended {
            return Polled::Done;
        }
        match read {
            ReadOutcome::Filled(bytes) => {
                if bytes.len() > 0 {
                    Polled::Chunk(slice_to_vec(bytes))
                } else {
                    self.ended = true;
                    Polled::Done
                }
            },
            ReadOutcome::Failed(error) => {
                self.ended = true;
                Polled::Failed(error)
            },
            ReadOutcome::Pending => Polled::Pending,
        }
    }
}

/// Each read is answered by one poll.
pub proof fn lemma_items_len<E>(ended: bool, reads: Seq<ReadView<E>>)
    ensures
        items(ended, reads).len() == reads.len(),
    decreases reads.len(),
{
    if reads.len() > 0 {
        lemma_items_len(ends(ended, reads[0]), reads.skip(1));
    }
}

/// A stream that has ended gives nothing more, however often it is polled
/// and whatever the reads would give.
pub proof fn lemma_ended_gives_nothing<E>(reads: Seq<ReadView<E>>)
    ensures
        items(true, reads).len() == reads.len(),
        forall|i: int|
            0 <= i < reads.len() ==> #[trigger] items(true, reads)[i] == PolledView::<E>::Done,
        delivered(items(true, reads)) == Seq::<u8>::empty(),
    decreases reads.len(),
{
    if reads.len() > 0 {
        lemma_ended_gives_nothing(reads.skip(1));
        let rest = items(true, reads.skip(1));
        let all = seq![PolledView::<E>::Done] + rest;
        assert(all.skip(1) =~= rest);
        assert forall|i: int| 0 <= i < reads.len() implies #[trigger] items(true, reads)[i]
            == PolledView::<E>::Done by {
            if i > 0 {
                assert(all[i] == rest[i - 1]);
            }
        }
    }
}

/// The chunks of a stream, put together, are the bytes that the source gave
/// up to its end or its first failure: nothing is lost, added or moved.
pub proof fn lemma_delivered_is_offered<E>(reads: Seq<ReadView<E>>)
    ensures
        delivered(items(false, reads)) == offered(reads),
    decreases reads.len(),
{
    if reads.len() > 0 {
        let first = item(false, reads[0]);
        let rest = items(ends(false, reads[0]), reads.skip(1));
        let all = seq![first] + rest;
        assert(all.skip(1) =~= rest);
        assert(all[0] == first);
        if is_last(reads[0]) {
            lemma_ended_gives_nothing(reads.skip(1));
        } else {
            lemma_delivered_is_offered(reads.skip(1));
        }
    }
}

/// The read that ends the stream is answered with its error, where it
/// failed, or with the end, and every later poll is answered with the end.
/// Before it, each read that put bytes into the buffer is answered with a
/// chunk of those bytes.
pub proof fn lemma_stream_ends_once<E>(reads: Seq<ReadView<E>>, last: int)
    requires
        0 <= last < reads.len(),
        is_last(reads[last]),
        forall|i: int| 0 <= i < last ==> !is_last(#[trigger] reads[i]),
    ensures
        items(false, reads).len() == reads.len(),
        forall|i: int|
            0 <= i <= last ==> #[trigger] items(false, reads)[i] == item(false, reads[i]),
        forall|i: int|
            last < i < reads.len() ==> #[trigger] items(false, reads)[i] == PolledView::<E>::Done,
    decreases reads.len(),
{
    let first = item(false, reads[0]);
    let tail = reads.skip(1);
    let rest = items(ends(false, reads[0]), tail);
    let all = seq![first] + rest;
    lemma_items_len(false, reads);
    lemma_items_len(ends(false, reads[0]), tail);
    if last == 0 {
        lemma_ended_gives_nothing(tail);
        assert forall|i: int| last < i < reads.len() implies #[trigger] items(false, reads)[i]
            == PolledView::<E>::Done by {
            assert(all[i] == rest[i - 1]);
        }
    } else {
        assert(!is_last(reads[0]));
        assert forall|i: int| 0 <= i < last - 1 implies !is_last(#[trigger] tail[i]) by {
            assert(tail[i] == reads[i + 1]);
        }
        lemma_stream_ends_once(tail, last - 1);
        assert forall|i: int| 0 <= i <= last implies #[trigger] items(false, reads)[i] == item(
            false,
            reads[i],
        ) by {
            if i > 0 {
                assert(all[i] == rest[i - 1]);
                assert(tail[i - 1] == reads[i]);
            }
        }
        assert forall|i: int| last < i < reads.len() implies #[trigger] items(false, reads)[i]
            == PolledView::<E>::Done by {
            assert(all[i] == rest[i - 1]);
        }
    }
}

/// Whether a read put no more bytes into the buffer than the buffer holds.
pub open spec fn fits_buffer<E>(read: ReadView<E>) -> bool {
    read matches ReadView::Filled(bytes) ==> bytes.len() <= CHUNK_SIZE
}

/// Whether what a poll gave is no chunk, or a chunk that is not empty and
/// not larger than the buffer.
pub open spec fn is_whole<E>(polled: PolledView<E>) -> bool {
    polled matches PolledView::Chunk(bytes) ==> 0 < bytes.len() <= CHUNK_SIZE
}

/// Where no read puts more than a buffer's worth of bytes, no chunk is
/// larger than the buffer, and none is empty.
pub proof fn lemma_chunks_fit_buffer<E>(ended: bool, reads: Seq<ReadView<E>>)
    requires
        forall|i: int| 0 <= i < reads.len() ==> fits_buffer(#[trigger] reads[i]),
    ensures
        forall|i: int|
            0 <= i < items(ended, reads).len() ==> is_whole(#[trigger] items(ended, reads)[i]),
    decreases reads.len(),
{
    if reads.len() > 0 {
        let tail = reads.skip(1);
        let rest = items(ends(ended, reads[0]), tail);
        let all = seq![item(ended, reads[0])] + rest;
        assert forall|i: int| 0 <= i < tail.len() implies fits_buffer(#[trigger] tail[i]) by {
            assert(tail[i] == reads[i + 1]);
        }
        lemma_chunks_fit_buffer(ends(ended, reads[0]), tail);
        assert(fits_buffer(reads[0]));
        assert forall|i: int| 0 <= i < all.len() implies is_whole(#[trigger] all[i]) by {
            if i > 0 {
                assert(all[i] == rest[i - 1]);
            }
        }
    }
}

} // verus!
