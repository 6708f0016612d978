//! A buffer that collects the bytes of a stream and hands out the segments
//! that a zero byte has ended.

use vstd::prelude::*;
use vstd::slice::slice_subrange;

verus! {

/// The size of a fresh buffer, and the least size of any buffer.
pub const INITIAL_BUFFER_SIZE: usize = 1024;

/// The place of a complete segment in the buffer: the bytes from `start` up
/// to `end`, without the zero byte at `end`. A segment is good for the
/// version of the buffer that it names and no other.
#[derive(Clone, Copy, Debug, PartialEq, Eq, Structural)]
pub struct Segment {
    pub start: usize,
    pub end: usize,
    pub buffer_version: u32,
}

#[derive(Clone, Copy, Debug, PartialEq, Eq, Structural)]
pub enum Error {
    /// The source had no more bytes to give.
    Disconnected,
}

/// Segments are good until the next read: where a read has handed out
/// segments, the tail starts behind them, so that the next read makes a new
/// version of the buffer, of which none of them is.
pub proof fn segments_last_until_the_next_read(
    segments: Seq<Segment>,
    bytes: Seq<u8>,
    upto: int,
    version: u32,
)
    requires
        tiles(segments, bytes, upto, version),
        segments.len() > 0,
        version < u32::MAX,
    ensures
        upto > 0,
        forall|i: int|
            0 <= i < segments.len() ==> (#[trigger] segments[i]).buffer_version != version + 1,
{
    assert(segments.last() == segments[segments.len() - 1]);
}

impl Error {
    /// The message of the error.
    pub fn to_string(&self) -> (message: String)
        ensures
            message@ == "input disconnected"@,
    {
        "input disconnected".to_owned()
    }
}

pub struct SegmentedReader {
    buffer: Vec<u8>,
    length: usize,
    next_segment_start: usize,
    buffer_version: u32,
}

/// Whether `segments` are the complete segments of `bytes` below `upto`:
/// the first one starts at zero, each one ends at a zero byte and holds none,
/// the next one starts behind that zero byte, and the last one ends just
/// below `upto`. Each one names `version`.
pub open spec fn tiles(segments: Seq<Segment>, bytes: Seq<u8>, upto: int, version: u32) -> bool {
    &&& upto <= bytes.len()
    &&& if segments.len() == 0 {
        upto == 0
    } else {
        segments[0].start == 0 && segments.last().end + 1 == upto
    }
    &&& forall|i: int|
        0 <= i < segments.len() ==> {
            &&& (#[trigger] segments[i]).buffer_version == version
            &&& segments[i].start <= segments[i].end < upto
            &&& bytes[segments[i].end as int] == 0
        }
    &&& forall|i: int|
        0 <= i < segments.len() - 1 ==> (#[trigger] segments[i + 1]).start == segments[i].end + 1
    &&& forall|i: int, j: int|
        #![trigger segments[i], bytes[j]]
        0 <= i < segments.len() && segments[i].start <= j < segments[i].end ==> bytes[j] != 0
}

impl SegmentedReader {
    /// The bytes that the buffer holds: the segments that were handed out
    /// last, with their zero bytes, and behind them the bytes of the segment
    /// that is not complete yet.
    pub closed spec fn bytes(&self) -> Seq<u8> {
        self.buffer@.subrange(0, self.length as int)
    }

    /// The number of bytes that the buffer has room for.
    pub closed spec fn capacity(&self) -> nat {
        self.buffer@.len()
    }

    /// Where the segment that is not complete yet starts.
    pub closed spec fn next_start(&self) -> nat {
        self.next_segment_start as nat
    }

    /// The version of the buffer; segments of another version are stale.
    pub closed spec fn version(&self) -> u32 {
        self.buffer_version
    }

    pub closed spec fn wf(&self) -> bool {
        &&& self.next_segment_start <= self.length <= self.buffer@.len()
        &&& self.buffer@.len() >= INITIAL_BUFFER_SIZE
        &&& forall|i: int| self.next_segment_start <= i < self.length ==> self.buffer@[i] != 0
    }

    /// The bytes of the segment that is not complete yet.
    pub open spec fn tail(&self) -> Seq<u8> {
        self.bytes().subrange(self.next_start() as int, self.bytes().len() as int)
    }

    /// The room that the buffer has once the segments that were handed out
    /// are dropped from it: what it has now if there are no such segments or
    /// nothing but them, else twice the length of the tail and the initial
    /// size at least.
    pub open spec fn room(&self) -> nat {
        if self.next_start() == 0 || self.tail().len() == 0 {
            self.capacity()
        } else if 2 * self.tail().len() > INITIAL_BUFFER_SIZE {
            2 * self.tail().len()
        } else {
            INITIAL_BUFFER_SIZE as nat
        }
    }

    /// The number of bytes that the next read takes at most: the room that
    /// is free behind the tail, and as much as the whole room if none is
    /// free, because the buffer then doubles.
    pub open spec fn window(&self) -> nat {
        if self.tail().len() == self.room() {
            self.room()
        } else {
            (self.room() - self.tail().len()) as nat
        }
    }

    /// Whether a read can be made: a new version has a number, and the sizes
    /// that the buffer may grow to can be counted.
    pub open spec fn readable(&self) -> bool {
        &&& self.next_start() != 0 ==> self.version() < u32::MAX
        &&& 2 * self.capacity() <= usize::MAX
    }

    /// Whether `segment` is a place in the buffer as it is now.
    pub open spec fn holds(&self, segment: Segment) -> bool {
        &&& segment.buffer_version == self.version()
        &&& segment.start <= segment.end <= self.bytes().len()
    }

    /// The lemma that opens `wf` for the tail: no byte of the tail is zero.
    pub proof fn tail_has_no_zero(&self)
        requires
            self.wf(),
        ensures
            self.next_start() <= self.bytes().len() <= self.capacity(),
            self.capacity() >= INITIAL_BUFFER_SIZE,
            forall|i: int| 0 <= i < self.tail().len() ==> self.tail()[i] != 0,
    {
    }

    /// An empty reader with the initial room and version zero.
    pub fn new() -> (reader: Self)
        ensures
            reader.wf(),
            reader.bytes().len() == 0,
            reader.next_start() == 0,
            reader.version() == 0,
            reader.capacity() == INITIAL_BUFFER_SIZE,
    {
        Self {
            buffer: vec![0u8; INITIAL_BUFFER_SIZE],
            length: 0,
            buffer_version: 0,
            next_segment_start: 0,
        }
    }

    pub fn buffer_version(&self) -> (version: u32)
        ensures
            version == self.version(),
    {
        self.buffer_version
    }

    /// The size of the buffer.
    pub fn buffer_size(&self) -> (size: usize)
        ensures
            size == self.capacity(),
    {
        self.buffer.len()
    }

    /// Tells whether `read` can be called.
    pub fn can_read(&self) -> (readable: bool)
        requires
            self.wf(),
        ensures
            readable == self.readable(),
    {
        (self.next_segment_start == 0 || self.buffer_version < u32::MAX) && self.buffer.len()
            <= usize::MAX / 2
    }

    /// The number of bytes that the next `read` takes at most.
    pub fn next_window(&self) -> (window: usize)
        requires
            self.wf(),
            self.readable(),
        ensures
            window == self.window(),
    {
        let kept: usize = self.length - self.next_segment_start;
        let room: usize = if self.next_segment_start == 0 || kept == 0 {
            self.buffer.len()
        } else if 2 * kept > INITIAL_BUFFER_SIZE {
            2 * kept
        } else {
            INITIAL_BUFFER_SIZE
        };
        if kept == room {
            room
        } else {
            room - kept
        }
    }

    /// Takes the bytes that a source has delivered, and hands out the
    /// segments that they complete.
    ///
    /// First the segments that were handed out before are dropped, which
    /// makes a new version of the buffer if there were any; a buffer that is
    /// full then doubles. A source that delivers nothing has disconnected.
    /// Else the bytes are put behind the tail, and each zero byte among them
    /// ends a segment. The source may deliver as many bytes as the window
    /// admits, and no more: none of its bytes is ever dropped.
    pub fn read(&mut self, from: &[u8]) -> (result: Result<Vec<Segment>, Error>)
        requires
            old(self).wf(),
            old(self).readable(),
            from@.len() <= old(self).window(),
        ensures
            final(self).wf(),
            final(self).version() == if old(self).next_start() == 0 {
                old(self).version()
            } else {
                (old(self).version() + 1) as u32
            },
            final(self).capacity() == if old(self).tail().len() == old(self).room() {
                2 * old(self).room()
            } else {
                old(self).room()
            },
            match result {
                Ok(segments) => {
                    &&& from@.len() > 0
                    &&& final(self).bytes() == old(self).tail() + from@
                    &&& tiles(
                        segments@,
                        final(self).bytes(),
                        final(self).next_start() as int,
                        final(self).version(),
                    )
                    &&& forall|i: int|
                        0 <= i < segments@.len() ==> final(self).holds(#[trigger] segments@[i])
                },
                Err(error) => {
                    &&& from@.len() == 0
                    &&& error == Error::Disconnected
                    &&& final(self).bytes() == old(self).tail()
                    &&& final(self).next_start() == 0
                },
            },
    {
        self.consume_old_segments();
        assert(self.bytes().len() == self.length);
        if self.length == self.buffer.len() {
            self.grow_buffer();
        }
        assert(self.bytes().len() == self.length);
        assert(self.buffer@.len() - self.length == old(self).window());
        let length: usize = from.len();
        if length == 0 {
            return Err(Error::Disconnected);
        }
        let search_start: usize = self.length;
        let search_end: usize = self.length + length;
        let ghost stem = self.bytes();
        let ghost size = self.buffer@.len();
        let ghost version = self.buffer_version;
        assert forall|i: int| 0 <= i < search_start implies stem[i] != 0 by {
            assert(stem[i] == self.buffer@[i]);
        }
        let mut copied: usize = 0;
        while copied < length
            invariant
                copied <= length <= from@.len(),
                search_start + length == search_end <= self.buffer@.len(),
                self.length == search_start,
                self.next_segment_start == 0,
                self.buffer_version == version,
                self.buffer@.len() >= INITIAL_BUFFER_SIZE,
                self.buffer@.len() == size,
                self.buffer@.subrange(0, search_start as int) == stem,
                forall|i: int| 0 <= i < search_start ==> stem[i] != 0,
                self.buffer@.subrange(search_start as int, search_start + copied) == from@.take(
                    copied as int,
                ),
            decreases length - copied,
        {
            self.buffer[search_start + copied] = from[copied];
            copied = copied + 1;
            assert(self.buffer@.subrange(search_start as int, search_start + copied)
                =~= from@.take(copied as int));
            assert(self.buffer@.subrange(0, search_start as int) =~= stem);
        }
        self.length = search_end;
        assert(from@.take(length as int) =~= from@);
        assert(self.bytes() =~= stem + from@);
        assert forall|i: int| 0 <= i < search_start implies self.buffer@[i] != 0 by {
            assert(self.buffer@.subrange(0, search_start as int)[i] == self.buffer@[i]);
        }

        let mut segments: Vec<Segment> = Vec::new();
        let mut position: usize = search_start;
        while position < search_end
            invariant
                search_start <= position <= search_end == self.length <= self.buffer@.len(),
                self.next_segment_start <= position,
                self.buffer@.len() >= INITIAL_BUFFER_SIZE,
                self.buffer@.len() == size,
                self.bytes() == stem + from@,
                self.buffer_version == version,
                forall|i: int| self.next_segment_start <= i < position ==> self.buffer@[i] != 0,
                tiles(
                    segments@,
                    self.bytes(),
                    self.next_segment_start as int,
                    self.buffer_version,
                ),
            decreases search_end - position,
        {
            if self.buffer[position] == 0 {
                let ghost earlier = segments@;
                segments.push(
                    Segment {
                        start: self.next_segment_start,
                        end: position,
                        buffer_version: self.buffer_version,
                    },
                );
                self.next_segment_start = position + 1;
                proof {
                    let bytes = self.bytes();
                    assert(bytes[position as int] == self.buffer@[position as int]);
                    assert forall|i: int, j: int|
                        #![trigger segments@[i], bytes[j]]
                        0 <= i < segments@.len() && segments@[i].start <= j < segments@[i].end
                        implies bytes[j] != 0 by {
                        if i < earlier.len() {
                            assert(segments@[i] == earlier[i]);
                        } else {
                            assert(bytes[j] == self.buffer@[j]);
                        }
                    }
                    assert forall|i: int| 0 <= i < segments@.len() - 1 implies (
                    #[trigger] segments@[i + 1]).start == segments@[i].end + 1 by {
                        if i + 1 < earlier.len() {
                            assert(segments@[i + 1] == earlier[i + 1]);
                            assert(segments@[i] == earlier[i]);
                        } else {
                            assert(segments@[i] == earlier[i]);
                            assert(earlier.last() == earlier[i]);
                        }
                    }
                    assert forall|i: int| 0 <= i < segments@.len() implies {
                        &&& (#[trigger] segments@[i]).buffer_version == self.buffer_version
                        &&& segments@[i].start <= segments@[i].end < self.next_segment_start
                        &&& bytes[segments@[i].end as int] == 0
                    } by {
                        if i < earlier.len() {
                            assert(segments@[i] == earlier[i]);
                        }
                    }
                }
            }
            position = position + 1;
        }
        Ok(segments)
    }

    /// The bytes of `segment`.
    pub fn segment(&self, s: &Segment) -> (bytes: &[u8])
        requires
            self.wf(),
            self.holds(*s),
        ensures
            bytes@ == self.bytes().subrange(s.start as int, s.end as int),
    {
        let bytes: &[u8] = slice_subrange(self.buffer.as_slice(), s.start, s.end);
        assert(bytes@ =~= self.bytes().subrange(s.start as int, s.end as int));
        bytes
    }

    /// Tells whether `segment` is a place in the buffer as it is now.
    pub fn is_current(&self, s: &Segment) -> (current: bool)
        requires
            self.wf(),
        ensures
            current == self.holds(*s),
    {
        s.buffer_version == self.buffer_version && s.start <= s.end && s.end <= self.length
    }

    /// Drops every byte and makes a new version of the buffer.
    pub fn clear(&mut self)
        requires
            old(self).wf(),
            old(self).version() < u32::MAX,
        ensures
            final(self).wf(),
            final(self).version() == old(self).version() + 1,
            final(self).bytes().len() == 0,
            final(self).next_start() == 0,
            final(self).capacity() == old(self).capacity(),
    {
        self.buffer_version += 1;
        self.length = 0;
        self.next_segment_start = 0;
    }

    /// Drops the segments that were handed out, if there are any, and, if
    /// so, makes a new version of the buffer. The tail moves to the front,
    /// into a buffer of its own if it is not empty.
    fn consume_old_segments(&mut self)
        requires
            old(self).wf(),
            old(self).readable(),
        ensures
            final(self).wf(),
            final(self).next_segment_start == 0,
            final(self).bytes() == old(self).tail(),
            final(self).buffer_version == if old(self).next_segment_start == 0 {
                old(self).buffer_version
            } else {
                (old(self).buffer_version + 1) as u32
            },
            final(self).capacity() == old(self).room(),
    {
        if self.next_segment_start == 0 {
            assert(self.bytes() =~= self.tail());
            return ;
        }
        self.buffer_version += 1;

        if self.next_segment_start == self.length {
            self.length = 0;
            self.next_segment_start = 0;
            assert(self.bytes() =~= old(self).tail());
        } else {
            let kept: usize = self.length - self.next_segment_start;
            let buffer_size: usize = if 2 * kept > INITIAL_BUFFER_SIZE {
                2 * kept
            } else {
                INITIAL_BUFFER_SIZE
            };
            let mut new_buffer: Vec<u8> = vec![0u8; buffer_size];
            let mut moved: usize = 0;
            while moved < kept
                invariant
                    moved <= kept <= buffer_size == new_buffer@.len(),
                    self.next_segment_start + kept == self.length <= self.buffer@.len(),
                    self.buffer@ == old(self).buffer@,
                    self.next_segment_start == old(self).next_segment_start,
                    self.length == old(self).length,
                    forall|i: int|
                        0 <= i < moved ==> new_buffer@[i] == self.buffer@[self.next_segment_start
                            + i],
                decreases kept - moved,
            {
                new_buffer[moved] = self.buffer[self.next_segment_start + moved];
                moved = moved + 1;
            }
            self.buffer = new_buffer;
            self.length = kept;
            self.next_segment_start = 0;
            assert(self.bytes() =~= old(self).tail());
        }
    }

    /// Doubles the size of the buffer.
    fn grow_buffer(&mut self)
        requires
            old(self).wf(),
            2 * old(self).capacity() <= usize::MAX,
        ensures
            final(self).wf(),
            final(self).capacity() == 2 * old(self).capacity(),
            final(self).bytes() == old(self).bytes(),
            final(self).next_segment_start == old(self).next_segment_start,
            final(self).length == old(self).length,
            final(self).buffer_version == old(self).buffer_version,
    {
        let new_size: usize = 2 * self.buffer.len();
        self.buffer.resize(new_size, 0);
        assert(self.bytes() =~= old(self).bytes()) by {
            assert(self.buffer@.subrange(0, old(self).buffer@.len() as int) == old(self).buffer@);
            assert forall|i: int| 0 <= i < self.length implies self.buffer@[i] == old(
                self,
            ).buffer@[i] by {
                assert(self.buffer@.subrange(0, old(self).buffer@.len() as int)[i]
                    == self.buffer@[i]);
            }
        }
        assert forall|i: int| self.next_segment_start <= i < self.length implies self.buffer@[i]
            != 0 by {
            assert(self.buffer@.subrange(0, old(self).buffer@.len() as int)[i] == self.buffer@[i]);
        }
    }
}

} // verus!
