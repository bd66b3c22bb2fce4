//! The result-stream framing: tagged, typed values packed into messages that
//! a decoder on the other side of the stream can walk. Values are encoded
//! into an in-memory buffer; carrying the bytes to a file or socket is the
//! host shell's work.
//!
//! A message starts with a 64-bit time cursor, carries typed records — a
//! 16-bit type tag, a 16-bit length (zero for a single value), and the
//! payload — and ends with a zero type and zero length. A 64-bit all-ones
//! word is the end-of-stream sentinel.

use vstd::prelude::*;
use vstd::utf8::encode_utf8;
use vstd::string::StringSliceAdditionalSpecFns;

verus! {

/// Why a value could not be framed or carried.
#[derive(Debug, Clone, PartialEq)]
pub enum OutputStreamError {
    /// The sink could not be written.
    IoError,
    /// An empty array has no encoding.
    EmptyArrayError,
    /// The array is longer than a 16-bit length can frame.
    OversizeArrayError(usize),
    /// The string is longer than a 16-bit length can frame.
    OversizeStringError(usize),
    /// A tag pointer from the boundary was null.
    NullTagError,
    /// The string holds an embedded zero byte.
    CorruptedStringError,
    /// A failure the other kinds do not cover.
    OtherError(String),
}

/// The little-endian bytes of a 16-bit word.
pub open spec fn u16_le(v: u16) -> Seq<u8> {
    seq![(v % 256) as u8, ((v / 256) % 256) as u8]
}

/// The little-endian bytes of a 64-bit word.
pub open spec fn u64_le(v: u64) -> Seq<u8> {
    seq![
        (v % 256) as u8,
        ((v / 0x100) % 256) as u8,
        ((v / 0x10000) % 256) as u8,
        ((v / 0x1000000) % 256) as u8,
        ((v / 0x100000000) % 256) as u8,
        ((v / 0x10000000000) % 256) as u8,
        ((v / 0x1000000000000) % 256) as u8,
        ((v / 0x100000000000000) % 256) as u8,
    ]
}

/// Append the little-endian bytes of a 16-bit word.
pub fn push_u16_le(out: &mut Vec<u8>, v: u16)
    ensures
        final(out)@ == old(out)@ + u16_le(v),
{
    let ghost before = out@;
    out.push((v % 256) as u8);
    out.push(((v / 256) % 256) as u8);
    proof {
        assert(out@ =~= before + u16_le(v));
    }
}

/// Append the little-endian bytes of a 64-bit word.
pub fn push_u64_le(out: &mut Vec<u8>, v: u64)
    ensures
        final(out)@ == old(out)@ + u64_le(v),
{
    let ghost before = out@;
    out.push((v % 256) as u8);
    out.push(((v / 0x100) % 256) as u8);
    out.push(((v / 0x10000) % 256) as u8);
    out.push(((v / 0x1000000) % 256) as u8);
    out.push(((v / 0x100000000) % 256) as u8);
    out.push(((v / 0x10000000000) % 256) as u8);
    out.push(((v / 0x1000000000000) % 256) as u8);
    out.push(((v / 0x100000000000000) % 256) as u8);
    proof {
        assert(out@ =~= before + u64_le(v));
    }
}

/// A value the stream can frame: a fixed type tag, a length word, and a
/// payload encoding.
pub trait StreamWritable: Sized {
    /// The type tag written before a value of this type.
    spec fn type_repr_spec() -> u16;

    /// The length word for this value, or why it cannot be framed. A single
    /// (non-array) value writes length zero.
    spec fn length_res(&self) -> Result<u16, OutputStreamError>;

    /// The payload bytes, or why the value cannot be carried.
    spec fn payload_res(&self) -> Result<Seq<u8>, OutputStreamError>;

    /// The type tag written before a value of this type.
    fn type_repr() -> (r: u16)
        ensures
            r == Self::type_repr_spec(),
    ;

    /// Compute the length word.
    fn get_length(&self) -> (r: Result<u16, OutputStreamError>)
        ensures
            r == self.length_res(),
    ;

    /// Append the payload bytes.
    fn write_impl(&self, out: &mut Vec<u8>) -> (r: Result<(), OutputStreamError>)
        ensures
            match self.payload_res() {
                Ok(p) => r is Ok && final(out)@ == old(out)@ + p,
                Err(e) => r == Err::<(), OutputStreamError>(e) && final(out)@ == old(out)@,
            },
    ;

    /// Frame the value: type tag, length word, payload. Nothing is written
    /// when the length cannot be computed.
    fn write(&self, out: &mut Vec<u8>) -> (r: Result<(), OutputStreamError>)
        ensures
            match (self.length_res(), self.payload_res()) {
                (Ok(n), Ok(p)) => r is Ok && final(out)@ == old(out)@ + u16_le(
                    Self::type_repr_spec(),
                ) + u16_le(n) + p,
                (Err(e), _) => r == Err::<(), OutputStreamError>(e) && final(out)@ == old(out)@,
                (Ok(n), Err(e)) => r == Err::<(), OutputStreamError>(e) && final(out)@ == old(
                    out,
                )@ + u16_le(Self::type_repr_spec()) + u16_le(n),
            },
    {
        let n = self.get_length()?;
        push_u16_le(out, Self::type_repr());
        push_u16_le(out, n);
        self.write_impl(out)
    }
}

impl StreamWritable for u64 {
    open spec fn type_repr_spec() -> u16 {
        1
    }

    open spec fn length_res(&self) -> Result<u16, OutputStreamError> {
        Ok(0)
    }

    open spec fn payload_res(&self) -> Result<Seq<u8>, OutputStreamError> {
        Ok(u64_le(*self))
    }

    fn type_repr() -> (r: u16) {
        1
    }

    fn get_length(&self) -> (r: Result<u16, OutputStreamError>) {
        Ok(0)
    }

    fn write_impl(&self, out: &mut Vec<u8>) -> (r: Result<(), OutputStreamError>) {
        push_u64_le(out, *self);
        Ok(())
    }
}

impl StreamWritable for bool {
    open spec fn type_repr_spec() -> u16 {
        4
    }

    open spec fn length_res(&self) -> Result<u16, OutputStreamError> {
        Ok(0)
    }

    open spec fn payload_res(&self) -> Result<Seq<u8>, OutputStreamError> {
        Ok(
            seq![
                if *self {
                    1u8
                } else {
                    0u8
                },
            ],
        )
    }

    fn type_repr() -> (r: u16) {
        4
    }

    fn get_length(&self) -> (r: Result<u16, OutputStreamError>) {
        Ok(0)
    }

    fn write_impl(&self, out: &mut Vec<u8>) -> (r: Result<(), OutputStreamError>) {
        let ghost before = out@;
        out.push(
            if *self {
                1
            } else {
                0
            },
        );
        proof {
            assert(out@ =~= before + self.payload_res().unwrap());
        }
        Ok(())
    }
}

impl StreamWritable for i64 {
    open spec fn type_repr_spec() -> u16 {
        5
    }

    open spec fn length_res(&self) -> Result<u16, OutputStreamError> {
        Ok(0)
    }

    open spec fn payload_res(&self) -> Result<Seq<u8>, OutputStreamError> {
        Ok(u64_le(*self as u64))
    }

    fn type_repr() -> (r: u16) {
        5
    }

    fn get_length(&self) -> (r: Result<u16, OutputStreamError>) {
        Ok(0)
    }

    fn write_impl(&self, out: &mut Vec<u8>) -> (r: Result<(), OutputStreamError>) {
        push_u64_le(out, *self as u64);
        Ok(())
    }
}

impl StreamWritable for u8 {
    open spec fn type_repr_spec() -> u16 {
        9116
    }

    open spec fn length_res(&self) -> Result<u16, OutputStreamError> {
        Ok(0)
    }

    open spec fn payload_res(&self) -> Result<Seq<u8>, OutputStreamError> {
        Ok(seq![*self])
    }

    fn type_repr() -> (r: u16) {
        9116
    }

    fn get_length(&self) -> (r: Result<u16, OutputStreamError>) {
        Ok(0)
    }

    fn write_impl(&self, out: &mut Vec<u8>) -> (r: Result<(), OutputStreamError>) {
        let ghost before = out@;
        out.push(*self);
        proof {
            assert(out@ =~= before + seq![*self]);
        }
        Ok(())
    }
}

impl StreamWritable for String {
    open spec fn type_repr_spec() -> u16 {
        3
    }

    open spec fn length_res(&self) -> Result<u16, OutputStreamError> {
        if encode_utf8(self@).len() as usize > 65535 {
            Err(OutputStreamError::OversizeStringError(encode_utf8(self@).len() as usize))
        } else {
            Ok((encode_utf8(self@).len() as usize) as u16)
        }
    }

    open spec fn payload_res(&self) -> Result<Seq<u8>, OutputStreamError> {
        if exists|i: int| 0 <= i < encode_utf8(self@).len() && encode_utf8(self@)[i] == 0 {
            Err(OutputStreamError::CorruptedStringError)
        } else {
            Ok(encode_utf8(self@))
        }
    }

    fn type_repr() -> (r: u16) {
        3
    }

    fn get_length(&self) -> (r: Result<u16, OutputStreamError>) {
        let n = self.as_str().len();
        if n > 65535 {
            Err(OutputStreamError::OversizeStringError(n))
        } else {
            Ok(n as u16)
        }
    }

    fn write_impl(&self, out: &mut Vec<u8>) -> (r: Result<(), OutputStreamError>) {
        let ghost before = out@;
        let bytes = self.as_str().as_bytes();
        proof {
            assert(bytes@ == encode_utf8(self@));
        }
        let n = bytes.len();
        let mut i: usize = 0;
        while i < n
            invariant
                i <= n,
                n == bytes@.len(),
                bytes@ == encode_utf8(self@),
                forall|k: int| 0 <= k < i ==> bytes@[k] != 0,
            decreases n - i,
        {
            if bytes[i] == 0 {
                proof {
                    assert(encode_utf8(self@)[i as int] == 0);
                }
                return Err(OutputStreamError::CorruptedStringError);
            }
            i = i + 1;
        }
        proof {
            assert(forall|k: int| 0 <= k < encode_utf8(self@).len() ==> encode_utf8(self@)[k] != 0);
        }
        let mut j: usize = 0;
        while j < n
            invariant
                j <= n,
                n == bytes@.len(),
                out@ == before + bytes@.take(j as int),
            decreases n - j,
        {
            let b = bytes[j];
            out.push(b);
            j = j + 1;
            proof {
                assert(before + bytes@.take(j as int) =~= (before + bytes@.take(j - 1)).push(
                    bytes@[j - 1],
                ));
            }
        }
        proof {
            assert(bytes@.take(n as int) =~= bytes@);
        }
        Ok(())
    }
}

/// An in-memory byte sink with a read cursor, so that what was framed can be
/// taken back out in pieces.
pub struct InternalBuffer {
    pub buffer: Vec<u8>,
    pub last_read_index: usize,
}

impl InternalBuffer {
    pub fn new() -> (r: InternalBuffer)
        ensures
            r.buffer@ == Seq::<u8>::empty(),
            r.last_read_index == 0,
    {
        InternalBuffer { buffer: Vec::new(), last_read_index: 0 }
    }

    /// Append bytes to the sink; every byte is taken.
    pub fn write(&mut self, buf: &Vec<u8>) -> (r: usize)
        ensures
            final(self).buffer@ == old(self).buffer@ + buf@,
            final(self).last_read_index == old(self).last_read_index,
            r == buf@.len(),
    {
        let ghost before = self.buffer@;
        let n = buf.len();
        let mut i: usize = 0;
        while i < n
            invariant
                i <= n,
                n == buf@.len(),
                self.buffer@ == before + buf@.take(i as int),
                self.last_read_index == old(self).last_read_index,
            decreases n - i,
        {
            let b = buf[i];
            self.buffer.push(b);
            i = i + 1;
            proof {
                assert(before + buf@.take(i as int) =~= (before + buf@.take(i - 1)).push(
                    buf@[i - 1],
                ));
            }
        }
        proof {
            assert(buf@.take(n as int) =~= buf@);
        }
        n
    }

    /// Read up to `length` bytes from the cursor, advancing it.
    pub fn try_read(&mut self, length: usize) -> (r: Result<Vec<u8>, OutputStreamError>)
        requires
            old(self).last_read_index <= old(self).buffer@.len(),
        ensures
            final(self).buffer@ == old(self).buffer@,
            r matches Ok(data) ==> {
                &&& data@ == old(self).buffer@.subrange(
                    old(self).last_read_index as int,
                    final(self).last_read_index as int,
                )
                &&& final(self).last_read_index == (if old(self).last_read_index + length <= old(
                    self,
                ).buffer@.len() {
                    (old(self).last_read_index + length) as int
                } else {
                    old(self).buffer@.len() as int
                })
            },
            r is Ok,
    {
        let avail = self.buffer.len() - self.last_read_index;
        let take = if length < avail {
            length
        } else {
            avail
        };
        let mut data: Vec<u8> = Vec::new();
        let mut i: usize = 0;
        while i < take
            invariant
                i <= take,
                self.last_read_index + take <= self.buffer@.len(),
                self.buffer@ == old(self).buffer@,
                self.last_read_index == old(self).last_read_index,
                data@ == self.buffer@.subrange(
                    self.last_read_index as int,
                    self.last_read_index + i,
                ),
            decreases take - i,
        {
            let total = self.buffer.len();
            let b = self.buffer[self.last_read_index + i];
            data.push(b);
            i = i + 1;
            proof {
                assert(self.buffer@.subrange(
                    self.last_read_index as int,
                    self.last_read_index + i,
                ) =~= self.buffer@.subrange(
                    self.last_read_index as int,
                    self.last_read_index + i - 1,
                ).push(self.buffer@[self.last_read_index + i - 1]));
            }
        }
        self.last_read_index = self.last_read_index + take;
        Ok(data)
    }
}

/// The framing layer over the in-memory sink: message boundaries and typed
/// records.
pub struct OutputStream {
    pub writer: InternalBuffer,
}

impl OutputStream {
    pub fn new(writer: InternalBuffer) -> (r: OutputStream)
        ensures
            r.writer == writer,
    {
        OutputStream { writer }
    }

    /// How many bytes the stream holds.
    pub fn get_bytes_written(&self) -> (r: usize)
        ensures
            r == self.writer.buffer@.len(),
    {
        self.writer.buffer.len()
    }

    /// Open a message: its 64-bit time cursor.
    pub fn begin_message(&mut self, time_cursor: u64) -> (r: Result<(), OutputStreamError>)
        ensures
            r is Ok,
            final(self).writer.buffer@ == old(self).writer.buffer@ + u64_le(time_cursor),
            final(self).writer.last_read_index == old(self).writer.last_read_index,
    {
        let mut bytes: Vec<u8> = Vec::new();
        push_u64_le(&mut bytes, time_cursor);
        self.writer.write(&bytes);
        proof {
            assert(old(self).writer.buffer@ + Seq::<u8>::empty() + u64_le(time_cursor) =~= old(
                self,
            ).writer.buffer@ + u64_le(time_cursor));
        }
        Ok(())
    }

    /// Close a message: a zero type tag and a zero length.
    pub fn end_message(&mut self) -> (r: Result<(), OutputStreamError>)
        ensures
            r is Ok,
            final(self).writer.buffer@ == old(self).writer.buffer@ + u16_le(0) + u16_le(0),
            final(self).writer.last_read_index == old(self).writer.last_read_index,
    {
        let mut bytes: Vec<u8> = Vec::new();
        push_u16_le(&mut bytes, 0);
        push_u16_le(&mut bytes, 0);
        self.writer.write(&bytes);
        proof {
            assert(old(self).writer.buffer@ + (Seq::<u8>::empty() + u16_le(0) + u16_le(0)) =~= old(
                self,
            ).writer.buffer@ + u16_le(0) + u16_le(0));
        }
        Ok(())
    }

    /// Close the stream: the end-of-stream sentinel.
    pub fn end_of_stream(&mut self) -> (r: Result<(), OutputStreamError>)
        ensures
            r is Ok,
            final(self).writer.buffer@ == old(self).writer.buffer@ + u64_le(u64::MAX),
            final(self).writer.last_read_index == old(self).writer.last_read_index,
    {
        let mut bytes: Vec<u8> = Vec::new();
        push_u64_le(&mut bytes, u64::MAX);
        self.writer.write(&bytes);
        proof {
            assert(old(self).writer.buffer@ + (Seq::<u8>::empty() + u64_le(u64::MAX)) =~= old(
                self,
            ).writer.buffer@ + u64_le(u64::MAX));
        }
        Ok(())
    }

    /// Frame one typed value into the stream.
    pub fn write<T: StreamWritable>(&mut self, value: &T) -> (r: Result<(), OutputStreamError>)
        ensures
            final(self).writer.last_read_index == old(self).writer.last_read_index,
            match (value.length_res(), value.payload_res()) {
                (Ok(n), Ok(p)) => r is Ok && final(self).writer.buffer@ == old(
                    self,
                ).writer.buffer@ + u16_le(T::type_repr_spec()) + u16_le(n) + p,
                (Err(e), _) => r == Err::<(), OutputStreamError>(e) && final(self).writer.buffer@
                    == old(self).writer.buffer@,
                (Ok(n), Err(e)) => r == Err::<(), OutputStreamError>(e),
            },
    {
        let mut bytes: Vec<u8> = Vec::new();
        let outcome = value.write(&mut bytes);
        match outcome {
            Ok(()) => {
                self.writer.write(&bytes);
                proof {
                    if let (Ok(n), Ok(p)) = (value.length_res(), value.payload_res()) {
                        assert(old(self).writer.buffer@ + (Seq::<u8>::empty() + u16_le(
                            T::type_repr_spec(),
                        ) + u16_le(n) + p) =~= old(self).writer.buffer@ + u16_le(
                            T::type_repr_spec(),
                        ) + u16_le(n) + p);
                    }
                }
                Ok(())
            },
            Err(e) => Err(e),
        }
    }

    /// Read up to `length` bytes back out of the in-memory sink.
    pub fn try_read(&mut self, length: usize) -> (r: Result<Vec<u8>, OutputStreamError>)
        requires
            old(self).writer.last_read_index <= old(self).writer.buffer@.len(),
        ensures
            final(self).writer.buffer@ == old(self).writer.buffer@,
            r is Ok,
    {
        self.writer.try_read(length)
    }

    /// Flushing the in-memory sink is a no-op; the host shell drains it.
    pub fn flush(&mut self) -> (r: Result<(), OutputStreamError>)
        ensures
            r is Ok,
            *final(self) == *old(self),
    {
        Ok(())
    }
}

} // verus!
