//! The streaming decoder for log frames.
//!
//! A device sends its log as frames. Each frame names a format string by its
//! index in a table that was read from the firmware image, and carries the
//! arguments for it. On the wire a frame is packed with a reverse
//! zero-compressing byte stuffing, which leaves no zero byte in it, and ends
//! with a zero byte. Bytes arrive in pieces of any size; the decoder keeps
//! what it has not decoded yet.
//!
//! The table is that of the crate `defmt_decoder`, the packing that of the
//! crate `rzcobs`. What is decided here, and proved, is the framing: what is
//! kept, what is handed on, and what is dropped.
//!
//! The plain bytes of a frame are read by `Table::decode`, and the frame
//! that it finds is printed by that frame's `display_timestamp` and
//! `display_message`. The table takes the format strings of an image as they
//! come and shows them to nobody, and reading or printing by some of them
//! panics: an `isize` under a hexadecimal hint, a time stamp under a calendar
//! hint that is beyond what the calendar holds, an array of more elements
//! than memory has room for. Nothing tells such a table from another
//! beforehand. So the decoder does not make those calls itself: it is handed
//! a reader, calls it on the bytes of each frame, and states what it makes
//! of whatever the reader returns.

use crate::scan::{lemma_run_ends, lemma_run_len, lemma_run_of_longer, lemma_run_through, run_len};
use defmt_decoder::Table;
use vstd::prelude::*;

verus! {

/// The table of format strings of one firmware image.
#[verifier::external_type_specification]
#[verifier::external_body]
pub struct ExTable(Table);

/// How the frames of a table are laid out on the wire.
#[derive(Debug, Copy, Clone, PartialEq, Eq, Structural)]
pub enum Encoding {
    /// Frame after frame, with nothing between them.
    Raw,
    /// Each frame packed free of zero bytes and followed by a zero byte.
    Rzcobs,
}

/// Why no frame was decoded.
#[derive(Debug, Copy, Clone, PartialEq, Eq, Structural)]
pub enum DecodeError {
    /// More data is needed to decode the next frame.
    UnexpectedEof,
    /// The frame was not in the expected format.
    Malformed,
}

/// One decoded log record.
#[derive(Debug, Clone, PartialEq, Eq)]
pub struct Frame {
    /// The time stamp as the table's format prints it, where the table has one.
    pub timestamp: Option<String>,
    /// The name of the level, in lower case, where the record has a level.
    pub level: Option<String>,
    /// The message with its arguments filled in. It may hold line breaks.
    pub message: String,
}

/// A frame as contracts see it.
pub struct FrameView {
    pub timestamp: Option<Seq<char>>,
    pub level: Option<Seq<char>>,
    pub message: Seq<char>,
}

/// The text of an optional string.
pub open spec fn text_of(s: Option<String>) -> Option<Seq<char>> {
    match s {
        Some(s) => Some(s@),
        None => None,
    }
}

impl View for Frame {
    type V = FrameView;

    open spec fn view(&self) -> FrameView {
        FrameView {
            timestamp: text_of(self.timestamp),
            level: text_of(self.level),
            message: self.message@,
        }
    }
}

/// An outcome of decoding as contracts see it.
pub open spec fn outcome_of(r: Result<Frame, DecodeError>) -> Result<FrameView, DecodeError> {
    match r {
        Ok(frame) => Ok(frame@),
        Err(e) => Err(e),
    }
}

/// What a reader made of the plain bytes of a frame: the frame and the
/// number of bytes it took, or why there is none.
pub type Reading = Result<(Frame, usize), DecodeError>;

/// What a reader made of the plain bytes of a frame, as contracts see it.
pub type ReadingView = Result<(FrameView, nat), DecodeError>;

/// A reading as contracts see it.
pub open spec fn reading_view(o: Reading) -> ReadingView {
    match o {
        Ok((frame, used)) => Ok((frame@, used as nat)),
        Err(e) => Err(e),
    }
}

/// `reading` is what `read` may make of the bytes `plain` under `table`.
pub open spec fn reads<R: Fn(&Table, &[u8]) -> Reading>(
    read: R,
    table: Table,
    plain: Seq<u8>,
    reading: ReadingView,
) -> bool {
    exists|bytes: &[u8], o: Reading|
        bytes@ == plain && #[trigger] call_ensures(read, (&table, bytes), o) && reading_view(o)
            == reading
}

/// What `Table::parse` of `defmt_decoder` makes of the bytes of a firmware
/// image: a table, nothing where the image has no section for one, or the
/// text of its error.
pub uninterp spec fn table_parsed(elf: Seq<u8>) -> Result<Option<Table>, Seq<char>>;

/// What `Table::encoding` of `defmt_decoder` says of a table.
pub uninterp spec fn table_encoding(table: Table) -> Encoding;

/// What `rzcobs::decode` makes of a packed frame: its plain bytes, or nothing
/// where it is not packed as it should be.
pub uninterp spec fn rzcobs_decoded(data: Seq<u8>) -> Option<Seq<u8>>;

/// `Table::parse` of `defmt_decoder`. The result is a function of the bytes
/// alone; an error is handed on as its text.
#[verifier::external_body]
pub(crate) fn parse_table(elf: &[u8]) -> (r: Result<Option<Table>, String>)
    ensures
        match r {
            Ok(table) => table_parsed(elf@) == Ok::<Option<Table>, Seq<char>>(table),
            Err(e) => table_parsed(elf@) == Err::<Option<Table>, Seq<char>>(e@),
        },
{
    match Table::parse(elf) {
        Ok(table) => Ok(table),
        Err(e) => Err(e.to_string()),
    }
}

/// `Table::encoding` of `defmt_decoder`, which knows these two encodings.
#[verifier::external_body]
pub(crate) fn encoding_of(table: &Table) -> (e: Encoding)
    ensures
        e == table_encoding(*table),
{
    match table.encoding() {
        defmt_decoder::Encoding::Rzcobs => Encoding::Rzcobs,
        _ => Encoding::Raw,
    }
}

/// `rzcobs::decode`. The result is a function of the bytes alone.
#[verifier::external_body]
pub(crate) fn unpack(data: &[u8]) -> (r: Option<Vec<u8>>)
    ensures
        match r {
            Some(plain) => rzcobs_decoded(data@) == Some(plain@),
            None => rzcobs_decoded(data@) is None,
        },
{
    match rzcobs::decode(data) {
        Ok(plain) => Some(plain),
        Err(_) => None,
    }
}

/// What `rzcobs::encode` makes of the plain bytes of a frame.
pub uninterp spec fn rzcobs_encoded(data: Seq<u8>) -> Seq<u8>;

/// `rzcobs::encode`. The result is a function of the bytes alone. No byte
/// that the encoder writes is zero: it writes a byte of the input only where
/// that byte is not zero, and each byte of its own has a bit set. Of input
/// that is not empty it writes at least one byte: it starts a run with the
/// first byte of the input, and closes every run with a byte of its own.
#[verifier::external_body]
pub(crate) fn pack(data: &[u8]) -> (r: Vec<u8>)
    ensures
        r@ == rzcobs_encoded(data@),
        forall|i: int| 0 <= i < r@.len() ==> r@[i] != 0,
        data@.len() > 0 ==> r@.len() > 0,
{
    rzcobs::encode(data)
}

/// Holds of the zero byte.
pub open spec fn zero_byte() -> spec_fn(u8) -> bool {
    |b: u8| b == 0
}

/// Holds of every byte but zero.
pub open spec fn data_byte() -> spec_fn(u8) -> bool {
    |b: u8| b != 0
}

/// `s` without the zero bytes that it starts with.
pub open spec fn without_leading_zeros(s: Seq<u8>) -> Seq<u8> {
    s.skip(run_len(s, zero_byte()))
}

/// Whether `s` holds a zero byte.
pub open spec fn has_delimiter(s: Seq<u8>) -> bool {
    run_len(s, data_byte()) < s.len()
}

/// A decoder as contracts see it: its table and the bytes it has received
/// and not decoded yet.
pub struct DecoderView {
    pub table: Table,
    pub pending: Seq<u8>,
}

impl DecoderView {
    /// How this decoder's frames are laid out.
    pub open spec fn encoding(self) -> Encoding {
        table_encoding(self.table)
    }

    /// The state after `bytes` were received. Between delimited frames zero
    /// bytes mean nothing: with nothing pending, those that `bytes` starts
    /// with are not kept.
    pub open spec fn received(self, bytes: Seq<u8>) -> DecoderView {
        if self.encoding() == Encoding::Rzcobs && self.pending.len() == 0 {
            DecoderView { pending: without_leading_zeros(bytes), ..self }
        } else {
            DecoderView { pending: self.pending + bytes, ..self }
        }
    }

    /// What stands before the reader: the plain bytes of the next frame, or
    /// why there are none. A delimited frame that has not arrived in full is
    /// waited for, and one that does not unpack is malformed. Raw frames
    /// have no end of their own: all that is pending is handed on.
    pub open spec fn framed(self) -> Result<Seq<u8>, DecodeError> {
        match self.encoding() {
            Encoding::Rzcobs => if has_delimiter(self.pending) {
                match rzcobs_decoded(self.pending.take(run_len(self.pending, data_byte()))) {
                    Some(plain) => Ok(plain),
                    None => Err(DecodeError::Malformed),
                }
            } else {
                Err(DecodeError::UnexpectedEof)
            },
            Encoding::Raw => Ok(self.pending),
        }
    }

    /// The state after the next frame was taken for the reader. A delimited
    /// frame leaves the pending bytes with the zero bytes that follow it,
    /// whether it unpacks or not. Raw bytes stay until they are read.
    pub open spec fn after_framing(self) -> DecoderView {
        match self.encoding() {
            Encoding::Rzcobs => if has_delimiter(self.pending) {
                DecoderView {
                    pending: without_leading_zeros(
                        self.pending.skip(run_len(self.pending, data_byte())),
                    ),
                    ..self
                }
            } else {
                self
            },
            Encoding::Raw => self,
        }
    }

    /// What is made of a reading. A delimited frame that the reader cannot
    /// read to its end is malformed. A raw frame is what the reader says,
    /// unless it claims more bytes than there are.
    pub open spec fn settled(self, reading: ReadingView) -> Result<FrameView, DecodeError> {
        match self.encoding() {
            Encoding::Rzcobs => match reading {
                Ok((frame, _)) => Ok(frame),
                Err(_) => Err(DecodeError::Malformed),
            },
            Encoding::Raw => match reading {
                Ok((frame, used)) => if used <= self.pending.len() {
                    Ok(frame)
                } else {
                    Err(DecodeError::Malformed)
                },
                Err(e) => Err(e),
            },
        }
    }

    /// The state after a reading was settled. A raw frame leaves as far as
    /// the reader read, and stays where it read none.
    pub open spec fn after_settle(self, reading: ReadingView) -> DecoderView {
        match self.encoding() {
            Encoding::Rzcobs => self,
            Encoding::Raw => match reading {
                Ok((_, used)) => if used <= self.pending.len() {
                    DecoderView { pending: self.pending.skip(used as int), ..self }
                } else {
                    self
                },
                Err(_) => self,
            },
        }
    }

    /// What `decode` returns where the reader, if it was called, returned
    /// `reading`.
    pub open spec fn decoded(self, reading: ReadingView) -> Result<FrameView, DecodeError> {
        match self.framed() {
            Ok(_) => self.after_framing().settled(reading),
            Err(e) => Err(e),
        }
    }

    /// The state after `decode` where the reader, if it was called,
    /// returned `reading`.
    pub open spec fn after_decode(self, reading: ReadingView) -> DecoderView {
        match self.framed() {
            Ok(_) => self.after_framing().after_settle(reading),
            Err(_) => self.after_framing(),
        }
    }

    /// `reading` is what `read` may have returned to `decode`: something
    /// that it makes of the bytes of the next frame, where there is one, and
    /// anything where it is not called.
    pub open spec fn met<R: Fn(&Table, &[u8]) -> Reading>(self, read: R, reading: ReadingView) -> bool {
        self.framed() matches Ok(plain) ==> reads(read, self.table, plain, reading)
    }
}

/// Decodes raw bytes into discrete log frames.
///
/// Owns the table together with the bytes that wait to be decoded, so that
/// decoding borrows nothing but the decoder itself.
pub struct FrameDecoder {
    table: Table,
    encoding: Encoding,
    pending: Vec<u8>,
}

impl View for FrameDecoder {
    type V = DecoderView;

    closed spec fn view(&self) -> DecoderView {
        DecoderView { table: self.table, pending: self.pending@ }
    }
}

impl FrameDecoder {
    /// The decoder knows the encoding of its table.
    pub closed spec fn wf(&self) -> bool {
        self.encoding == table_encoding(self.table)
    }

    /// A decoder for the frames of `table`, with nothing pending.
    pub fn new(table: Table) -> (r: FrameDecoder)
        ensures
            r.wf(),
            r@ == (DecoderView { table, pending: Seq::<u8>::empty() }),
    {
        let encoding = encoding_of(&table);
        FrameDecoder { table, encoding, pending: Vec::new() }
    }

    /// How this decoder's frames are laid out.
    pub fn encoding(&self) -> (e: Encoding)
        requires
            self.wf(),
        ensures
            e == self@.encoding(),
    {
        self.encoding
    }

    /// The number of bytes received and not decoded yet.
    pub fn pending_len(&self) -> (n: usize)
        ensures
            n == self@.pending.len(),
    {
        self.pending.len()
    }

    /// Takes in bytes as they arrive. Nothing is decoded yet.
    pub fn received(&mut self, bytes: &[u8])
        requires
            old(self).wf(),
        ensures
            final(self).wf(),
            final(self)@ == old(self)@.received(bytes@),
    {
        let n: usize = bytes.len();
        let mut i: usize = 0;
        if self.encoding == Encoding::Rzcobs && self.pending.len() == 0 {
            while i < n && bytes[i] == 0
                invariant
                    n == bytes@.len(),
                    i <= n,
                    forall|j: int| 0 <= j < i ==> bytes@[j] == 0,
                decreases n - i,
            {
                i += 1;
            }
            proof {
                lemma_run_ends(bytes@, zero_byte(), i as int);
                assert(self.pending@ + bytes@.skip(i as int) =~= bytes@.skip(i as int));
            }
        } else {
            assert(bytes@.skip(0) =~= bytes@);
        }
        let ghost kept = bytes@.skip(i as int);
        let ghost before = self.pending@;
        let start: usize = i;
        while i < n
            invariant
                n == bytes@.len(),
                start <= i <= n,
                self.table == old(self).table,
                self.encoding == old(self).encoding,
                self.pending@ == before + bytes@.subrange(start as int, i as int),
            decreases n - i,
        {
            self.pending.push(bytes[i]);
            i += 1;
            assert(bytes@.subrange(start as int, i as int) =~= bytes@.subrange(
                start as int,
                i - 1,
            ).push(bytes@[i - 1]));
            assert(self.pending@ =~= before + bytes@.subrange(start as int, i as int));
        }
        assert(bytes@.subrange(start as int, n as int) =~= kept);
    }

    /// The table of format strings.
    pub fn table(&self) -> (t: &Table)
        ensures
            *t == self@.table,
    {
        &self.table
    }

    /// Takes the next frame from the bytes that are pending and returns its
    /// plain bytes, for the reader.
    ///
    /// `UnexpectedEof` says that the next frame has not arrived in full: the
    /// caller waits for more bytes. `Malformed` says that a frame arrived and
    /// does not unpack.
    pub fn frame(&mut self) -> (r: Result<Vec<u8>, DecodeError>)
        requires
            old(self).wf(),
        ensures
            final(self).wf(),
            match r {
                Ok(plain) => old(self)@.framed() == Ok::<Seq<u8>, DecodeError>(plain@),
                Err(e) => old(self)@.framed() == Err::<Seq<u8>, DecodeError>(e),
            },
            final(self)@ == old(self)@.after_framing(),
    {
        match self.encoding {
            Encoding::Rzcobs => self.frame_delimited(),
            Encoding::Raw => Ok(self.pending.clone()),
        }
    }

    fn frame_delimited(&mut self) -> (r: Result<Vec<u8>, DecodeError>)
        requires
            old(self).wf(),
            old(self)@.encoding() == Encoding::Rzcobs,
        ensures
            final(self).wf(),
            match r {
                Ok(plain) => old(self)@.framed() == Ok::<Seq<u8>, DecodeError>(plain@),
                Err(e) => old(self)@.framed() == Err::<Seq<u8>, DecodeError>(e),
            },
            final(self)@ == old(self)@.after_framing(),
    {
        let n: usize = self.pending.len();
        let mut end: usize = 0;
        while end < n && self.pending[end] != 0
            invariant
                n == self.pending@.len(),
                end <= n,
                self.pending@ == old(self).pending@,
                forall|j: int| 0 <= j < end ==> self.pending@[j] != 0,
            decreases n - end,
        {
            end += 1;
        }
        proof {
            lemma_run_ends(self.pending@, data_byte(), end as int);
        }
        if end == n {
            return Err(DecodeError::UnexpectedEof);
        }
        let mut next: usize = end;
        while next < n && self.pending[next] == 0
            invariant
                n == self.pending@.len(),
                end <= next <= n,
                self.pending@ == old(self).pending@,
                forall|j: int| end <= j < next ==> self.pending@[j] == 0,
            decreases n - next,
        {
            next += 1;
        }
        proof {
            let tail = self.pending@.skip(end as int);
            lemma_run_ends(tail, zero_byte(), next - end);
            assert(tail.skip(next - end) =~= self.pending@.skip(next as int));
        }
        let rest = self.pending.split_off(next);
        self.pending.truncate(end);
        let packed = unpack(self.pending.as_slice());
        assert(self.pending@ =~= old(self).pending@.take(end as int));
        self.pending = rest;
        assert(self.pending@ =~= old(self).pending@.skip(next as int));
        match packed {
            None => Err(DecodeError::Malformed),
            Some(plain) => Ok(plain),
        }
    }

    /// Settles what the reader made of the bytes that `frame` returned.
    pub fn settle(&mut self, reading: Reading) -> (r: Result<Frame, DecodeError>)
        requires
            old(self).wf(),
        ensures
            final(self).wf(),
            outcome_of(r) == old(self)@.settled(reading_view(reading)),
            final(self)@ == old(self)@.after_settle(reading_view(reading)),
    {
        match self.encoding {
            Encoding::Rzcobs => match reading {
                Ok((frame, _)) => Ok(frame),
                Err(_) => Err(DecodeError::Malformed),
            },
            Encoding::Raw => match reading {
                Ok((frame, used)) => {
                    if used <= self.pending.len() {
                        let rest = self.pending.split_off(used);
                        self.pending = rest;
                        assert(self.pending@ =~= old(self).pending@.skip(used as int));
                        Ok(frame)
                    } else {
                        Err(DecodeError::Malformed)
                    }
                },
                Err(e) => Err(e),
            },
        }
    }

    /// Attempts to produce exactly one frame from the bytes that are pending.
    /// The bytes of the frame are read by `read`, which is called once where
    /// a frame is there to read, and not at all where none is.
    ///
    /// `UnexpectedEof` says that the next frame has not arrived in full: the
    /// caller waits for more bytes. `Malformed` says that a frame arrived and
    /// could not be read.
    pub fn decode<R: Fn(&Table, &[u8]) -> Reading>(&mut self, read: &R) -> (r: Result<
        Frame,
        DecodeError,
    >)
        requires
            old(self).wf(),
            forall|t: &Table, b: &[u8]| call_requires(*read, (t, b)),
        ensures
            final(self).wf(),
            exists|reading: ReadingView|
                {
                    &&& #[trigger] old(self)@.met(*read, reading)
                    &&& outcome_of(r) == old(self)@.decoded(reading)
                    &&& final(self)@ == old(self)@.after_decode(reading)
                },
    {
        match self.frame() {
            Ok(plain) => {
                let reading = read(&self.table, plain.as_slice());
                let ghost seen = reading_view(reading);
                assert(reads(*read, old(self)@.table, plain@, seen));
                assert(old(self)@.met(*read, seen));
                self.settle(reading)
            },
            Err(e) => {
                let ghost none: ReadingView = Err(e);
                assert(old(self)@.met(*read, none));
                Err(e)
            },
        }
    }
}

/// A frame on the wire: packed bytes, of which there is at least one and
/// none is zero, and the zero byte that ends them.
pub open spec fn is_packed(packed: Seq<u8>) -> bool {
    packed.len() > 0 && run_len(packed, data_byte()) == packed.len()
}

/// A decoder with nothing pending that receives one frame in a single piece
/// takes that frame for the reader, returns what the reader found in it, and
/// has nothing pending afterwards.
pub proof fn lemma_whole_frame(d: DecoderView, packed: Seq<u8>, reading: ReadingView)
    requires
        d.encoding() == Encoding::Rzcobs,
        d.pending.len() == 0,
        is_packed(packed),
    ensures
        d.received(packed.push(0)).framed() == match rzcobs_decoded(packed) {
            Some(plain) => Ok::<Seq<u8>, DecodeError>(plain),
            None => Err::<Seq<u8>, DecodeError>(DecodeError::Malformed),
        },
        rzcobs_decoded(packed) is Some ==> (reading matches Ok((frame, _)) ==> d.received(
            packed.push(0),
        ).decoded(reading) == Ok::<FrameView, DecodeError>(frame)),
        d.received(packed.push(0)).after_decode(reading).pending.len() == 0,
        d.received(packed.push(0)).after_decode(reading).framed() == Err::<Seq<u8>, DecodeError>(
            DecodeError::UnexpectedEof,
        ),
{
    let wire = packed.push(0);
    lemma_run_len(packed, data_byte());
    lemma_run_len(packed, zero_byte());
    assert(packed[0] != 0);
    assert(wire[0] == packed[0]);
    lemma_run_ends(wire, zero_byte(), 0);
    assert(wire.skip(0) =~= wire);
    assert(wire =~= packed + seq![0u8]);
    lemma_run_through(packed, seq![0u8], data_byte());
    lemma_run_ends(seq![0u8], data_byte(), 0);
    assert(wire.take(packed.len() as int) =~= packed);
    let tail = wire.skip(packed.len() as int);
    assert(tail =~= seq![0u8]);
    lemma_run_ends(tail, zero_byte(), 1);
    assert(tail.skip(1) =~= Seq::<u8>::empty());
    let after = d.received(wire).after_decode(reading);
    assert(after.pending =~= Seq::<u8>::empty());
    lemma_run_ends(after.pending, data_byte(), 0);
}

/// A frame that arrives in two pieces decodes as it does in one. After the
/// first piece, which ends before the delimiter, the decoder asks for more
/// and calls no reader. After the second it hands the reader the bytes that
/// the whole would have handed it, returns of each reading what the whole
/// would have returned, and is left in the same state.
pub proof fn lemma_split_frame(
    d: DecoderView,
    packed: Seq<u8>,
    at: int,
    first: ReadingView,
    reading: ReadingView,
)
    requires
        d.encoding() == Encoding::Rzcobs,
        d.pending.len() == 0,
        is_packed(packed),
        0 < at <= packed.len(),
    ensures
        d.received(packed.push(0).take(at)).framed() == Err::<Seq<u8>, DecodeError>(
            DecodeError::UnexpectedEof,
        ),
        d.received(packed.push(0).take(at)).decoded(first) == Err::<FrameView, DecodeError>(
            DecodeError::UnexpectedEof,
        ),
        d.received(packed.push(0).take(at)).after_decode(first) == d.received(
            packed.push(0).take(at),
        ),
        d.received(packed.push(0).take(at)).after_decode(first).received(
            packed.push(0).skip(at),
        ).framed() == d.received(packed.push(0)).framed(),
        d.received(packed.push(0).take(at)).after_decode(first).received(
            packed.push(0).skip(at),
        ).decoded(reading) == d.received(packed.push(0)).decoded(reading),
        d.received(packed.push(0).take(at)).after_decode(first).received(
            packed.push(0).skip(at),
        ).after_decode(reading) == d.received(packed.push(0)).after_decode(reading),
{
    let wire = packed.push(0);
    let head = wire.take(at);
    let tail = wire.skip(at);
    lemma_run_len(packed, data_byte());
    assert(packed[0] != 0);
    // Neither the whole nor its first piece starts with a zero byte.
    assert(wire[0] == packed[0]);
    assert(head[0] == packed[0]);
    lemma_run_ends(wire, zero_byte(), 0);
    lemma_run_ends(head, zero_byte(), 0);
    assert(wire.skip(0) =~= wire);
    assert(head.skip(0) =~= head);
    // The first piece holds no delimiter.
    assert forall|j: int| 0 <= j < at implies data_byte()(#[trigger] head[j]) by {
        assert(head[j] == packed[j]);
    }
    lemma_run_ends(head, data_byte(), at);
    // The two pieces make the whole.
    assert(head + tail =~= wire);
    assert(d.received(head).after_decode(first).received(tail).pending =~= wire);
}

/// A frame that cannot be read is dropped with its delimiter, whether it
/// does not unpack or the reader finds no frame in it: the decoder reports it
/// as malformed and goes on with what follows it, as if the frame had never
/// arrived.
pub proof fn lemma_malformed_frame_is_dropped(
    d: DecoderView,
    packed: Seq<u8>,
    more: Seq<u8>,
    reading: ReadingView,
)
    requires
        d.encoding() == Encoding::Rzcobs,
        d.pending.len() == 0,
        is_packed(packed),
        rzcobs_decoded(packed) is None || reading is Err,
    ensures
        d.received(packed.push(0) + more).decoded(reading) == Err::<FrameView, DecodeError>(
            DecodeError::Malformed,
        ),
        d.received(packed.push(0) + more).after_decode(reading) == d.received(more),
{
    let wire = packed.push(0);
    let all = wire + more;
    lemma_run_len(packed, data_byte());
    assert(packed[0] != 0);
    assert(all[0] == packed[0]);
    lemma_run_ends(all, zero_byte(), 0);
    assert(all.skip(0) =~= all);
    assert(wire =~= packed + seq![0u8]);
    lemma_run_through(packed, seq![0u8], data_byte());
    lemma_run_ends(seq![0u8], data_byte(), 0);
    lemma_run_of_longer(wire, more, data_byte());
    assert(all.take(packed.len() as int) =~= packed);
    let tail = all.skip(packed.len() as int);
    assert(tail =~= seq![0u8] + more);
    lemma_run_ends(seq![0u8], zero_byte(), 1);
    lemma_run_through(seq![0u8], more, zero_byte());
    lemma_run_len(more, zero_byte());
    assert(tail.skip(1 + run_len(more, zero_byte())) =~= more.skip(run_len(more, zero_byte())));
}

} // verus!
