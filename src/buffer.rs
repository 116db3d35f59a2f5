use vstd::prelude::*;
use vstd::string::StringSliceAdditionalSpecFns;

verus! {

/// Fixed-capacity, append-only byte buffer whose content is always followed
/// by a zero terminator. One byte of the capacity is reserved for it.
pub struct BufWriter<const BUF_SIZE: usize> {
    buf: [u8; BUF_SIZE],
    pos: usize,
}

/// The UTF-8 bytes of each string.
pub open spec fn utf8_pieces(pieces: Seq<String>) -> Seq<Seq<u8>> {
    pieces.map_values(|p: String| vstd::utf8::encode_utf8(p@))
}

/// What a buffer with `content` and `room` content bytes holds after the
/// pieces are appended in order, stopping at the first one that does not fit.
pub open spec fn append_pieces(content: Seq<u8>, pieces: Seq<Seq<u8>>, room: int) -> Seq<u8>
    decreases pieces.len(),
{
    if pieces.len() == 0 {
        content
    } else if content.len() + pieces[0].len() <= room {
        append_pieces(content + pieces[0], pieces.drop_first(), room)
    } else {
        content
    }
}

/// Whether all the pieces fit after `content`.
pub open spec fn pieces_fit(content: Seq<u8>, pieces: Seq<Seq<u8>>, room: int) -> bool
    decreases pieces.len(),
{
    if pieces.len() == 0 {
        true
    } else if content.len() + pieces[0].len() <= room {
        pieces_fit(content + pieces[0], pieces.drop_first(), room)
    } else {
        false
    }
}

/// What one write of `bytes` does: it succeeds exactly when the bytes fit
/// before the terminator, and then appends them; otherwise the buffer is
/// left as it was.
pub open spec fn write_step<const BUF_SIZE: usize>(
    before: BufWriter<BUF_SIZE>,
    bytes: Seq<u8>,
    r: Result<(), BufferOverflow>,
    after: BufWriter<BUF_SIZE>,
) -> bool {
    &&& after.wf()
    &&& r is Ok <==> before.fits(bytes.len() as int)
    &&& r is Ok ==> after@ == before@ + bytes
    &&& r is Err ==> after == before
}

/// Written into an empty buffer, text shorter than the capacity goes in
/// whole and is followed by the terminator.
pub proof fn lemma_short_write_succeeds<const BUF_SIZE: usize>(
    before: BufWriter<BUF_SIZE>,
    bytes: Seq<u8>,
    r: Result<(), BufferOverflow>,
    after: BufWriter<BUF_SIZE>,
)
    requires
        before.wf(),
        before@.len() == 0,
        bytes.len() < BUF_SIZE,
        write_step(before, bytes, r, after),
    ensures
        r is Ok,
        after@ == bytes,
        after.terminated() == bytes.push(0u8),
{
    assert(after.terminated() =~= after@.push(0u8));
}

/// Written into an empty buffer, text as long as the capacity or longer is
/// refused and the buffer stays empty.
pub proof fn lemma_long_write_fails<const BUF_SIZE: usize>(
    before: BufWriter<BUF_SIZE>,
    bytes: Seq<u8>,
    r: Result<(), BufferOverflow>,
    after: BufWriter<BUF_SIZE>,
)
    requires
        before.wf(),
        before@.len() == 0,
        bytes.len() >= BUF_SIZE,
        write_step(before, bytes, r, after),
    ensures
        r is Err,
        after == before,
        after@.len() == 0,
{
}

/// Returned when a write does not fit in what is left of a buffer.
#[derive(Debug, Clone, Copy, PartialEq, Eq, Structural)]
pub struct BufferOverflow;

impl<const BUF_SIZE: usize> BufWriter<BUF_SIZE> {
    /// What has been written so far, without the terminator.
    pub closed spec fn view(&self) -> Seq<u8> {
        self.buf@.subrange(0, self.pos as int)
    }

    /// The zero-terminated bytes, content then terminator.
    pub closed spec fn terminated(&self) -> Seq<u8> {
        self.buf@.subrange(0, self.pos as int + 1)
    }

    pub closed spec fn wf(&self) -> bool {
        &&& self.pos < BUF_SIZE
        &&& self.buf@.len() == BUF_SIZE
        &&& self.buf@[self.pos as int] == 0u8
    }

    pub fn new() -> (r: Self)
        requires
            BUF_SIZE >= 1,
        ensures
            r.wf(),
            r@ == Seq::<u8>::empty(),
    {
        let buf: [u8; BUF_SIZE] = [0u8; BUF_SIZE];
        let r = BufWriter { buf, pos: 0 };
        assert(r.buf@.len() == BUF_SIZE);
        r
    }

    /// Number of content bytes the buffer can ever hold.
    pub open spec fn room() -> int {
        BUF_SIZE - 1
    }

    /// Whether `n` more bytes fit after the current content.
    pub open spec fn fits(&self, n: int) -> bool {
        self@.len() + n <= Self::room()
    }

    /// Appends the UTF-8 bytes of `s`. Fails, leaving the buffer as it was,
    /// when they do not fit before the terminator.
    pub fn write_str(&mut self, s: &str) -> (r: Result<(), BufferOverflow>)
        requires
            old(self).wf(),
        ensures
            write_step(*old(self), s.spec_bytes(), r, *final(self)),
    {
        self.write_bytes(s.as_bytes())
    }

    /// Appends `bytes`, or fails leaving the buffer as it was.
    pub fn write_bytes(&mut self, bytes: &[u8]) -> (r: Result<(), BufferOverflow>)
        requires
            old(self).wf(),
        ensures
            final(self).wf(),
            r is Ok <==> old(self).fits(bytes@.len() as int),
            r is Ok ==> final(self)@ == old(self)@ + bytes@,
            r is Err ==> *final(self) == *old(self),
    {
        let n = bytes.len();
        if n > BUF_SIZE - 1 - self.pos {
            return Err(BufferOverflow);
        }
        let start = self.pos;
        let mut i: usize = 0;
        while i < n
            invariant
                0 <= i <= n,
                n == bytes@.len(),
                start + n < BUF_SIZE,
                self.pos == start,
                self.buf@.len() == BUF_SIZE,
                self.buf@.subrange(0, start as int) == old(self).buf@.subrange(0, start as int),
                forall|k: int| 0 <= k < i ==> #[trigger] self.buf@[start + k] == bytes@[k],
            decreases n - i,
        {
            self.buf[start + i] = bytes[i];
            i = i + 1;
        }
        let ghost copied = self.buf@;
        self.pos = start + n;
        self.buf[self.pos] = 0u8;
        assert forall|j: int| 0 <= j < start + n implies self.buf@[j] == (old(self)@ + bytes@)[j] by {
            assert(self.buf@[j] == copied[j]);
            if j < start {
                assert(copied[j] == copied.subrange(0, start as int)[j]);
                assert(old(self).buf@[j] == old(self).buf@.subrange(0, start as int)[j]);
            } else {
                assert(copied[start + (j - start)] == bytes@[j - start]);
            }
        }
        assert(self@ =~= old(self)@ + bytes@);
        Ok(())
    }

    /// Appends one byte, or fails leaving the buffer as it was.
    pub fn write_byte(&mut self, b: u8) -> (r: Result<(), BufferOverflow>)
        requires
            old(self).wf(),
        ensures
            final(self).wf(),
            r is Ok <==> old(self).fits(1),
            r is Ok ==> final(self)@ == old(self)@.push(b),
            r is Err ==> *final(self) == *old(self),
    {
        if self.pos >= BUF_SIZE - 1 {
            return Err(BufferOverflow);
        }
        self.buf[self.pos] = b;
        self.pos = self.pos + 1;
        self.buf[self.pos] = 0u8;
        assert(self@ =~= old(self)@.push(b));
        Ok(())
    }

    /// Drops the last content byte; the terminator moves back with it.
    pub fn pop(&mut self)
        requires
            old(self).wf(),
            old(self)@.len() > 0,
        ensures
            final(self).wf(),
            final(self)@ == old(self)@.drop_last(),
    {
        self.pos = self.pos - 1;
        self.buf[self.pos] = 0u8;
        assert(self@ =~= old(self)@.drop_last());
    }

    /// The last content byte, if any.
    pub fn last(&self) -> (r: Option<u8>)
        requires
            self.wf(),
        ensures
            self@.len() == 0 ==> r is None,
            self@.len() > 0 ==> r == Some(self@.last()),
    {
        if self.pos == 0 {
            None
        } else {
            Some(self.buf[self.pos - 1])
        }
    }

    /// Appends the pieces in order and stops at the first one that does not
    /// fit: that piece and all after it are left out.
    pub fn write_pieces(&mut self, pieces: &[String]) -> (r: Result<(), BufferOverflow>)
        requires
            old(self).wf(),
        ensures
            final(self).wf(),
            final(self)@ == append_pieces(old(self)@, utf8_pieces(pieces@), Self::room()),
            r is Ok <==> pieces_fit(old(self)@, utf8_pieces(pieces@), Self::room()),
    {
        let n = pieces.len();
        let mut i: usize = 0;
        assert(utf8_pieces(pieces@).skip(0) =~= utf8_pieces(pieces@));
        while i < n
            invariant
                self.wf(),
                0 <= i <= n,
                n == pieces@.len(),
                pieces_fit(old(self)@, utf8_pieces(pieces@), Self::room()) == pieces_fit(
                    self@,
                    utf8_pieces(pieces@).skip(i as int),
                    Self::room(),
                ),
                append_pieces(old(self)@, utf8_pieces(pieces@), Self::room()) == append_pieces(
                    self@,
                    utf8_pieces(pieces@).skip(i as int),
                    Self::room(),
                ),
            decreases n - i,
        {
            let ghost rest = utf8_pieces(pieces@).skip(i as int);
            assert(rest.drop_first() =~= utf8_pieces(pieces@).skip(i + 1));
            assert(rest[0] == vstd::utf8::encode_utf8(pieces@[i as int]@));
            let piece = pieces[i].as_str();
            assert(piece.spec_bytes() == rest[0]);
            let w = self.write_str(piece);
            if w.is_err() {
                return Err(BufferOverflow);
            }
            i = i + 1;
        }
        assert(utf8_pieces(pieces@).skip(n as int) =~= Seq::<Seq<u8>>::empty());
        Ok(())
    }

    /// The current content, without the terminator.
    pub fn as_bytes(&self) -> (r: &[u8])
        requires
            self.wf(),
        ensures
            r@ == self@,
    {
        vstd::slice::slice_subrange(self.buf.as_slice(), 0, self.pos)
    }

    /// The current content followed by its zero terminator.
    pub fn as_bytes_with_nul(&self) -> (r: &[u8])
        requires
            self.wf(),
        ensures
            r@ == self.terminated(),
            r@ == self@.push(0u8),
    {
        let r = vstd::slice::slice_subrange(self.buf.as_slice(), 0, self.pos + 1);
        assert(r@ =~= self@.push(0u8));
        r
    }

    /// Number of content bytes.
    pub fn len(&self) -> (r: usize)
        requires
            self.wf(),
        ensures
            r == self@.len(),
    {
        self.pos
    }
}

} // verus!
