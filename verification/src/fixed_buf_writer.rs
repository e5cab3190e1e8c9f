use vstd::prelude::*;

verus! {

/// A stack allocated, fixed capacity writer.
///
/// `FixedBufferWriter<N>` implements `std::io::Write` and writes to an
/// internal array of `N` bytes; it never allocates. A write either stores
/// all of its bytes after the ones already written, or stores nothing and
/// fails with an error of kind `ErrorKind::WriteZero`.
pub struct FixedBufferWriter<const COUNT: usize> {
    buffer: [u8; COUNT],
    pos: usize,
}

/// What writing `buf` into a writer of capacity `cap` that holds `written`
/// gives: the new contents, or `None` when `buf` does not fit.
pub open spec fn spec_write(written: Seq<u8>, buf: Seq<u8>, cap: nat) -> Option<Seq<u8>> {
    if written.len() + buf.len() <= cap {
        Some(written + buf)
    } else {
        None
    }
}

impl<const COUNT: usize> View for FixedBufferWriter<COUNT> {
    type V = Seq<u8>;

    /// The bytes written so far, in order.
    closed spec fn view(&self) -> Seq<u8> {
        self.buffer@.take(self.pos as int)
    }
}

impl<const COUNT: usize> FixedBufferWriter<COUNT> {
    #[verifier::type_invariant]
    spec fn well_formed(self) -> bool {
        &&& self.pos <= COUNT
        &&& forall|i: int| self.pos <= i < COUNT ==> #[trigger] self.buffer@[i] == 0u8
    }

    /// An empty writer.
    pub fn new() -> (w: Self)
        ensures
            w@ == Seq::<u8>::empty(),
    {
        let buffer: [u8; COUNT] = [0u8; COUNT];
        let w = FixedBufferWriter { pos: 0, buffer };
        assert(w@ =~= Seq::<u8>::empty());
        w
    }

    /// Return a reference to a slice of the underlying buffer: the bytes
    /// written so far.
    pub fn buffer(&self) -> (b: &[u8])
        ensures
            b@ == self@,
    {
        proof {
            use_type_invariant(self);
        }
        let (written, _) = self.buffer.as_slice().split_at(self.pos);
        written
    }

    /// Return the actual length of the buffer (number of written bytes).
    pub fn len(&self) -> (n: usize)
        ensures
            n == self@.len(),
            n <= COUNT,
    {
        proof {
            use_type_invariant(self);
        }
        self.pos
    }

    /// Whether nothing has been written yet.
    #[must_use]
    pub fn is_empty(&self) -> (b: bool)
        ensures
            b == (self@.len() == 0),
    {
        self.len() == 0
    }
}

impl<const COUNT: usize> Default for FixedBufferWriter<COUNT> {
    fn default() -> (w: Self)
        ensures
            w@ == Seq::<u8>::empty(),
    {
        Self::new()
    }
}

#[verifier::external_type_specification]
#[verifier::external_body]
pub struct ExIoError(std::io::Error);

/// `std::io::Error::from(ErrorKind::WriteZero)`: an error of kind
/// `WriteZero`. Its kind is not stated: the error is opaque to Verus.
#[verifier::external_body]
fn write_zero_error() -> std::io::Error {
    std::io::Error::from(std::io::ErrorKind::WriteZero)
}

impl<const COUNT: usize> std::io::Write for FixedBufferWriter<COUNT> {
    /// Write all of `buf` after the bytes already written, if it fits in
    /// the space that is left, and return `buf.len()`; otherwise write
    /// nothing and fail with an error of kind `WriteZero`.
    fn write(&mut self, buf: &[u8]) -> (r: std::io::Result<usize>)
        ensures
            match spec_write(old(self)@, buf@, COUNT as nat) {
                Some(written) => r matches Ok(n) && n == buf@.len() && final(self)@ == written,
                None => r is Err && *final(self) == *old(self),
            },
    {
        proof {
            use_type_invariant(&*self);
        }
        if buf.len() > COUNT - self.pos {
            return Err(write_zero_error());
        }
        let start = self.pos;
        let end = start + buf.len();
        let mut storage = self.buffer;
        let mut i: usize = 0;
        while i < buf.len()
            invariant
                start + buf@.len() == end,
                end <= COUNT,
                i <= buf@.len(),
                storage@.len() == COUNT,
                forall|k: int| 0 <= k < start ==> #[trigger] storage@[k] == old(self).buffer@[k],
                forall|k: int| start <= k < start + i ==> #[trigger] storage@[k] == buf@[k - start],
                forall|k: int| start + i <= k < COUNT ==> #[trigger] storage@[k] == 0u8,
                start == old(self).pos,
                forall|k: int| start <= k < COUNT ==> #[trigger] old(self).buffer@[k] == 0u8,
            decreases buf@.len() - i,
        {
            storage[start + i] = buf[i];
            i = i + 1;
        }
        *self = FixedBufferWriter { buffer: storage, pos: end };
        assert(self@ =~= old(self)@ + buf@);
        Ok(buf.len())
    }

    /// Nothing is buffered outside the array: flushing always succeeds and
    /// changes nothing.
    fn flush(&mut self) -> (r: std::io::Result<()>)
        ensures
            r is Ok,
            *final(self) == *old(self),
    {
        Ok(())
    }
}

/// Writing `a` and then `b` succeeds exactly when writing `a + b` at once
/// does, and leaves the same bytes; when `a` alone does not fit, neither
/// does `a + b`.
pub proof fn law_writes_accumulate(written: Seq<u8>, a: Seq<u8>, b: Seq<u8>, cap: nat)
    ensures
        match spec_write(written, a, cap) {
            Some(after_a) => spec_write(after_a, b, cap),
            None => None,
        } == spec_write(written, a + b, cap),
{
    assert(written + a + b =~= written + (a + b));
}

/// A write that succeeds only appends: what was written before stays in
/// front, unchanged, the new bytes follow, and the capacity is respected.
pub proof fn law_write_only_appends(written: Seq<u8>, buf: Seq<u8>, cap: nat)
    ensures
        spec_write(written, buf, cap) matches Some(after) ==> {
            &&& after.len() == written.len() + buf.len()
            &&& after.take(written.len() as int) == written
            &&& after.skip(written.len() as int) == buf
            &&& after.len() <= cap
        },
{
    if let Some(after) = spec_write(written, buf, cap) {
        assert(after.take(written.len() as int) =~= written);
        assert(after.skip(written.len() as int) =~= buf);
    }
}

} // verus!
