//! Linear IO buffer with a read and a write cursor.
use vstd::prelude::*;
use vstd::slice::{slice_subrange, spec_slice_len};

verus! {

/// What a [`Buffer`] holds: the whole byte region and the two cursors.
pub struct BufferView {
    /// Every byte of the region, read or not.
    pub mem: Seq<u8>,
    /// Index of the next byte to read.
    pub rpos: int,
    /// Index of the next byte to write.
    pub wpos: int,
}

impl BufferView {
    /// The cursors are ordered and stay inside the region.
    pub open spec fn wf(self) -> bool {
        0 <= self.rpos <= self.wpos <= self.mem.len() <= usize::MAX
    }

    /// Size of the region.
    pub open spec fn capacity(self) -> int {
        self.mem.len() as int
    }

    /// The bytes written and not yet read, oldest first.
    pub open spec fn stored(self) -> Seq<u8> {
        self.mem.subrange(self.rpos, self.wpos)
    }

    /// Number of bytes written and not yet read.
    pub open spec fn available_read(self) -> int {
        self.wpos - self.rpos
    }

    /// Number of bytes that fit behind the write cursor as it stands.
    pub open spec fn available_write(self) -> int {
        self.mem.len() - self.wpos
    }

    /// The buffer after its unread bytes were moved to the front.
    pub open spec fn shifted(self) -> BufferView {
        BufferView {
            mem: self.stored() + self.mem.subrange(self.available_read(), self.capacity()),
            rpos: 0,
            wpos: self.available_read(),
        }
    }

    /// The buffer with room made for `count` more bytes, as far as moving the unread bytes can make it.
    pub open spec fn reserved(self, count: int) -> BufferView {
        if self.available_write() < count {
            self.shifted()
        } else {
            self
        }
    }

    /// Whether `count` more bytes fit behind the unread ones once these stand at the front.
    pub open spec fn fits(self, count: int) -> bool {
        count <= self.reserved(count).available_write()
    }

    /// The first `count` bytes behind the write cursor.
    pub open spec fn writable(self, count: int) -> Seq<u8> {
        self.mem.subrange(self.wpos, self.wpos + count)
    }

    /// The bytes of the region with `window` laid over them from index `at` on.
    pub open spec fn overlaid(self, at: int, window: Seq<u8>) -> Seq<u8> {
        self.mem.subrange(0, at) + window + self.mem.subrange(at + window.len(), self.capacity())
    }

    /// How many of `len` offered bytes a write takes.
    pub open spec fn write_count(self, len: int) -> int {
        let room = self.reserved(len).available_write();
        if room < len {
            room
        } else {
            len
        }
    }

    /// The buffer after a write of `data`: room is made if it is short, then as much of `data` as fits
    /// is stored behind the unread bytes.
    pub open spec fn written(self, data: Seq<u8>) -> BufferView {
        let at = self.reserved(data.len() as int);
        let count = self.write_count(data.len() as int);
        at.appended(data.subrange(0, count))
    }

    /// The buffer with `data` stored behind the unread bytes, where it fits as the cursors stand.
    pub open spec fn appended(self, data: Seq<u8>) -> BufferView {
        BufferView { mem: self.overlaid(self.wpos, data), wpos: self.wpos + data.len(), ..self }
    }

    /// How many unread bytes a request to drop `count` of them drops.
    pub open spec fn consume_count(self, count: int) -> int {
        if count < self.available_read() {
            count
        } else {
            self.available_read()
        }
    }

    /// The buffer after the `count` oldest unread bytes were dropped, or all of them.
    pub open spec fn consumed(self, count: int) -> BufferView {
        BufferView { rpos: self.rpos + self.consume_count(count), ..self }
    }

    /// The buffer with nothing unread and both cursors at the front.
    pub open spec fn cleaned(self) -> BufferView {
        BufferView { rpos: 0, wpos: 0, ..self }
    }

    /// How far a cursor moves when a callback answers `out` and at most `limit` bytes can be taken.
    pub open spec fn advance<E>(limit: int, out: Result<usize, E>) -> int {
        match out {
            Ok(count) => if count < limit {
                count as int
            } else {
                limit
            },
            Err(_) => 0,
        }
    }

    /// What the buffer answers when a callback answered `out` and at most `limit` bytes can be taken.
    pub open spec fn kept<E>(limit: int, out: Result<usize, E>) -> Result<usize, E> {
        match out {
            Ok(_) => Ok(Self::advance(limit, out) as usize),
            Err(e) => Err(e),
        }
    }

    /// The buffer after a callback left `window` behind the write cursor and answered `out`.
    pub open spec fn filled<E>(self, window: Seq<u8>, out: Result<usize, E>) -> BufferView {
        BufferView {
            mem: self.overlaid(self.wpos, window),
            rpos: self.rpos,
            wpos: self.wpos + Self::advance(window.len() as int, out),
        }
    }

    /// The buffer after a callback left `window` in place of the unread bytes and answered `out`.
    pub open spec fn drained<E>(self, window: Seq<u8>, out: Result<usize, E>) -> BufferView {
        BufferView {
            mem: self.overlaid(self.rpos, window),
            rpos: self.rpos + Self::advance(self.available_read(), out),
            wpos: self.wpos,
        }
    }
}

/// Making room changes neither the unread bytes nor the size of the region.
pub proof fn lemma_reserved(b: BufferView, count: int)
    requires
        b.wf(),
    ensures
        b.reserved(count).wf(),
        b.reserved(count).stored() == b.stored(),
        b.reserved(count).capacity() == b.capacity(),
        b.fits(count) <==> b.available_read() + count <= b.capacity(),
{
    assert(b.shifted().stored() =~= b.stored());
}

/// Bytes stored behind the unread ones come out after them, in the order in which they went in.
pub proof fn lemma_appended(b: BufferView, data: Seq<u8>)
    requires
        b.wf(),
        data.len() <= b.available_write(),
    ensures
        b.appended(data).wf(),
        b.appended(data).stored() == b.stored() + data,
        b.appended(data).capacity() == b.capacity(),
{
    assert(b.appended(data).stored() =~= b.stored() + data);
}

/// A write stores the first bytes of the data, as many as there is room for, behind the unread ones.
pub proof fn lemma_written(b: BufferView, data: Seq<u8>)
    requires
        b.wf(),
    ensures
        b.written(data).wf(),
        0 <= b.write_count(data.len() as int) <= data.len(),
        b.write_count(data.len() as int) == if b.available_read() + data.len() <= b.capacity() {
            data.len() as int
        } else {
            b.capacity() - b.available_read()
        },
        b.written(data).stored() == b.stored() + data.subrange(
            0,
            b.write_count(data.len() as int),
        ),
        b.written(data).capacity() == b.capacity(),
{
    lemma_reserved(b, data.len() as int);
    lemma_appended(
        b.reserved(data.len() as int),
        data.subrange(0, b.write_count(data.len() as int)),
    );
}

/// Dropping unread bytes takes them from the front.
pub proof fn lemma_consumed(b: BufferView, count: int)
    requires
        b.wf(),
        0 <= count,
    ensures
        b.consumed(count).wf(),
        0 <= b.consume_count(count) <= b.available_read(),
        b.consumed(count).stored() == b.stored().subrange(
            b.consume_count(count),
            b.available_read(),
        ),
        b.consumed(count).capacity() == b.capacity(),
{
    assert(b.consumed(count).stored() =~= b.stored().subrange(
        b.consume_count(count),
        b.available_read(),
    ));
}

/// A cleaned buffer holds nothing and has the whole region to write into.
pub proof fn lemma_cleaned(b: BufferView)
    requires
        b.mem.len() <= usize::MAX,
    ensures
        b.cleaned().wf(),
        b.cleaned().stored() == Seq::<u8>::empty(),
        b.cleaned().available_write() == b.capacity(),
        b.cleaned().capacity() == b.capacity(),
{
    assert(b.cleaned().stored() =~= Seq::<u8>::empty());
}

/// A byte region borrowed from the caller, filled at one cursor and emptied at another.
///
/// The region is never reallocated. When a write finds too little room behind the write cursor, the
/// unread bytes are first moved to the front of the region.
pub struct Buffer<'a> {
    inner: &'a mut [u8],
    rpos: usize,  // next byte to read from
    wpos: usize,  // next byte to write into
}

impl<'a> View for Buffer<'a> {
    type V = BufferView;

    closed spec fn view(&self) -> BufferView {
        BufferView { mem: self.inner@, rpos: self.rpos as int, wpos: self.wpos as int }
    }
}

/// Copies `src` over the first bytes of `dst`.
pub fn copy_to_front(dst: &mut [u8], src: &[u8])
    requires
        src@.len() <= old(dst)@.len(),
    ensures
        final(dst)@ == src@ + old(dst)@.subrange(src@.len() as int, old(dst)@.len() as int),
{
    let count = src.len();
    let mut i: usize = 0;
    while i < count
        invariant
            count == src@.len() <= dst@.len() == old(dst)@.len(),
            i <= count,
            forall|j: int| 0 <= j < i ==> dst@[j] == src@[j],
            forall|j: int| i <= j < dst@.len() ==> dst@[j] == old(dst)@[j],
        decreases count - i,
    {
        dst[i] = src[i];
        i = i + 1;
    }
    assert(dst@ =~= src@ + old(dst)@.subrange(src@.len() as int, old(dst)@.len() as int));
}

impl<'a> Buffer<'a> {
    /// An empty buffer over the region `inner`.
    pub fn new(inner: &'a mut [u8]) -> (buf: Buffer<'a>)
        ensures
            buf@ == (BufferView { mem: old(inner)@, rpos: 0, wpos: 0 }),
            buf@.wf(),
    {
        assert(inner@.len() == spec_slice_len(inner));
        Buffer { inner, rpos: 0, wpos: 0 }
    }

    /// Number of bytes written and not yet read.
    pub fn available_read(&self) -> (n: usize)
        requires
            self@.wf(),
        ensures
            n == self@.available_read(),
    {
        self.wpos - self.rpos
    }

    /// Number of bytes that fit behind the write cursor as it stands.
    pub fn available_write(&self) -> (n: usize)
        requires
            self@.wf(),
        ensures
            n == self@.available_write(),
    {
        self.inner.len() - self.wpos
    }

    /// Index of the next byte to read.
    pub fn rpos(&self) -> (pos: usize)
        ensures
            pos == self@.rpos,
    {
        self.rpos
    }

    /// Index of the next byte to write.
    pub fn wpos(&self) -> (pos: usize)
        ensures
            pos == self@.wpos,
    {
        self.wpos
    }

    /// Returns number of bytes actually written
    pub fn write(&mut self, data: &[u8]) -> (count: usize)
        requires
            old(self)@.wf(),
        ensures
            final(self)@ == old(self)@.written(data@),
            count == old(self)@.write_count(data@.len() as int),
            final(self)@.wf(),
    {
        if self.available_write() < data.len() {
            self.shift();
        }
        let room = self.available_write();
        let count = if room < data.len() {
            room
        } else {
            data.len()
        };
        let start = self.wpos;
        let (_head, rest) = self.inner.split_at_mut(start);
        copy_to_front(rest, slice_subrange(data, 0, count));
        self.wpos = start + count;
        assert(self@.mem =~= old(self)@.written(data@).mem);
        count
    }

    /// Makes room for `max_count` bytes, hands that many writable bytes to `f` and keeps as many of them
    /// as `f` returns. Fails with `overflow_err`, without calling `f`, where the region cannot take
    /// `max_count` more bytes even with its unread bytes at the front.
    ///
    /// `f` leaves the slice as long as it found it, as every Rust function does.
    pub fn write_all<E, F: FnOnce(&mut [u8]) -> Result<usize, E>>(
        &mut self,
        max_count: usize,
        overflow_err: E,
        f: F,
    ) -> (res: Result<usize, E>)
        requires
            old(self)@.wf(),
            forall|w: &mut [u8]|
                old(self)@.fits(max_count as int) && w@ == old(self)@.reserved(
                    max_count as int,
                ).writable(max_count as int) ==> #[trigger] call_requires(f, (w,)),
            forall|w: &mut [u8], out: Result<usize, E>| #[trigger]
                call_ensures(f, (w,), out) ==> final(w)@.len() == w@.len(),
        ensures
            final(self)@.wf(),
            !old(self)@.fits(max_count as int) ==> res == Err::<usize, E>(overflow_err) && final(self)@
                == old(self)@.reserved(max_count as int),
            old(self)@.fits(max_count as int) ==> (exists|w: &mut [u8], out: Result<usize, E>|
                {
                    &&& w@ == old(self)@.reserved(max_count as int).writable(max_count as int)
                    &&& #[trigger] call_ensures(f, (w,), out)
                    &&& final(self)@ == old(self)@.reserved(max_count as int).filled(final(w)@, out)
                    &&& res == BufferView::kept(max_count as int, out)
                }),
    {
        if self.available_write() < max_count {
            self.shift();
            if self.available_write() < max_count {
                return Err(overflow_err);
            }
        }
        let ghost at = self@;
        let (_head, rest) = self.inner.split_at_mut(self.wpos);
        let (window, _tail) = rest.split_at_mut(max_count);
        let ghost w = window;
        assert(window@ =~= at.writable(max_count as int));
        let out = f(window);
        assert(self.inner@ =~= at.overlaid(at.wpos, final(w)@));
        match out {
            Ok(count) => {
                let advance_by = if count < max_count {
                    count
                } else {
                    max_count
                };
                self.wpos = self.wpos + advance_by;
                Ok(advance_by)
            },
            Err(e) => Err(e),
        }
    }

    /// Hands the unread bytes to `f` and drops as many of them, oldest first, as `f` returns.
    ///
    /// `f` leaves the slice as long as it found it, as every Rust function does.
    pub fn read<E, F: FnOnce(&mut [u8]) -> Result<usize, E>>(&mut self, f: F) -> (res: Result<
        usize,
        E,
    >)
        requires
            old(self)@.wf(),
            forall|w: &mut [u8]| w@ == old(self)@.stored() ==> #[trigger] call_requires(f, (w,)),
            forall|w: &mut [u8], out: Result<usize, E>| #[trigger]
                call_ensures(f, (w,), out) ==> final(w)@.len() == w@.len(),
        ensures
            final(self)@.wf(),
            (exists|w: &mut [u8], out: Result<usize, E>|
                {
                    &&& w@ == old(self)@.stored()
                    &&& #[trigger] call_ensures(f, (w,), out)
                    &&& final(self)@ == old(self)@.drained(final(w)@, out)
                    &&& res == BufferView::kept(old(self)@.available_read(), out)
                }),
    {
        let ghost at = self@;
        let available = self.wpos - self.rpos;
        let (head, _tail) = self.inner.split_at_mut(self.wpos);
        let (_read, window) = head.split_at_mut(self.rpos);
        let ghost w = window;
        assert(window@ =~= at.stored());
        let out = f(window);
        assert(self.inner@ =~= at.overlaid(at.rpos, final(w)@));
        match out {
            Ok(count) => {
                let advance_by = if count < available {
                    count
                } else {
                    available
                };
                self.rpos = self.rpos + advance_by;
                Ok(advance_by)
            },
            Err(e) => Err(e),
        }
    }

    /// The unread bytes, oldest first. Nothing is dropped.
    pub fn peek(&self) -> (bytes: &[u8])
        requires
            self@.wf(),
        ensures
            bytes@ == self@.stored(),
    {
        slice_subrange(&*self.inner, self.rpos, self.wpos)
    }

    /// Drops the `count` oldest unread bytes, or all of them where there are fewer.
    pub fn consume(&mut self, count: usize) -> (dropped: usize)
        requires
            old(self)@.wf(),
        ensures
            final(self)@ == old(self)@.consumed(count as int),
            dropped == old(self)@.consume_count(count as int),
            final(self)@.wf(),
    {
        let available = self.wpos - self.rpos;
        let advance_by = if count < available {
            count
        } else {
            available
        };
        self.rpos = self.rpos + advance_by;
        advance_by
    }

    /// Forgets every unread byte and puts both cursors at the front.
    pub fn clean(&mut self)
        ensures
            final(self)@ == old(self)@.cleaned(),
            final(self)@.wf(),
    {
        assert(self.inner@.len() == spec_slice_len(self.inner));
        self.rpos = 0;
        self.wpos = 0;
    }

    /// Moves the unread bytes to the front of the region, lowest index first.
    fn shift(&mut self)
        requires
            old(self)@.wf(),
        ensures
            final(self)@ == old(self)@.shifted(),
            final(self)@.wf(),
    {
        let start = self.rpos;
        let count = self.wpos - self.rpos;
        let mut i: usize = 0;
        while i < count
            invariant
                start == self.rpos == old(self).rpos,
                self.wpos == old(self).wpos,
                count == self.wpos - self.rpos,
                self.wpos <= self.inner@.len(),
                i <= count,
                self.inner@.len() == old(self).inner@.len(),
                forall|j: int| 0 <= j < i ==> self.inner@[j] == old(self).inner@[start + j],
                forall|j: int| i <= j < self.inner@.len() ==> self.inner@[j] == old(self).inner@[j],
            decreases count - i,
        {
            let b = self.inner[start + i];
            self.inner[i] = b;
            i = i + 1;
        }
        self.rpos = 0;
        self.wpos = count;
        assert(self@.mem =~= old(self)@.shifted().mem);
    }
}

} // verus!
