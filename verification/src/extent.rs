//! File content: a zero-filled byte buffer with a logical size.
//!
//! A [`ByteExtent`] owns the bytes allocated to one file. Its length is the
//! file's allocation size; the logical file size never exceeds it, and every
//! allocated byte at or past the logical size is zero.

use vstd::prelude::*;

verus! {

/// Granularity, in bytes, to which an allocation is rounded when it grows implicitly.
pub const ALLOCATION_UNIT: usize = 4096;

/// The largest allocation a single extent may have: the greatest multiple of the
/// allocation unit that a buffer can hold on every supported target.
pub const MAX_ALLOCATION: usize = 0x7fff_f000;

/// The smallest multiple of the allocation unit that is at least `n`.
pub open spec fn round_up_to_unit(n: int) -> int {
    ((n + 4095) / 4096) * 4096
}

/// Whether `m` is a whole number of allocation units.
pub open spec fn is_unit_multiple(m: int) -> bool {
    m % 4096 == 0
}

/// `n` zero bytes.
pub open spec fn zeros(n: nat) -> Seq<u8> {
    Seq::new(n, |i: int| 0u8)
}

/// `base` with `patch` laid over it from position `at` on.
pub open spec fn overlay(base: Seq<u8>, at: int, patch: Seq<u8>) -> Seq<u8> {
    Seq::new(
        base.len(),
        |i: int|
            if at <= i < at + patch.len() {
                patch[i - at]
            } else {
                base[i]
            },
    )
}

/// `base` with every byte at or past `from` set to zero.
pub open spec fn zeroed_from(base: Seq<u8>, from: int) -> Seq<u8> {
    Seq::new(
        base.len(),
        |i: int|
            if i >= from {
                0u8
            } else {
                base[i]
            },
    )
}

/// How a write treats the end of the file.
#[derive(Debug, Clone, Copy)]
pub enum WriteMode {
    /// Start at the offset and extend the file as much as needed.
    Normal { offset: u64 },
    /// Never change the file size: bytes that would fall past the end are dropped.
    ConstrainedIO { offset: u64 },
    /// Write at the current end of the file.
    WriteToEOF,
}

/// The mathematical content of an extent: all allocated bytes and the logical size.
pub ghost struct ExtentView {
    pub bytes: Seq<u8>,
    pub file_size: nat,
}

impl ExtentView {
    /// The logical size lies within the allocation, the allocation within the
    /// limit, and the slack past the logical size is zero.
    pub open spec fn wf(self) -> bool {
        &&& self.file_size <= self.bytes.len()
        &&& self.bytes.len() <= MAX_ALLOCATION
        &&& forall|i: int| self.file_size <= i < self.bytes.len() ==> self.bytes[i] == 0u8
    }

    pub open spec fn allocation_size(self) -> nat {
        self.bytes.len()
    }

    /// The bytes of the file proper.
    pub open spec fn content(self) -> Seq<u8> {
        self.bytes.subrange(0, self.file_size as int)
    }

    /// The extent after its allocation is set to exactly `n` bytes.
    pub open spec fn with_allocation(self, n: nat) -> ExtentView {
        ExtentView {
            bytes: if n <= self.bytes.len() {
                self.bytes.subrange(0, n as int)
            } else {
                self.bytes + zeros((n - self.bytes.len()) as nat)
            },
            file_size: if n < self.file_size {
                n
            } else {
                self.file_size
            },
        }
    }

    /// The extent after its allocation is fitted to a file of `target` bytes.
    pub open spec fn adapted(self, target: nat) -> ExtentView {
        self.with_allocation(round_up_to_unit(target as int) as nat)
    }

    /// The extent after its logical size is set to `n`: the allocation grows, by
    /// whole units, only if `n` does not fit; no byte at or past `n` survives.
    pub open spec fn with_file_size(self, n: nat) -> ExtentView {
        let grown = if n > self.bytes.len() {
            self.adapted(n)
        } else {
            self
        };
        ExtentView { bytes: zeroed_from(grown.bytes, n as int), file_size: n }
    }

    /// What a read of `length` bytes at `offset` returns.
    pub open spec fn read(self, offset: nat, length: nat) -> Seq<u8> {
        if offset >= self.file_size {
            Seq::empty()
        } else if offset + length >= self.file_size {
            self.bytes.subrange(offset as int, self.file_size as int)
        } else {
            self.bytes.subrange(offset as int, (offset + length) as int)
        }
    }

    /// The extent after `buffer` is written at `offset`, growing the file as needed.
    pub open spec fn written(self, buffer: Seq<u8>, offset: nat) -> ExtentView {
        let end = offset + buffer.len();
        let base = if end > self.file_size {
            self.with_file_size(end)
        } else {
            self
        };
        ExtentView { bytes: overlay(base.bytes, offset as int, buffer), file_size: base.file_size }
    }

    /// How many bytes a constrained write of `len` bytes at `offset` transfers.
    pub open spec fn constrained_len(self, len: nat, offset: nat) -> nat {
        if offset >= self.file_size {
            0
        } else if offset + len >= self.file_size {
            (self.file_size - offset) as nat
        } else {
            len
        }
    }

    /// The extent after a write of `buffer` at `offset` that may not grow the file.
    pub open spec fn constrained_written(self, buffer: Seq<u8>, offset: nat) -> ExtentView {
        let n = self.constrained_len(buffer.len(), offset);
        ExtentView {
            bytes: overlay(self.bytes, offset as int, buffer.subrange(0, n as int)),
            file_size: self.file_size,
        }
    }

    /// The offset at which a write in `mode` starts.
    pub open spec fn write_offset(self, mode: WriteMode) -> nat {
        match mode {
            WriteMode::Normal { offset } => offset as nat,
            WriteMode::ConstrainedIO { offset } => offset as nat,
            WriteMode::WriteToEOF => self.file_size,
        }
    }

    /// The extent after `buffer` is written in `mode`.
    pub open spec fn written_in(self, buffer: Seq<u8>, mode: WriteMode) -> ExtentView {
        match mode {
            WriteMode::ConstrainedIO { offset } => self.constrained_written(buffer, offset as nat),
            _ => self.written(buffer, self.write_offset(mode)),
        }
    }

    /// How many bytes a write of `len` bytes in `mode` transfers.
    pub open spec fn transferred(self, len: nat, mode: WriteMode) -> nat {
        match mode {
            WriteMode::ConstrainedIO { offset } => self.constrained_len(len, offset as nat),
            _ => len,
        }
    }

    /// The highest position a write of `len` bytes in `mode` may touch.
    pub open spec fn write_end(self, len: nat, mode: WriteMode) -> nat {
        match mode {
            WriteMode::ConstrainedIO { .. } => self.file_size,
            _ => self.write_offset(mode) + len,
        }
    }
}

/// The bytes allocated to one file, with the file's logical size.
#[derive(Debug)]
pub struct ByteExtent {
    data: Vec<u8>,
    file_size: usize,
}

impl View for ByteExtent {
    type V = ExtentView;

    closed spec fn view(&self) -> ExtentView {
        ExtentView { bytes: self.data@, file_size: self.file_size as nat }
    }
}

/// Rounds `n` up to a whole number of allocation units.
pub fn allocation_for(n: usize) -> (r: usize)
    requires
        n <= MAX_ALLOCATION,
    ensures
        r == round_up_to_unit(n as int),
        n <= r <= MAX_ALLOCATION,
        r % 4096 == 0,
        r - n < 4096,
{
    let units: usize = (n + (ALLOCATION_UNIT - 1)) / ALLOCATION_UNIT;
    units * ALLOCATION_UNIT
}

impl ByteExtent {
    /// The invariant of an extent, stated on its view.
    pub open spec fn wf(&self) -> bool {
        self@.wf()
    }

    /// A zero-filled extent of `allocation_size` bytes holding an empty file.
    pub fn new(allocation_size: usize) -> (e: ByteExtent)
        requires
            allocation_size <= MAX_ALLOCATION,
        ensures
            e.wf(),
            e@.file_size == 0,
            e@.bytes == zeros(allocation_size as nat),
    {
        let mut data: Vec<u8> = Vec::new();
        data.resize(allocation_size, 0u8);
        assert(data@ =~= zeros(allocation_size as nat));
        ByteExtent { data, file_size: 0 }
    }

    /// The number of bytes allocated.
    pub fn allocation_size(&self) -> (n: usize)
        ensures
            n == self@.allocation_size(),
    {
        self.data.len()
    }

    /// The logical size of the file.
    pub fn file_size(&self) -> (n: usize)
        ensures
            n == self@.file_size,
    {
        self.file_size
    }

    /// Sets the allocation to exactly `n` bytes. New bytes are zero; a file longer
    /// than `n` is cut to `n`.
    pub fn set_allocation_size(&mut self, n: usize)
        requires
            old(self).wf(),
            n <= MAX_ALLOCATION,
        ensures
            final(self).wf(),
            final(self)@ == old(self)@.with_allocation(n as nat),
    {
        self.data.resize(n, 0u8);
        if n < self.file_size {
            self.file_size = n;
        }
        assert(self@.bytes =~= old(self)@.with_allocation(n as nat).bytes);
    }

    /// Fits the allocation to a file of `target` bytes: the smallest whole number
    /// of allocation units that holds it.
    pub fn adapt_allocation_size(&mut self, target: usize)
        requires
            old(self).wf(),
            target <= MAX_ALLOCATION,
        ensures
            final(self).wf(),
            final(self)@ == old(self)@.adapted(target as nat),
    {
        let n = allocation_for(target);
        self.set_allocation_size(n);
    }

    /// Sets the logical size to `n`. Shrinking erases the bytes cut off and keeps
    /// the allocation; growing past the allocation refits it to `n`.
    pub fn set_file_size(&mut self, n: usize)
        requires
            old(self).wf(),
            n <= MAX_ALLOCATION,
        ensures
            final(self).wf(),
            final(self)@ == old(self)@.with_file_size(n as nat),
    {
        if n < self.file_size {
            let end = self.file_size;
            let mut i: usize = n;
            while i < end
                invariant
                    n <= i <= end,
                    end == self.file_size,
                    self.file_size == old(self).file_size,
                    self.data@.len() == old(self).data@.len(),
                    end <= self.data@.len(),
                    forall|j: int| 0 <= j < n ==> self.data@[j] == old(self).data@[j],
                    forall|j: int| n <= j < i ==> self.data@[j] == 0u8,
                    forall|j: int| i <= j < self.data@.len() ==> self.data@[j] == old(self).data@[j],
                decreases end - i,
            {
                self.data[i] = 0u8;
                i += 1;
            }
        }
        if n > self.data.len() {
            self.adapt_allocation_size(n);
        }
        self.file_size = n;
        assert(self@.bytes =~= old(self)@.with_file_size(n as nat).bytes);
    }

    /// The bytes of the file from `offset` on, at most `length` of them; none if
    /// `offset` is at or past the end of the file.
    pub fn read(&self, offset: usize, length: usize) -> (out: &[u8])
        requires
            self.wf(),
        ensures
            out@ == self@.read(offset as nat, length as nat),
    {
        if offset >= self.file_size {
            let out = vstd::slice::slice_subrange(self.data.as_slice(), 0, 0);
            assert(out@ =~= Seq::<u8>::empty());
            out
        } else if length >= self.file_size - offset {
            vstd::slice::slice_subrange(self.data.as_slice(), offset, self.file_size)
        } else {
            vstd::slice::slice_subrange(self.data.as_slice(), offset, offset + length)
        }
    }

    /// Copies the first `count` bytes of `buffer` into the allocation at `offset`.
    fn copy_in(&mut self, buffer: &[u8], offset: usize, count: usize)
        requires
            count <= buffer@.len(),
            offset + count <= old(self).data@.len(),
        ensures
            final(self).file_size == old(self).file_size,
            final(self).data@ == overlay(
                old(self).data@,
                offset as int,
                buffer@.subrange(0, count as int),
            ),
    {
        let total = self.data.len();
        let mut i: usize = 0;
        while i < count
            invariant
                i <= count <= buffer@.len(),
                offset + count <= total,
                total == self.data@.len(),
                self.file_size == old(self).file_size,
                self.data@.len() == old(self).data@.len(),
                forall|j: int|
                    0 <= j < self.data@.len() ==> self.data@[j] == if offset <= j < offset + i {
                        buffer@[j - offset]
                    } else {
                        old(self).data@[j]
                    },
            decreases count - i,
        {
            self.data[offset + i] = buffer[i];
            i += 1;
        }
        assert(self.data@ =~= overlay(
            old(self).data@,
            offset as int,
            buffer@.subrange(0, count as int),
        ));
    }

    /// Writes all of `buffer` at `offset`, first growing the file to hold it.
    /// Returns the number of bytes written, which is the length of `buffer`.
    pub fn write(&mut self, buffer: &[u8], offset: usize) -> (written: usize)
        requires
            old(self).wf(),
            offset + buffer@.len() <= MAX_ALLOCATION,
        ensures
            final(self).wf(),
            final(self)@ == old(self)@.written(buffer@, offset as nat),
            written == buffer@.len(),
    {
        let end = offset + buffer.len();
        if end > self.file_size {
            self.set_file_size(end);
        }
        self.copy_in(buffer, offset, buffer.len());
        assert(buffer@.subrange(0, buffer@.len() as int) =~= buffer@);
        buffer.len()
    }

    /// Writes as much of `buffer` at `offset` as fits before the end of the file,
    /// which does not move. Returns the number of bytes written.
    pub fn constrained_write(&mut self, buffer: &[u8], offset: usize) -> (written: usize)
        requires
            old(self).wf(),
        ensures
            final(self).wf(),
            final(self)@ == old(self)@.constrained_written(buffer@, offset as nat),
            written == old(self)@.constrained_len(buffer@.len(), offset as nat),
    {
        if offset >= self.file_size {
            assert(buffer@.subrange(0, 0) =~= Seq::<u8>::empty());
            assert(self@.bytes =~= overlay(self@.bytes, offset as int, Seq::<u8>::empty()));
            return 0;
        }
        let room = self.file_size - offset;
        let count = if buffer.len() >= room {
            room
        } else {
            buffer.len()
        };
        self.copy_in(buffer, offset, count);
        count
    }

    /// Writes `buffer` as `mode` directs and returns the number of bytes written.
    pub fn write_in(&mut self, buffer: &[u8], mode: WriteMode) -> (written: usize)
        requires
            old(self).wf(),
            old(self)@.write_end(buffer@.len(), mode) <= MAX_ALLOCATION,
        ensures
            final(self).wf(),
            final(self)@ == old(self)@.written_in(buffer@, mode),
            written == old(self)@.transferred(buffer@.len(), mode),
    {
        match mode {
            WriteMode::Normal { offset } => self.write(buffer, offset as usize),
            WriteMode::ConstrainedIO { offset } => {
                if offset >= self.file_size as u64 {
                    assert(buffer@.subrange(0, 0) =~= Seq::<u8>::empty());
                    assert(self@.bytes =~= overlay(self@.bytes, offset as int, Seq::<u8>::empty()));
                    0
                } else {
                    self.constrained_write(buffer, offset as usize)
                }
            },
            WriteMode::WriteToEOF => {
                let offset = self.file_size;
                self.write(buffer, offset)
            },
        }
    }
}

/// One change to an extent, as a value.
pub ghost enum ExtentOp {
    /// A write of `buffer` in `mode`.
    Write { buffer: Seq<u8>, mode: WriteMode },
    /// Setting the logical size.
    SetFileSize { size: nat },
    /// Setting the allocation.
    SetAllocationSize { size: nat },
}

impl ExtentView {
    /// The extent after `op`.
    pub open spec fn apply(self, op: ExtentOp) -> ExtentView {
        match op {
            ExtentOp::Write { buffer, mode } => self.written_in(buffer, mode),
            ExtentOp::SetFileSize { size } => self.with_file_size(size),
            ExtentOp::SetAllocationSize { size } => self.with_allocation(size),
        }
    }

    /// The extent after each of `ops` in turn.
    pub open spec fn apply_all(self, ops: Seq<ExtentOp>) -> ExtentView
        decreases ops.len(),
    {
        if ops.len() == 0 {
            self
        } else {
            self.apply(ops[0]).apply_all(ops.subrange(1, ops.len() as int))
        }
    }
}

/// Rounding up to the allocation unit gives the least multiple of the unit that
/// is not below the argument.
pub proof fn lemma_round_up_is_least_multiple(n: nat)
    ensures
        is_unit_multiple(round_up_to_unit(n as int)),
        round_up_to_unit(n as int) >= n,
        forall|m: int| #[trigger] is_unit_multiple(m) && m >= n ==> round_up_to_unit(n as int) <= m,
{
    assert forall|m: int| #[trigger] is_unit_multiple(m) && m >= n implies round_up_to_unit(
        n as int,
    ) <= m by {
        if round_up_to_unit(n as int) > m {
            assert(round_up_to_unit(n as int) - m >= 4096);
        }
    }
}

/// The logical size stays within the allocation through any run of writes and
/// size changes.
pub proof fn lemma_size_within_allocation(v: ExtentView, ops: Seq<ExtentOp>)
    requires
        v.file_size <= v.allocation_size(),
    ensures
        v.apply_all(ops).file_size <= v.apply_all(ops).allocation_size(),
    decreases ops.len(),
{
    if ops.len() > 0 {
        lemma_round_up_is_least_multiple(v.file_size);
        match ops[0] {
            ExtentOp::Write { buffer, mode } => {
                lemma_round_up_is_least_multiple(v.write_offset(mode) + buffer.len());
            },
            ExtentOp::SetFileSize { size } => {
                lemma_round_up_is_least_multiple(size);
            },
            ExtentOp::SetAllocationSize { size } => {},
        }
        lemma_size_within_allocation(v.apply(ops[0]), ops.subrange(1, ops.len() as int));
    }
}

/// A write that ends past the allocation leaves the allocation at the least
/// multiple of the unit that holds the new file, whose size is the end of the write.
pub proof fn lemma_implicit_growth_is_rounded(v: ExtentView, buffer: Seq<u8>, offset: nat)
    requires
        v.file_size <= v.allocation_size(),
        offset + buffer.len() > v.allocation_size(),
    ensures
        v.written(buffer, offset).file_size == offset + buffer.len(),
        v.written(buffer, offset).allocation_size() == round_up_to_unit((offset + buffer.len()) as int),
        is_unit_multiple(v.written(buffer, offset).allocation_size() as int),
        v.written(buffer, offset).allocation_size() >= v.written(buffer, offset).file_size,
        forall|m: int|
            #[trigger] is_unit_multiple(m) && m >= v.written(buffer, offset).file_size ==> v.written(
                buffer,
                offset,
            ).allocation_size() <= m,
{
    lemma_round_up_is_least_multiple(offset + buffer.len());
}

/// A constrained write changes neither the logical size nor the allocation.
pub proof fn lemma_constrained_write_keeps_size(v: ExtentView, buffer: Seq<u8>, offset: nat)
    ensures
        v.constrained_written(buffer, offset).file_size == v.file_size,
        v.constrained_written(buffer, offset).allocation_size() == v.allocation_size(),
{
}

/// Reading back the range just written returns the bytes written.
pub proof fn lemma_read_after_write(v: ExtentView, buffer: Seq<u8>, offset: nat)
    requires
        v.file_size <= v.allocation_size(),
    ensures
        v.written(buffer, offset).read(offset, buffer.len()) == buffer,
{
    lemma_round_up_is_least_multiple(offset + buffer.len());
    let w = v.written(buffer, offset);
    assert(w.read(offset, buffer.len()) =~= buffer);
}

} // verus!
