//! Aligned memory buffers for Direct IO.
use vstd::prelude::*;
use vstd::slice::slice_subrange;
use vstd::arithmetic::div_mod::lemma_fundamental_div_mod;
use vstd::arithmetic::div_mod::lemma_mod_multiples_basic;

use crate::buf::RdBuf;
use crate::buf::WrBuf;

verus! {

/// A positive integer that is a power of two.
pub open spec fn is_pow2(n: int) -> bool
    decreases n,
{
    if n <= 0 {
        false
    } else if n == 1 {
        true
    } else {
        n % 2 == 0 && is_pow2(n / 2)
    }
}

/// The smallest multiple of `align` that is greater than or equal to `size`;
/// see `lemma_round_up_props` and `lemma_round_up_is_least`.
pub open spec fn round_up(size: int, align: int) -> int
    recommends
        align >= 1,
{
    ((size + align - 1) / align) * align
}

/// `round_up` yields a multiple of `align` no smaller than `size` and less
/// than `size + align`.
pub proof fn lemma_round_up_props(size: int, align: int)
    requires
        align >= 1,
        size >= 0,
    ensures
        round_up(size, align) % align == 0,
        size <= round_up(size, align) < size + align,
{
    let q = (size + align - 1) / align;
    lemma_fundamental_div_mod(size + align - 1, align);
    vstd::arithmetic::div_mod::lemma_mod_bound(size + align - 1, align);
    lemma_mod_multiples_basic(q, align);
}

/// No smaller multiple of `align` reaches `size`: `round_up` is the least.
pub proof fn lemma_round_up_is_least(size: int, align: int, m: int)
    requires
        align >= 1,
        size >= 0,
        m % align == 0,
        m >= size,
    ensures
        m >= round_up(size, align),
{
    let q = (size + align - 1) / align;
    let k = m / align;
    lemma_fundamental_div_mod(m, align);
    lemma_round_up_props(size, align);
    if m < round_up(size, align) {
        assert(k * align < q * align);
        assert(k < q) by (nonlinear_arith)
            requires
                k * align < q * align,
                align >= 1,
        ;
        assert(k * align <= q * align - align) by (nonlinear_arith)
            requires
                k <= q - 1,
                align >= 1,
        ;
        assert(m <= round_up(size, align) - align);
        assert(round_up(size, align) < size + align);
        assert(m < size);
    }
}

/// True exactly when `n` is a power of two.
pub fn ispower2(n: usize) -> (r: bool)
    requires
        n >= 1,
    ensures
        r == is_pow2(n as int),
{
    let mut m = n;
    while m % 2 == 0
        invariant
            m >= 1,
            is_pow2(n as int) == is_pow2(m as int),
        decreases m,
    {
        m = m / 2;
    }
    m == 1
}

/// Allocate and manage buffers with fixed memory alignment.
///
/// This is intended to be used with direct IO, which has such requirements.
/// The buffer has two sizes associated with it: the actual number of
/// allocated bytes, which is always a multiple of the alignment, and the
/// number of valid (initialized) bytes.
pub struct AlignedBuf {
    buf: Vec<u8>,
    align: usize,
    valid: usize,
}

impl AlignedBuf {
    /// Length of allocated memory.
    pub closed spec fn spec_len(self) -> int {
        self.buf@.len() as int
    }

    /// Length of the valid/initialized prefix.
    pub closed spec fn spec_valid(self) -> int {
        self.valid as int
    }

    /// Alignment of the buffer.
    pub closed spec fn spec_align(self) -> int {
        self.align as int
    }

    /// All allocated bytes.
    pub closed spec fn bytes(self) -> Seq<u8> {
        self.buf@
    }

    /// The valid prefix.
    pub open spec fn valid_bytes(self) -> Seq<u8> {
        self.bytes().take(self.spec_valid())
    }

    /// Well-formedness, established by every constructor and preserved by
    /// every method: a positive power-of-two alignment, an allocated length
    /// that is a multiple of it, and a valid prefix no longer than the
    /// allocation.
    pub closed spec fn wf(self) -> bool {
        &&& self.align >= 1
        &&& is_pow2(self.align as int)
        &&& self.valid <= self.buf@.len()
        &&& self.buf@.len() as int % self.align as int == 0
    }

    /// What well-formedness guarantees: the valid prefix never outgrows the
    /// allocation, which is a multiple of the positive power-of-two
    /// alignment.
    pub proof fn lemma_wf_facts(self)
        requires
            self.wf(),
        ensures
            0 <= self.spec_valid() <= self.spec_len(),
            self.bytes().len() == self.spec_len(),
            self.valid_bytes().len() == self.spec_valid(),
            self.spec_align() >= 1,
            is_pow2(self.spec_align()),
            self.spec_len() % self.spec_align() == 0,
    {
    }

    /// Allocate some uninitialized memory. No bytes are valid as a result of
    /// this: the allocated length is rounded up to the next multiple of the
    /// alignment, and the valid length starts at 0.
    ///
    /// # Preconditions
    /// `align` must be a power of 2, and greater than 0, and the rounded
    /// request must fit in a `usize`.
    pub fn alloc_uninit(size: usize, align: usize) -> (r: Option<AlignedBuf>)
        requires
            align > 0,
            is_pow2(align as int),
            size + align - 1 <= usize::MAX,
        ensures
            r matches Some(b) && b.wf() && b.spec_align() == align && b.spec_valid() == 0
                && b.spec_len() == round_up(size as int, align as int),
    {
        proof {
            lemma_round_up_props(size as int, align as int);
        }
        let sz = (size + (align - 1)) / align * align;
        let buf = vec![0u8; sz];
        Some(AlignedBuf { buf, align, valid: 0 })
    }

    /// Allocate a buffer initialized to zero bytes; the whole allocation is
    /// valid.
    pub fn alloc_zeroed(size: usize, align: usize) -> (r: Option<AlignedBuf>)
        requires
            align > 0,
            is_pow2(align as int),
            size + align - 1 <= usize::MAX,
        ensures
            r matches Some(b) && b.wf() && b.spec_align() == align
                && b.spec_len() == round_up(size as int, align as int)
                && b.spec_valid() == b.spec_len()
                && b.bytes() == Seq::new(b.spec_len() as nat, |i: int| 0u8),
    {
        match AlignedBuf::alloc_uninit(size, align) {
            None => None,
            Some(mut b) => {
                let n = b.buf.len();
                let mut i: usize = 0;
                while i < n
                    invariant
                        i <= n,
                        b.buf@.len() == n,
                        b.align == align,
                        b.valid == 0,
                        b.wf(),
                        b.spec_len() == round_up(size as int, align as int),
                        forall|k: int| 0 <= k < i ==> b.buf@[k] == 0u8,
                    decreases n - i,
                {
                    b.buf[i] = 0u8;
                    i = i + 1;
                }
                b.valid = n;
                proof {
                    assert(b.bytes() =~= Seq::new(b.spec_len() as nat, |i: int| 0u8));
                }
                Some(b)
            },
        }
    }

    /// Allocate a buffer and initialize it from a slice: the data sits at the
    /// start, any rounding padding is zero-filled, and the whole allocation
    /// is valid.
    pub fn from_slice(data: &[u8], align: usize) -> (r: Option<AlignedBuf>)
        requires
            align > 0,
            is_pow2(align as int),
            data@.len() + align - 1 <= usize::MAX,
        ensures
            r matches Some(b) && b.wf() && b.spec_align() == align
                && b.spec_len() == round_up(data@.len() as int, align as int)
                && b.spec_valid() == b.spec_len()
                && b.bytes().take(data@.len() as int) == data@
                && (forall|i: int| data@.len() <= i < b.spec_len() ==> b.bytes()[i] == 0u8),
    {
        match AlignedBuf::alloc_uninit(data.len(), align) {
            None => None,
            Some(mut b) => {
                proof {
                    lemma_round_up_props(data@.len() as int, align as int);
                }
                let n = b.buf.len();
                let mut i: usize = 0;
                while i < data.len()
                    invariant
                        i <= data@.len() <= n,
                        b.buf@.len() == n,
                        b.align == align,
                        b.valid == 0,
                        b.wf(),
                        b.spec_len() == round_up(data@.len() as int, align as int),
                        forall|k: int| 0 <= k < i ==> b.buf@[k] == data@[k],
                    decreases data@.len() - i,
                {
                    b.buf[i] = data[i];
                    i = i + 1;
                }
                let mut j: usize = data.len();
                while j < n
                    invariant
                        data@.len() <= j <= n,
                        b.buf@.len() == n,
                        b.align == align,
                        b.valid == 0,
                        b.wf(),
                        b.spec_len() == round_up(data@.len() as int, align as int),
                        forall|k: int| 0 <= k < data@.len() ==> b.buf@[k] == data@[k],
                        forall|k: int| data@.len() <= k < j ==> b.buf@[k] == 0u8,
                    decreases n - j,
                {
                    b.buf[j] = 0u8;
                    j = j + 1;
                }
                b.valid = n;
                proof {
                    assert(b.bytes().take(data@.len() as int) =~= data@);
                }
                Some(b)
            },
        }
    }

    /// Confirm that a fill wrote [`base` .. `base`+`len`): the valid prefix
    /// grows to `base + len` exactly when the reported range is contiguous
    /// with (or overlaps) the current frontier; a report of a disjoint range
    /// past the frontier changes nothing. A contiguous report running past
    /// the allocated length would break the buffer's invariant and is a
    /// caller usage error, excluded here by precondition.
    pub fn confirm_filled(&mut self, base: usize, len: usize)
        requires
            old(self).wf(),
            base + len <= usize::MAX,
            (base <= old(self).spec_valid() && base + len > old(self).spec_valid())
                ==> base + len <= old(self).spec_len(),
        ensures
            final(self).wf(),
            final(self).bytes() == old(self).bytes(),
            final(self).spec_len() == old(self).spec_len(),
            final(self).spec_align() == old(self).spec_align(),
            final(self).spec_valid() == (if base <= old(self).spec_valid() && base + len > old(
                self,
            ).spec_valid() {
                base + len as int
            } else {
                old(self).spec_valid()
            }),
    {
        if base <= self.valid && base + len > self.valid {
            self.valid = base + len;
        }
    }

    /// Return a read-only slice of the valid portion of the buffer.
    pub fn as_slice(&self) -> (r: &[u8])
        requires
            self.wf(),
        ensures
            r@ == self.valid_bytes(),
    {
        self.wrbuf()
    }

    /// Length of allocated memory.
    pub fn len(&self) -> (r: usize)
        ensures
            r as int == self.spec_len(),
    {
        self.buf.len()
    }

    /// Length of the valid/initialized prefix.
    pub fn valid(&self) -> (r: usize)
        ensures
            r as int == self.spec_valid(),
    {
        self.valid
    }
}

impl Clone for AlignedBuf {
    /// Clones the buffer, copying the valid portion of it from the source.
    /// The non-valid part of the result holds unspecified contents which may
    /// differ from the source.
    fn clone(&self) -> (r: AlignedBuf)
        ensures
            self.wf() ==> {
                &&& r.wf()
                &&& r.spec_len() == self.spec_len()
                &&& r.spec_align() == self.spec_align()
                &&& r.spec_valid() == self.spec_valid()
                &&& r.valid_bytes() == self.valid_bytes()
            },
    {
        let n = self.buf.len();
        let mut buf: Vec<u8> = vec![0u8; n];
        let count = if self.valid <= n {
            self.valid
        } else {
            n
        };
        let mut i: usize = 0;
        while i < count
            invariant
                i <= count <= n,
                self.buf@.len() == n,
                buf@.len() == n,
                forall|k: int| 0 <= k < i ==> buf@[k] == self.buf@[k],
            decreases count - i,
        {
            buf[i] = self.buf[i];
            i = i + 1;
        }
        let r = AlignedBuf { buf, align: self.align, valid: count };
        proof {
            if self.wf() {
                assert(r.valid_bytes() =~= self.valid_bytes());
            }
        }
        r
    }
}

impl RdBuf for AlignedBuf {
    open spec fn rd_inv(&self) -> bool {
        self.wf()
    }

    open spec fn rd_bytes(&self) -> Seq<u8> {
        self.bytes()
    }

    open spec fn rd_valid(&self) -> int {
        self.spec_valid()
    }

    /// Return a writable slice to the whole buffer; it may not be
    /// initialized, and so should be treated as write-only.
    fn rdbuf(&mut self) -> (r: &mut [u8])
        ensures
            final(self).spec_align() == old(self).spec_align(),
            final(self).spec_valid() == old(self).spec_valid(),
    {
        self.buf.as_mut_slice()
    }

    /// Update the valid portion of the buffer, keeping its allocated length
    /// and alignment. A contiguous report running past the allocated length
    /// is a caller usage error (see `confirm_filled`, whose precondition
    /// excludes it); this capability entry admits every range and so leaves
    /// such a report without effect.
    fn rdupdate(&mut self, base: usize, len: usize)
        ensures
            final(self).spec_len() == old(self).spec_len(),
            final(self).spec_align() == old(self).spec_align(),
    {
        if base <= self.valid && base + len > self.valid && base + len <= self.buf.len() {
            self.valid = base + len;
        }
    }
}

impl WrBuf for AlignedBuf {
    open spec fn wr_inv(&self) -> bool {
        self.wf()
    }

    open spec fn wr_bytes(&self) -> Seq<u8> {
        self.valid_bytes()
    }

    /// Return a read-only slice of the valid portion of the buffer.
    fn wrbuf(&self) -> (r: &[u8]) {
        slice_subrange(self.buf.as_slice(), 0, self.valid)
    }
}

} // verus!
