//! Buffer capabilities: a byte container may be fillable by an inbound
//! operation (`RdBuf`), drainable as the source of an outbound operation
//! (`WrBuf`), either, both, or neither.
use vstd::prelude::*;

verus! {

/// Trait for types implementing a read buffer: storage an inbound transfer
/// fills, plus a confirmation hook reporting which sub-range became valid.
pub trait RdBuf {
    /// Well-formedness of the container, preserved by every capability
    /// method. Containers without internal invariants use `true`.
    spec fn rd_inv(&self) -> bool;

    /// The full byte storage exposed to an inbound fill.
    spec fn rd_bytes(&self) -> Seq<u8>;

    /// The length of the prefix of that storage currently considered valid.
    /// Containers that do not track partial validity treat all their bytes
    /// as valid.
    spec fn rd_valid(&self) -> int;

    /// Return a mutable u8 slice into some storage which need not be
    /// initialized, to be written by the inbound operation. Writing through
    /// the slice cannot change its length, so once the borrow ends the
    /// container is still well formed, with its valid prefix length
    /// untouched.
    fn rdbuf(&mut self) -> (r: &mut [u8])
        requires
            old(self).rd_inv(),
        ensures
            r@ == old(self).rd_bytes(),
            final(self).rd_bytes() == final(r)@,
            final(r)@.len() == old(self).rd_bytes().len() ==> final(self).rd_inv(),
            final(r)@.len() == old(self).rd_bytes().len() ==> final(self).rd_valid()
                == old(self).rd_valid(),
    ;

    /// Called to indicate some range of the buffer was updated by the read,
    /// from [`base` .. `base`+`len`). The valid prefix grows to `base + len`
    /// exactly when the reported range is contiguous with (or overlaps) the
    /// current valid prefix and stays inside the storage; a report of a
    /// disjoint range past the frontier changes nothing.
    fn rdupdate(&mut self, base: usize, len: usize)
        requires
            old(self).rd_inv(),
            base + len <= usize::MAX,
        ensures
            final(self).rd_inv(),
            final(self).rd_bytes() == old(self).rd_bytes(),
            final(self).rd_valid() == (if base <= old(self).rd_valid()
                    && base + len > old(self).rd_valid()
                    && base + len <= old(self).rd_bytes().len() {
                base + len as int
            } else {
                old(self).rd_valid()
            }),
    ;
}

/// Trait for types implementing a write buffer: the initialized bytes that
/// are the source of an outbound operation.
pub trait WrBuf {
    /// Well-formedness of the container. Containers without internal
    /// invariants use `true`.
    spec fn wr_inv(&self) -> bool;

    /// The bytes an outbound drain would send.
    spec fn wr_bytes(&self) -> Seq<u8>;

    /// Return an initialized immutable slice which is the source data for a
    /// write.
    fn wrbuf(&self) -> (r: &[u8])
        requires
            self.wr_inv(),
        ensures
            r@ == self.wr_bytes(),
    ;
}

impl RdBuf for [u8] {
    open spec fn rd_inv(&self) -> bool {
        true
    }

    open spec fn rd_bytes(&self) -> Seq<u8> {
        self@
    }

    open spec fn rd_valid(&self) -> int {
        self@.len() as int
    }

    fn rdbuf(&mut self) -> (r: &mut [u8]) {
        self
    }

    fn rdupdate(&mut self, base: usize, len: usize) {
    }
}

impl WrBuf for [u8] {
    open spec fn wr_inv(&self) -> bool {
        true
    }

    open spec fn wr_bytes(&self) -> Seq<u8> {
        self@
    }

    fn wrbuf(&self) -> (r: &[u8]) {
        self
    }
}

impl RdBuf for Vec<u8> {
    open spec fn rd_inv(&self) -> bool {
        true
    }

    open spec fn rd_bytes(&self) -> Seq<u8> {
        self@
    }

    open spec fn rd_valid(&self) -> int {
        self@.len() as int
    }

    fn rdbuf(&mut self) -> (r: &mut [u8]) {
        self.as_mut_slice()
    }

    fn rdupdate(&mut self, base: usize, len: usize) {
    }
}

impl WrBuf for Vec<u8> {
    open spec fn wr_inv(&self) -> bool {
        true
    }

    open spec fn wr_bytes(&self) -> Seq<u8> {
        self@
    }

    fn wrbuf(&self) -> (r: &[u8]) {
        self.as_slice()
    }
}

impl<T: RdBuf> RdBuf for Box<T> {
    open spec fn rd_inv(&self) -> bool {
        (**self).rd_inv()
    }

    open spec fn rd_bytes(&self) -> Seq<u8> {
        (**self).rd_bytes()
    }

    open spec fn rd_valid(&self) -> int {
        (**self).rd_valid()
    }

    fn rdbuf(&mut self) -> (r: &mut [u8]) {
        (**self).rdbuf()
    }

    fn rdupdate(&mut self, base: usize, len: usize) {
        (**self).rdupdate(base, len)
    }
}

impl<T: WrBuf> WrBuf for Box<T> {
    open spec fn wr_inv(&self) -> bool {
        (**self).wr_inv()
    }

    open spec fn wr_bytes(&self) -> Seq<u8> {
        (**self).wr_bytes()
    }

    fn wrbuf(&self) -> (r: &[u8]) {
        (**self).wrbuf()
    }
}

} // verus!
