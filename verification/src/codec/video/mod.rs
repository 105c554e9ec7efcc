//! Video codec support: pixel formats, frame planes (a plane is a block of
//! `line_count` lines of `line_size` bytes each) and the encoder
//! configuration.
pub mod decoder;
pub mod encoder;

use vstd::prelude::*;

verus! {

/// Pixel format (its raw native value).
#[derive(Copy, Clone, PartialEq, Eq, Structural)]
pub struct PixelFormat(i32);

impl PixelFormat {
    /// The raw value (model).
    pub closed spec fn spec_raw(self) -> i32 {
        self.0
    }

    /// Create a pixel format value from a given raw representation.
    pub fn from_raw(v: i32) -> (r: PixelFormat)
        ensures
            r.spec_raw() == v,
    {
        PixelFormat(v)
    }

    /// Get the raw value.
    pub fn into_raw(self) -> (r: i32)
        ensures
            r == self.spec_raw(),
    {
        self.0
    }
}

/// The bytes of line `index` of a plane with lines of `line_size` bytes.
pub open spec fn line_of(data: Seq<u8>, line_size: nat, index: nat) -> Seq<u8> {
    data.subrange((index * line_size) as int, (index * line_size + line_size) as int)
}

proof fn lemma_line_in_bounds(line_size: nat, line_count: nat, index: nat)
    requires
        index < line_count,
    ensures
        index * line_size + line_size <= line_size * line_count,
{
    assert(index * line_size + line_size <= line_size * line_count) by (nonlinear_arith)
        requires
            index < line_count,
    ;
}

/// Picture plane (i.e. a planar array of pixel components).
pub struct Plane<'a> {
    data: &'a [u8],
    line_size: usize,
    line_count: usize,
}

impl<'a> Plane<'a> {
    /// The plane data (model).
    pub closed spec fn spec_data(self) -> Seq<u8> {
        self.data@
    }

    /// The line size (model).
    pub closed spec fn spec_line_size(self) -> usize {
        self.line_size
    }

    /// The number of lines (model).
    pub closed spec fn spec_line_count(self) -> usize {
        self.line_count
    }

    /// The plane holds exactly `line_count` lines of `line_size` bytes.
    pub closed spec fn wf(self) -> bool {
        self.data@.len() == self.line_size * self.line_count
    }

    /// Describe a plane by its data and line geometry.
    pub fn new(data: &'a [u8], line_size: usize, line_count: usize) -> (r: Plane<'a>)
        requires
            data@.len() == line_size * line_count,
        ensures
            r.wf(),
            r.spec_data() == data@,
            r.spec_line_size() == line_size,
            r.spec_line_count() == line_count,
    {
        Plane { data, line_size, line_count }
    }

    /// Get plane data.
    pub fn data(&self) -> (r: &'a [u8])
        ensures
            r@ == self.spec_data(),
    {
        self.data
    }

    /// Get a single line.
    pub fn line(&self, index: usize) -> (r: Option<&'a [u8]>)
        requires
            self.wf(),
        ensures
            index < self.spec_line_count() ==> (r matches Some(l) && l@ == line_of(
                self.spec_data(),
                self.spec_line_size() as nat,
                index as nat,
            )),
            index >= self.spec_line_count() ==> r is None,
    {
        if index < self.line_count {
            let total = self.data.len();
            proof {
                lemma_line_in_bounds(self.line_size as nat, self.line_count as nat, index as nat);
            }
            let offset = index * self.line_size;
            Some(&self.data[offset..offset + self.line_size])
        } else {
            None
        }
    }

    /// Get an iterator over all lines.
    pub fn lines(&self) -> (r: LinesIter<'a>)
        requires
            self.spec_line_size() > 0,
        ensures
            r.spec_remaining() == self.spec_data(),
            r.spec_line_size() == self.spec_line_size(),
    {
        LinesIter { rest: self.data, line_size: self.line_size }
    }

    /// Get line size (note: the line size don't necessarily need to be equal to picture width).
    pub fn line_size(&self) -> (r: usize)
        ensures
            r == self.spec_line_size(),
    {
        self.line_size
    }

    /// Get number of lines (note: the number of lines don't necessarily need to be equal to
    /// to picture height).
    pub fn line_count(&self) -> (r: usize)
        ensures
            r == self.spec_line_count(),
    {
        self.line_count
    }
}

/// Iterator over plane lines: it hands out consecutive chunks of
/// `line_size` bytes (the last one may be shorter).
pub struct LinesIter<'a> {
    rest: &'a [u8],
    line_size: usize,
}

impl<'a> LinesIter<'a> {
    /// The bytes not handed out yet (model).
    pub closed spec fn spec_remaining(self) -> Seq<u8> {
        self.rest@
    }

    /// The line size (model).
    pub closed spec fn spec_line_size(self) -> usize {
        self.line_size
    }

    /// Get the next line.
    pub fn next(&mut self) -> (r: Option<&'a [u8]>)
        requires
            old(self).spec_line_size() > 0,
        ensures
            final(self).spec_line_size() == old(self).spec_line_size(),
            old(self).spec_remaining().len() == 0 ==> r is None && final(self).spec_remaining()
                == old(self).spec_remaining(),
            old(self).spec_remaining().len() > 0 ==> {
                let n = if old(self).spec_remaining().len() < old(self).spec_line_size() {
                    old(self).spec_remaining().len() as int
                } else {
                    old(self).spec_line_size() as int
                };
                &&& r matches Some(l) && l@ == old(self).spec_remaining().subrange(0, n)
                &&& final(self).spec_remaining() == old(self).spec_remaining().subrange(
                    n,
                    old(self).spec_remaining().len() as int,
                )
            },
    {
        let len = self.rest.len();
        if len == 0 {
            return None;
        }
        let n = if len < self.line_size {
            len
        } else {
            self.line_size
        };
        let (head, tail) = self.rest.split_at(n);
        self.rest = tail;
        Some(head)
    }
}


/// Mutable picture plane (i.e. a planar array of pixel components).
pub struct PlaneMut<'a> {
    data: &'a mut [u8],
    line_size: usize,
    line_count: usize,
}

impl<'a> PlaneMut<'a> {
    /// The plane data (model).
    pub closed spec fn spec_data(self) -> Seq<u8> {
        self.data@
    }

    /// The line size (model).
    pub closed spec fn spec_line_size(self) -> usize {
        self.line_size
    }

    /// The number of lines (model).
    pub closed spec fn spec_line_count(self) -> usize {
        self.line_count
    }

    /// The plane holds exactly `line_count` lines of `line_size` bytes.
    pub closed spec fn wf(self) -> bool {
        self.data@.len() == self.line_size * self.line_count
    }

    /// Describe a mutable plane by its data and line geometry.
    pub fn new(data: &'a mut [u8], line_size: usize, line_count: usize) -> (r: PlaneMut<'a>)
        requires
            old(data)@.len() == line_size * line_count,
        ensures
            r.wf(),
            r.spec_data() == old(data)@,
            r.spec_line_size() == line_size,
            r.spec_line_count() == line_count,
    {
        PlaneMut { data, line_size, line_count }
    }

    /// Get plane data.
    pub fn data(&self) -> (r: &[u8])
        ensures
            r@ == self.spec_data(),
    {
        self.data
    }

    /// Get line size.
    pub fn line_size(&self) -> (r: usize)
        ensures
            r == self.spec_line_size(),
    {
        self.line_size
    }

    /// Get number of lines.
    pub fn line_count(&self) -> (r: usize)
        ensures
            r == self.spec_line_count(),
    {
        self.line_count
    }

    /// Get mutable plane data.
    pub fn data_mut(&mut self) -> (r: &mut [u8])
        ensures
            r@ == old(self).spec_data(),
            final(self).spec_data() == final(r)@,
            final(self).spec_line_size() == old(self).spec_line_size(),
            final(self).spec_line_count() == old(self).spec_line_count(),
    {
        &mut *self.data
    }

    /// Get an iterator over all mutable lines.
    pub fn lines_mut(&mut self) -> (r: LinesIterMut<'_>)
        requires
            old(self).spec_line_size() > 0,
        ensures
            r.spec_remaining() == old(self).spec_data(),
            r.spec_line_size() == old(self).spec_line_size(),
    {
        LinesIterMut { rest: &mut *self.data, line_size: self.line_size }
    }

    /// Get a single mutable line.
    pub fn line_mut(&mut self, index: usize) -> (r: Option<&mut [u8]>)
        requires
            old(self).wf(),
        ensures
            final(self).spec_line_size() == old(self).spec_line_size(),
            final(self).spec_line_count() == old(self).spec_line_count(),
            index < old(self).spec_line_count() ==> {
                let start = index * old(self).spec_line_size();
                let end = start + old(self).spec_line_size();
                &&& r matches Some(l) && l@ == line_of(
                    old(self).spec_data(),
                    old(self).spec_line_size() as nat,
                    index as nat,
                ) && final(self).spec_data() == old(self).spec_data().subrange(0, start)
                    + final(l)@ + old(self).spec_data().subrange(end, old(self).spec_data().len() as int)
            },
            index >= old(self).spec_line_count() ==> r is None && final(self).spec_data() == old(
                self,
            ).spec_data(),
    {
        if index < self.line_count {
            let total = self.data.len();
            proof {
                lemma_line_in_bounds(self.line_size as nat, self.line_count as nat, index as nat);
            }
            let offset = index * self.line_size;
            let size = self.line_size;
            let (_, rest) = self.data.split_at_mut(offset);
            let (line, _) = rest.split_at_mut(size);
            Some(line)
        } else {
            None
        }
    }
}


/// Iterator over mutable plane lines: it hands out consecutive chunks of
/// `line_size` bytes (the last one may be shorter).
pub struct LinesIterMut<'a> {
    rest: &'a mut [u8],
    line_size: usize,
}

impl<'a> LinesIterMut<'a> {
    /// The bytes not handed out yet (model).
    pub closed spec fn spec_remaining(self) -> Seq<u8> {
        self.rest@
    }

    /// The line size (model).
    pub closed spec fn spec_line_size(self) -> usize {
        self.line_size
    }

    /// Get the next line.
    pub fn next(&mut self) -> (r: Option<&'a mut [u8]>)
        requires
            old(self).spec_line_size() > 0,
        ensures
            final(self).spec_line_size() == old(self).spec_line_size(),
            old(self).spec_remaining().len() == 0 ==> r is None,
            old(self).spec_remaining().len() > 0 ==> {
                let n = if old(self).spec_remaining().len() < old(self).spec_line_size() {
                    old(self).spec_remaining().len() as int
                } else {
                    old(self).spec_line_size() as int
                };
                &&& r matches Some(l) && l@ == old(self).spec_remaining().subrange(0, n)
                &&& final(self).spec_remaining() == old(self).spec_remaining().subrange(
                    n,
                    old(self).spec_remaining().len() as int,
                )
            },
    {
        let len = self.rest.len();
        if len == 0 {
            return None;
        }
        let n = if len < self.line_size {
            len
        } else {
            self.line_size
        };
        let mut taken: &'a mut [u8] = &mut [];
        core::mem::swap(&mut taken, &mut self.rest);
        let (head, tail) = taken.split_at_mut(n);
        self.rest = tail;
        Some(head)
    }
}

} // verus!
