use vstd::prelude::*;

verus! {

/// A buffer that message data is read into.
pub trait Buffer<T>: Sized {
    /// The elements of the buffer.
    spec fn spec_elems(&self) -> Seq<T>;

    /// The buffer cut to at most `size` elements.
    fn truncate(self, size: usize) -> (r: Self)
        ensures
            r.spec_elems() == (if size < self.spec_elems().len() {
                self.spec_elems().take(size as int)
            } else {
                self.spec_elems()
            }),
    ;

    /// The buffer split in two at `at`.
    fn split_at(self, at: usize) -> (r: (Self, Self))
        requires
            at <= self.spec_elems().len(),
        ensures
            r.0.spec_elems() == self.spec_elems().take(at as int),
            r.1.spec_elems() == self.spec_elems().skip(at as int),
    ;

    /// The number of elements of the buffer.
    fn len(&self) -> (r: usize)
        ensures
            r == self.spec_elems().len(),
    ;

    /// The buffer holds no element.
    fn is_empty(&self) -> (b: bool)
        ensures
            b == (self.spec_elems().len() == 0),
    ;
}

impl<T> Buffer<T> for Vec<T> {
    open spec fn spec_elems(&self) -> Seq<T> {
        self@
    }

    fn truncate(self, size: usize) -> (r: Self) {
        let mut vec = self;
        Vec::truncate(&mut vec, size);
        vec
    }

    fn split_at(self, at: usize) -> (r: (Self, Self)) {
        if at == 0 {
            let empty: Vec<T> = Vec::new();
            assert(self@.skip(0) =~= self@);
            assert(empty@ =~= self@.take(0));
            (empty, self)
        } else {
            let mut head = self;
            let tail = head.split_off(at);
            (head, tail)
        }
    }

    fn len(&self) -> (r: usize) {
        Vec::len(self)
    }

    fn is_empty(&self) -> (b: bool) {
        Vec::len(self) == 0
    }
}

} // verus!
