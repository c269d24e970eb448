//! The buffers that a grid can be laid over.

use crate::layout::{in_runs, ordered_runs};
use std::ops::Range;
use vstd::prelude::*;

verus! {

broadcast use vstd::function::group_function_axioms;

/// An owned, indexable, sliceable linear sequence of elements that a grid
/// can be laid over.
pub trait Interpretation2D {
    type Item;

    /// The elements, in order.
    spec fn cells(&self) -> Seq<Self::Item>;

    /// The elements as a slice.
    fn values(&self) -> (values: &[Self::Item])
        ensures
            values@ == self.cells(),
    ;

    /// The elements as a slice that can be written through.
    fn values_mut(&mut self) -> (values: &mut [Self::Item])
        ensures
            values@ == old(self).cells(),
            final(values)@ == final(self).cells(),
    ;

    /// The number of elements.
    fn size(&self) -> (size: usize)
        ensures
            size == self.cells().len(),
    ;

    /// Calls `write` once for each range of `rows`, in order, with the
    /// position of the range in `rows` and the run of elements that the
    /// range selects.
    ///
    /// `write` has to accept every such run and to hand it back as long as
    /// it was. No Rust code can resize a borrowed slice, but that is not
    /// known of an arbitrary `FnMut` here, so the contract asks for it.
    /// What `write` did to each run is told through its own postcondition.
    fn write<W>(&mut self, rows: Vec<Range<usize>>, write: W) where
        W: FnMut(usize, &mut [Self::Item]),

        requires
            ordered_runs(rows@, old(self).cells().len()),
            forall|k: usize, run: &mut [Self::Item]|
                k < rows@.len() && run@.len() == rows@[k as int].end - rows@[k as int].start
                    ==> #[trigger] call_requires(write, (k, run)),
            forall|k: usize, run: &mut [Self::Item]|
                k < rows@.len() && run@.len() == rows@[k as int].end - rows@[k as int].start
                    && #[trigger] call_ensures(write, (k, run), ()) ==> final(run)@.len()
                    == run@.len(),
        ensures
            final(self).cells().len() == old(self).cells().len(),
            forall|i: int|
                0 <= i < old(self).cells().len() && !in_runs(rows@, i) ==> final(self).cells()[i]
                    == old(self).cells()[i],
            forall|k: int|
                #![trigger rows@[k]]
                0 <= k < rows@.len() ==> rows@[k].end <= final(self).cells().len() && exists|
                    run: &mut [Self::Item],
                |
                    #![trigger call_ensures(write, (k as usize, run), ())]
                    {
                        &&& call_ensures(write, (k as usize, run), ())
                        &&& run@ == old(self).cells().subrange(
                            rows@[k].start as int,
                            rows@[k].end as int,
                        )
                        &&& final(run)@ == final(self).cells().subrange(
                            rows@[k].start as int,
                            rows@[k].end as int,
                        )
                    },
    {
        let mut write = write;
        let ghost mutator = write;
        let ghost before = self.cells();
        let mut k: usize = 0;
        while k < rows.len()
            invariant
                0 <= k <= rows@.len(),
                write == mutator,
                ordered_runs(rows@, before.len()),
                forall|j: usize, run: &mut [Self::Item]|
                    j < rows@.len() && run@.len() == rows@[j as int].end - rows@[j as int].start
                        ==> #[trigger] call_requires(mutator, (j, run)),
                forall|j: usize, run: &mut [Self::Item]|
                    j < rows@.len() && run@.len() == rows@[j as int].end - rows@[j as int].start
                        && #[trigger] call_ensures(mutator, (j, run), ()) ==> final(run)@.len()
                        == run@.len(),
                self.cells().len() == before.len(),
                forall|i: int|
                    0 <= i < before.len() && !(exists|j: int|
                        0 <= j < k && (#[trigger] rows@[j]).start <= i < rows@[j].end)
                        ==> self.cells()[i] == before[i],
                forall|j: int|
                    #![trigger rows@[j]]
                    0 <= j < k ==> rows@[j].end <= before.len() && exists|run: &mut [Self::Item]|
                        #![trigger call_ensures(mutator, (j as usize, run), ())]
                        {
                            &&& call_ensures(mutator, (j as usize, run), ())
                            &&& run@ == before.subrange(
                                rows@[j].start as int,
                                rows@[j].end as int,
                            )
                            &&& final(run)@ == self.cells().subrange(
                                rows@[j].start as int,
                                rows@[j].end as int,
                            )
                        },
            decreases rows@.len() - k,
        {
            let start: usize = rows[k].start;
            let end: usize = rows[k].end;
            let ghost previous = self.cells();
            let values = self.values_mut();
            let (head, rest) = values.split_at_mut(start);
            let (run, tail) = rest.split_at_mut(end - start);
            let ghost held = run@;
            write(k, run);
            let ghost now = self.cells();
            proof {
                assert(exists|r: &mut [Self::Item]|
                    #[trigger] call_ensures(mutator, (k, r), ()) && r@ == held && final(r)@
                        == run@);
                assert(run@.len() == end - start);
                assert(now =~= head@ + (run@ + tail@));
                assert(held =~= previous.subrange(start as int, end as int));
                assert(run@ =~= now.subrange(start as int, end as int));
                assert forall|i: int| 0 <= i < before.len() && !(start <= i < end) implies now[i]
                    == previous[i] by {
                    if i < start {
                        assert(now[i] == head@[i]);
                    } else {
                        assert(now[i] == tail@[i - end]);
                    }
                }
                assert(held =~= before.subrange(start as int, end as int)) by {
                    assert forall|i: int| start <= i < end implies previous[i] == before[i] by {
                        if exists|j: int|
                            0 <= j < k && (#[trigger] rows@[j]).start <= i < rows@[j].end {
                            let j = choose|j: int|
                                0 <= j < k && (#[trigger] rows@[j]).start <= i < rows@[j].end;
                            assert(rows@[j].end <= rows@[k as int].start);
                        }
                    }
                }
                assert forall|j: int|
                    #![trigger rows@[j]]
                    0 <= j < k + 1 implies exists|r: &mut [Self::Item]|
                    #![trigger call_ensures(mutator, (j as usize, r), ())]
                    {
                        &&& call_ensures(mutator, (j as usize, r), ())
                        &&& r@ == before.subrange(rows@[j].start as int, rows@[j].end as int)
                        &&& final(r)@ == now.subrange(rows@[j].start as int, rows@[j].end as int)
                    } by {
                    if j < k {
                        assert(rows@[j].end <= rows@[k as int].start);
                        assert(now.subrange(rows@[j].start as int, rows@[j].end as int)
                            =~= previous.subrange(rows@[j].start as int, rows@[j].end as int));
                        let r = choose|r: &mut [Self::Item]|
                            #![trigger call_ensures(mutator, (j as usize, r), ())]
                            {
                                &&& call_ensures(mutator, (j as usize, r), ())
                                &&& r@ == before.subrange(
                                    rows@[j].start as int,
                                    rows@[j].end as int,
                                )
                                &&& final(r)@ == previous.subrange(
                                    rows@[j].start as int,
                                    rows@[j].end as int,
                                )
                            };
                        assert(call_ensures(mutator, (j as usize, r), ()));
                    } else {
                        let r = choose|r: &mut [Self::Item]|
                            #[trigger] call_ensures(mutator, (k, r), ()) && r@ == held
                                && final(r)@ == run@;
                        assert(call_ensures(mutator, (j as usize, r), ()));
                    }
                }
            }
            k += 1;
        }
        proof {
            assert forall|i: int|
                0 <= i < before.len() && !in_runs(rows@, i) implies self.cells()[i]
                == before[i] by {
                if exists|j: int| 0 <= j < k && (#[trigger] rows@[j]).start <= i < rows@[j].end {
                    let j = choose|j: int|
                        0 <= j < k && (#[trigger] rows@[j]).start <= i < rows@[j].end;
                    assert(in_runs(rows@, i));
                }
            }
        }
    }
}

impl<T> Interpretation2D for Vec<T> {
    type Item = T;

    open spec fn cells(&self) -> Seq<T> {
        self@
    }

    fn values(&self) -> (values: &[T]) {
        self.as_slice()
    }

    fn values_mut(&mut self) -> (values: &mut [T]) {
        self.as_mut_slice()
    }

    fn size(&self) -> (size: usize) {
        self.len()
    }
}

impl<T, const C: usize> Interpretation2D for [T; C] {
    type Item = T;

    open spec fn cells(&self) -> Seq<T> {
        self@
    }

    fn values(&self) -> (values: &[T]) {
        self
    }

    fn values_mut(&mut self) -> (values: &mut [T]) {
        self
    }

    fn size(&self) -> (size: usize) {
        self.len()
    }
}

impl<T> Interpretation2D for [T] {
    type Item = T;

    open spec fn cells(&self) -> Seq<T> {
        self@
    }

    fn values(&self) -> (values: &[T]) {
        self
    }

    fn values_mut(&mut self) -> (values: &mut [T]) {
        self
    }

    fn size(&self) -> (size: usize) {
        self.len()
    }
}

} // verus!
