use vstd::prelude::*;

verus! {

/// An appendable batch of measurement samples.
///
/// One buffer is filled by a single source between two flushes, then moved as
/// a whole through the pipeline: first to the transform chain, then to every
/// output. The engine never looks at an individual sample; it only appends,
/// moves and copies whole batches.
pub struct MeasurementBuffer {
    points: Vec<i64>,
}

impl View for MeasurementBuffer {
    type V = Seq<i64>;

    closed spec fn view(&self) -> Seq<i64> {
        self.points@
    }
}

impl MeasurementBuffer {
    /// A fresh, empty batch.
    pub fn new() -> (r: MeasurementBuffer)
        ensures
            r@ == Seq::<i64>::empty(),
    {
        MeasurementBuffer { points: Vec::new() }
    }

    /// Appends one sample at the end of the batch.
    pub fn push(&mut self, sample: i64)
        ensures
            final(self)@ == old(self)@.push(sample),
    {
        self.points.push(sample);
    }

    /// Appends every sample of `samples`, in order, at the end of the batch.
    pub fn append_all(&mut self, samples: &Vec<i64>)
        ensures
            final(self)@ == old(self)@ + samples@,
    {
        let n = samples.len();
        let mut i: usize = 0;
        while i < n
            invariant
                i <= n,
                n == samples@.len(),
                self@ == old(self)@ + samples@.subrange(0, i as int),
            decreases n - i,
        {
            self.points.push(samples[i]);
            i = i + 1;
            proof {
                assert(samples@.subrange(0, i as int)
                    == samples@.subrange(0, i - 1).push(samples@[i - 1]));
            }
        }
        proof {
            assert(samples@.subrange(0, n as int) == samples@);
        }
    }

    /// Number of samples in the batch.
    pub fn len(&self) -> (r: usize)
        ensures
            r == self@.len(),
    {
        self.points.len()
    }

    /// True when the batch holds no sample.
    pub fn is_empty(&self) -> (r: bool)
        ensures
            r == (self@.len() == 0),
    {
        self.points.len() == 0
    }

    /// The sample at position `i`.
    pub fn get(&self, i: usize) -> (r: i64)
        requires
            i < self@.len(),
        ensures
            r == self@[i as int],
    {
        self.points[i]
    }
}

impl Clone for MeasurementBuffer {
    /// A copy holding exactly the same samples; the broadcast channel hands
    /// each subscriber its own copy of a published batch.
    fn clone(&self) -> (r: Self)
        ensures
            r@ == self@,
    {
        let n = self.points.len();
        let mut points: Vec<i64> = Vec::new();
        let mut i: usize = 0;
        while i < n
            invariant
                i <= n,
                n == self.points@.len(),
                points@ == self.points@.subrange(0, i as int),
            decreases n - i,
        {
            points.push(self.points[i]);
            i = i + 1;
            proof {
                assert(self.points@.subrange(0, i as int)
                    == self.points@.subrange(0, i - 1).push(self.points@[i - 1]));
            }
        }
        proof {
            assert(self.points@.subrange(0, n as int) == self.points@);
        }
        MeasurementBuffer { points }
    }
}

} // verus!
