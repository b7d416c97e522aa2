use vstd::prelude::*;

verus! {

/// Flattened training data: every input value in one vector and every
/// output value in another, with per-sample (start, length) pairs, so no
/// per-sample allocation is needed.
#[derive(Clone, Debug, PartialEq)]
pub struct DataSet<T> {
    pub input_data: Vec<T>,
    pub input_sample_starts_and_lengths: Vec<(usize, usize)>,
    pub output_data: Vec<T>,
    pub output_sample_starts_and_lengths: Vec<(usize, usize)>,
}

/// The views of a list of vectors.
pub open spec fn deep_view<T>(data: Seq<Vec<T>>) -> Seq<Seq<T>> {
    data.map_values(|v: Vec<T>| v@)
}

/// All the samples laid end to end.
pub open spec fn flatten_spec<T>(data: Seq<Seq<T>>) -> Seq<T>
    decreases data.len(),
{
    if data.len() == 0 {
        Seq::<T>::empty()
    } else {
        flatten_spec(data.drop_last()) + data.last()
    }
}

/// Where each sample starts in the flattened vector, and how long it is.
pub open spec fn offsets_spec<T>(data: Seq<Seq<T>>) -> Seq<(usize, usize)> {
    Seq::new(
        data.len(),
        |s: int| (flatten_spec(data.take(s)).len() as usize, data[s].len() as usize),
    )
}

/// Growing the sample list appends its values to the flattened vector.
pub proof fn lemma_flatten_take_step<T>(data: Seq<Seq<T>>, s: int)
    requires
        0 <= s < data.len(),
    ensures
        flatten_spec(data.take(s + 1)) == flatten_spec(data.take(s)) + data[s],
{
    assert(data.take(s + 1).drop_last() =~= data.take(s));
    assert(data.take(s + 1).last() == data[s]);
}

/// A sample's stretch lies inside the flattened vector.
pub proof fn lemma_flatten_take_bound<T>(data: Seq<Seq<T>>, s: int)
    requires
        0 <= s <= data.len(),
    ensures
        flatten_spec(data.take(s)).len() <= flatten_spec(data).len(),
    decreases data.len() - s,
{
    if s == data.len() {
        assert(data.take(s) =~= data);
    } else {
        lemma_flatten_take_bound(data, s + 1);
        lemma_flatten_take_step(data, s);
    }
}

impl<T: Copy> DataSet<T> {
    /// The stored sample table is internally consistent: inputs and
    /// outputs pair up one to one, and every recorded stretch lies
    /// inside its flattened vector.
    pub open spec fn wf(self) -> bool {
        &&& self.input_sample_starts_and_lengths@.len()
            == self.output_sample_starts_and_lengths@.len()
        &&& forall|s: int|
            0 <= s < self.input_sample_starts_and_lengths@.len() ==> (
            #[trigger] self.input_sample_starts_and_lengths@[s]).0
                + self.input_sample_starts_and_lengths@[s].1 <= self.input_data@.len()
        &&& forall|s: int|
            0 <= s < self.output_sample_starts_and_lengths@.len() ==> (
            #[trigger] self.output_sample_starts_and_lengths@[s]).0
                + self.output_sample_starts_and_lengths@[s].1 <= self.output_data@.len()
    }

    /// The values of the `n`-th input sample.
    pub open spec fn nth_input_spec(self, n: int) -> Seq<T> {
        let (start, len) = self.input_sample_starts_and_lengths@[n];
        self.input_data@.subrange(start as int, start + len)
    }

    /// The values of the `n`-th output sample.
    pub open spec fn nth_output_spec(self, n: int) -> Seq<T> {
        let (start, len) = self.output_sample_starts_and_lengths@[n];
        self.output_data@.subrange(start as int, start + len)
    }

    /// Starts collecting samples one by one.
    pub fn builder() -> (r: DataSetBuilder<T>)
        ensures
            r.input_data@ == Seq::<Vec<T>>::empty(),
            r.output_data@ == Seq::<Vec<T>>::empty(),
    {
        DataSetBuilder { input_data: Vec::new(), output_data: Vec::new() }
    }

    /// Flattens the paired sample lists. There must be at least one
    /// sample, and as many inputs as outputs.
    pub fn new(input_data: Vec<Vec<T>>, output_data: Vec<Vec<T>>) -> (r: Self)
        requires
            input_data@.len() == output_data@.len(),
            input_data@.len() >= 1,
        ensures
            r.wf(),
            r.input_data@ == flatten_spec(deep_view(input_data@)),
            r.input_sample_starts_and_lengths@ == offsets_spec(deep_view(input_data@)),
            r.output_data@ == flatten_spec(deep_view(output_data@)),
            r.output_sample_starts_and_lengths@ == offsets_spec(deep_view(output_data@)),
    {
        let count = input_data.len();
        let mut flat_in: Vec<T> = Vec::new();
        let mut sal_in: Vec<(usize, usize)> = Vec::new();
        let mut flat_out: Vec<T> = Vec::new();
        let mut sal_out: Vec<(usize, usize)> = Vec::new();

        let ghost din = deep_view(input_data@);
        let ghost dout = deep_view(output_data@);
        proof {
            assert(din.take(0) =~= Seq::<Seq<T>>::empty());
            assert(flat_in@ =~= flatten_spec(din.take(0)));
            assert(flat_out@ =~= flatten_spec(dout.take(0)));
            assert(sal_in@ =~= offsets_spec(din).take(0));
            assert(sal_out@ =~= offsets_spec(dout).take(0));
        }
        for s in 0..count
            invariant
                count == input_data@.len(),
                count == output_data@.len(),
                din == deep_view(input_data@),
                dout == deep_view(output_data@),
                flat_in@ == flatten_spec(din.take(s as int)),
                sal_in@ == offsets_spec(din).take(s as int),
                flat_out@ == flatten_spec(dout.take(s as int)),
                sal_out@ == offsets_spec(dout).take(s as int),
        {
            let in_start = flat_in.len();
            let in_len = input_data[s].len();
            sal_in.push((in_start, in_len));
            for i in 0..in_len
                invariant
                    s < input_data@.len(),
                    din == deep_view(input_data@),
                    in_len == din[s as int].len(),
                    flat_in@ == flatten_spec(din.take(s as int)) + din[s as int].take(i as int),
            {
                flat_in.push(input_data[s][i]);
                proof {
                    assert(din[s as int].take(i + 1) =~= din[s as int].take(i as int).push(
                        din[s as int][i as int],
                    ));
                }
            }

            let out_start = flat_out.len();
            let out_len = output_data[s].len();
            sal_out.push((out_start, out_len));
            for i in 0..out_len
                invariant
                    s < output_data@.len(),
                    dout == deep_view(output_data@),
                    out_len == dout[s as int].len(),
                    flat_out@ == flatten_spec(dout.take(s as int)) + dout[s as int].take(i as int),
            {
                flat_out.push(output_data[s][i]);
                proof {
                    assert(dout[s as int].take(i + 1) =~= dout[s as int].take(i as int).push(
                        dout[s as int][i as int],
                    ));
                }
            }

            proof {
                lemma_flatten_take_step(din, s as int);
                lemma_flatten_take_step(dout, s as int);
                assert(din[s as int].take(in_len as int) =~= din[s as int]);
                assert(dout[s as int].take(out_len as int) =~= dout[s as int]);
                assert(flat_in@ =~= flatten_spec(din.take(s + 1)));
                assert(flat_out@ =~= flatten_spec(dout.take(s + 1)));
                assert(sal_in@ =~= offsets_spec(din).take(s + 1));
                assert(sal_out@ =~= offsets_spec(dout).take(s + 1));
            }
        }
        proof {
            assert(din.take(count as int) =~= din);
            assert(dout.take(count as int) =~= dout);
            assert(sal_in@ =~= offsets_spec(din));
            assert(sal_out@ =~= offsets_spec(dout));
            assert forall|s: int| 0 <= s < offsets_spec(din).len() implies (#[trigger] offsets_spec(
                din,
            )[s]).0 + offsets_spec(din)[s].1 <= flatten_spec(din).len() by {
                lemma_flatten_take_step(din, s);
                lemma_flatten_take_bound(din, s + 1);
            }
            assert forall|s: int| 0 <= s < offsets_spec(dout).len() implies (
            #[trigger] offsets_spec(dout)[s]).0 + offsets_spec(dout)[s].1 <= flatten_spec(
                dout,
            ).len() by {
                lemma_flatten_take_step(dout, s);
                lemma_flatten_take_bound(dout, s + 1);
            }
        }

        DataSet {
            input_data: flat_in,
            input_sample_starts_and_lengths: sal_in,
            output_data: flat_out,
            output_sample_starts_and_lengths: sal_out,
        }
    }

    /// Flattens a list of (input, output) sample pairs.
    pub fn new_combined(input_and_output_data: Vec<(Vec<T>, Vec<T>)>) -> (r: Self)
        requires
            input_and_output_data@.len() >= 1,
        ensures
            r.wf(),
            r.input_data@ == flatten_spec(
                deep_view(input_and_output_data@.map_values(|p: (Vec<T>, Vec<T>)| p.0)),
            ),
            r.input_sample_starts_and_lengths@ == offsets_spec(
                deep_view(input_and_output_data@.map_values(|p: (Vec<T>, Vec<T>)| p.0)),
            ),
            r.output_data@ == flatten_spec(
                deep_view(input_and_output_data@.map_values(|p: (Vec<T>, Vec<T>)| p.1)),
            ),
            r.output_sample_starts_and_lengths@ == offsets_spec(
                deep_view(input_and_output_data@.map_values(|p: (Vec<T>, Vec<T>)| p.1)),
            ),
    {
        let count = input_and_output_data.len();
        let mut inputs: Vec<Vec<T>> = Vec::new();
        let mut outputs: Vec<Vec<T>> = Vec::new();
        for s in 0..count
            invariant
                count == input_and_output_data@.len(),
                inputs@.len() == s,
                outputs@.len() == s,
                forall|k: int|
                    0 <= k < s ==> (#[trigger] inputs@[k])@ == input_and_output_data@[k].0@,
                forall|k: int|
                    0 <= k < s ==> (#[trigger] outputs@[k])@ == input_and_output_data@[k].1@,
        {
            let pair = &input_and_output_data[s];
            let ci = clone_values(&pair.0);
            let co = clone_values(&pair.1);
            inputs.push(ci);
            outputs.push(co);
            proof {
                assert(inputs@[s as int]@ == input_and_output_data@[s as int].0@);
                assert(outputs@[s as int]@ == input_and_output_data@[s as int].1@);
            }
        }
        let r = Self::new(inputs, outputs);
        proof {
            assert(deep_view(inputs@) =~= deep_view(
                input_and_output_data@.map_values(|p: (Vec<T>, Vec<T>)| p.0),
            ));
            assert(deep_view(outputs@) =~= deep_view(
                input_and_output_data@.map_values(|p: (Vec<T>, Vec<T>)| p.1),
            ));
        }
        r
    }

    /// The flattened input values.
    pub fn input_data(&self) -> (r: &Vec<T>)
        ensures
            r == &self.input_data,
    {
        &self.input_data
    }

    /// The input samples' (start, length) table.
    pub fn input_sample_starts_and_lengths(&self) -> (r: &Vec<(usize, usize)>)
        ensures
            r == &self.input_sample_starts_and_lengths,
    {
        &self.input_sample_starts_and_lengths
    }

    /// The flattened output values.
    pub fn output_data(&self) -> (r: &Vec<T>)
        ensures
            r == &self.output_data,
    {
        &self.output_data
    }

    /// The output samples' (start, length) table.
    pub fn output_sample_starts_and_lengths(&self) -> (r: &Vec<(usize, usize)>)
        ensures
            r == &self.output_sample_starts_and_lengths,
    {
        &self.output_sample_starts_and_lengths
    }

    /// How many samples the set holds. Inputs and outputs must pair up.
    pub fn len(&self) -> (r: usize)
        requires
            self.input_sample_starts_and_lengths@.len()
                == self.output_sample_starts_and_lengths@.len(),
        ensures
            r == self.input_sample_starts_and_lengths@.len(),
    {
        self.input_sample_starts_and_lengths.len()
    }

    /// The `n`-th input sample.
    pub fn nth_input(&self, n: usize) -> (r: &[T])
        requires
            self.wf(),
            n < self.input_sample_starts_and_lengths@.len(),
        ensures
            r@ == self.nth_input_spec(n as int),
    {
        let (start, len) = self.input_sample_starts_and_lengths[n];
        let total = self.input_data.len();
        vstd::slice::slice_subrange(self.input_data.as_slice(), start, start + len)
    }

    /// The `n`-th output sample.
    pub fn nth_output(&self, n: usize) -> (r: &[T])
        requires
            self.wf(),
            n < self.output_sample_starts_and_lengths@.len(),
        ensures
            r@ == self.nth_output_spec(n as int),
    {
        let (start, len) = self.output_sample_starts_and_lengths[n];
        let total = self.output_data.len();
        vstd::slice::slice_subrange(self.output_data.as_slice(), start, start + len)
    }

    /// The `n`-th (input, output) sample pair.
    pub fn nth_sample(&self, n: usize) -> (r: (&[T], &[T]))
        requires
            self.wf(),
            n < self.input_sample_starts_and_lengths@.len(),
        ensures
            r.0@ == self.nth_input_spec(n as int),
            r.1@ == self.nth_output_spec(n as int),
    {
        (self.nth_input(n), self.nth_output(n))
    }
}

/// Copies a vector of plain values.
fn clone_values<T: Copy>(v: &Vec<T>) -> (r: Vec<T>)
    ensures
        r@ == v@,
{
    let mut out: Vec<T> = Vec::new();
    let n = v.len();
    for i in 0..n
        invariant
            n == v@.len(),
            out@ == v@.take(i as int),
    {
        out.push(v[i]);
        proof {
            assert(out@ =~= v@.take(i + 1));
        }
    }
    proof {
        assert(out@ =~= v@);
    }
    out
}

/// Collects (input, output) samples one by one before they become a
/// `DataSet`.
#[derive(Clone, Debug, PartialEq)]
pub struct DataSetBuilder<T> {
    pub input_data: Vec<Vec<T>>,
    pub output_data: Vec<Vec<T>>,
}

impl<T: Copy> DataSetBuilder<T> {
    /// Appends an input sample.
    pub fn input(self, input: Vec<T>) -> (r: Self)
        ensures
            r.input_data@ == self.input_data@.push(input),
            r.output_data@ == self.output_data@,
    {
        let mut this = self;
        this.input_data.push(input);
        this
    }

    /// Appends an output sample.
    pub fn output(self, output: Vec<T>) -> (r: Self)
        ensures
            r.input_data@ == self.input_data@,
            r.output_data@ == self.output_data@.push(output),
    {
        let mut this = self;
        this.output_data.push(output);
        this
    }

    /// Appends an (input, output) sample pair.
    pub fn sample(self, input: Vec<T>, output: Vec<T>) -> (r: Self)
        ensures
            r.input_data@ == self.input_data@.push(input),
            r.output_data@ == self.output_data@.push(output),
    {
        let mut this = self;
        this = this.input(input);
        this = this.output(output);
        this
    }

    /// Flattens the collected samples.
    pub fn build(self) -> (r: DataSet<T>)
        requires
            self.input_data@.len() == self.output_data@.len(),
            self.input_data@.len() >= 1,
        ensures
            r.wf(),
            r.input_data@ == flatten_spec(deep_view(self.input_data@)),
            r.input_sample_starts_and_lengths@ == offsets_spec(deep_view(self.input_data@)),
            r.output_data@ == flatten_spec(deep_view(self.output_data@)),
            r.output_sample_starts_and_lengths@ == offsets_spec(deep_view(self.output_data@)),
    {
        DataSet::new(self.input_data, self.output_data)
    }
}

} // verus!
