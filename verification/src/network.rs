use crate::signal::{activate, spec_activate, Activation, Signal};
use vstd::prelude::*;

verus! {

/// The shape of a network: input width, number of hidden layers, width of
/// every hidden layer, and width of the output layer. `num_layers` may be
/// zero, in which case the input connects directly to the output layer;
/// `layer_size` is then ignored.
#[derive(Clone, Copy, Debug)]
pub struct Configuration {
    pub num_inputs: usize,
    pub num_layers: usize,
    pub layer_size: usize,
    pub num_outputs: usize,
}

/// A single computational unit: one weight per input signal, a precomputed
/// normalization divisor, and an activation tag.
pub struct Neuron<T> {
    pub weights: Vec<T>,
    /// The divisor applied to the weighted sum. Under default construction
    /// it is the fan-in count, not the sum of the weight values: the two
    /// coincide only while every weight is one, and a weight update would
    /// leave this field as the count it was built with.
    pub weight_sum: T,
    pub activation: Activation,
}

/// An ordered sequence of neurons, all sharing the same fan-in width.
pub struct Layer<T> {
    pub neurons: Vec<Neuron<T>>,
}

/// A feedforward network: layers ordered from input-facing to output-facing,
/// plus a scratch buffer reused by inference.
pub struct Network<T> {
    pub layers: Vec<Layer<T>>,
    pub temp: Vec<T>,
}

/// The fan-in width of every neuron in layer `li` under a configuration:
/// the input width for the first layer, the hidden width after it.
pub open spec fn spec_fan_in(config: Configuration, li: int) -> usize {
    if li == 0 {
        config.num_inputs
    } else {
        config.layer_size
    }
}

/// The neuron count of layer `li` under a configuration: the output width
/// for the last layer, the hidden width before it.
pub open spec fn spec_neuron_count(config: Configuration, li: int) -> usize {
    if li == config.num_layers {
        config.num_outputs
    } else {
        config.layer_size
    }
}

/// The weighted sum of the first `k` signal/weight pairs, accumulated left
/// to right starting from zero.
pub open spec fn spec_dot<T: Signal>(signals: Seq<T>, weights: Seq<T>, k: int) -> T
    decreases k,
{
    if k <= 0 {
        T::spec_zero()
    } else {
        spec_dot(signals, weights, k - 1).spec_plus(signals[k - 1].spec_times(weights[k - 1]))
    }
}

/// What one neuron emits on a signal vector: the weighted sum over the whole
/// vector, divided by the neuron's normalizer, passed through its activation.
pub open spec fn spec_neuron_out<T: Signal>(n: Neuron<T>, signals: Seq<T>) -> T {
    spec_activate(
        n.activation,
        spec_dot(signals, n.weights@, signals.len() as int).spec_over(n.weight_sum),
    )
}

/// What one layer emits on a signal vector: one signal per neuron, in
/// construction order.
pub open spec fn spec_layer_out<T: Signal>(l: Layer<T>, signals: Seq<T>) -> Seq<T> {
    Seq::new(l.neurons@.len(), |i: int| spec_neuron_out(l.neurons@[i], signals))
}

/// The signal vector after the first `k` layers have fired on an input.
pub open spec fn spec_signals_after<T: Signal>(
    layers: Seq<Layer<T>>,
    k: int,
    inputs: Seq<T>,
) -> Seq<T>
    decreases k,
{
    if k <= 0 {
        inputs
    } else {
        spec_layer_out(layers[k - 1], spec_signals_after(layers, k - 1, inputs))
    }
}

/// The forward pass: the signal vector after every layer has fired.
pub open spec fn spec_forward<T: Signal>(layers: Seq<Layer<T>>, inputs: Seq<T>) -> Seq<T> {
    spec_signals_after(layers, layers.len() as int, inputs)
}

impl<T: Signal> Network<T> {
    /// Structural soundness: every layer past the first has fan-in equal to
    /// the previous layer's neuron count, so signals line up with weights at
    /// every interior boundary.
    pub open spec fn wf(self) -> bool {
        forall|li: int, ni: int|
            1 <= li < self.layers@.len() && 0 <= ni < self.layers@[li].neurons@.len()
                ==> (#[trigger] self.layers@[li].neurons@[ni]).weights@.len()
                    == self.layers@[li - 1].neurons@.len()
    }

    /// The first layer's neurons all expect a signal vector of length `n`.
    pub open spec fn accepts(self, n: nat) -> bool {
        self.layers@.len() > 0 ==> forall|ni: int|
            0 <= ni < self.layers@[0].neurons@.len()
                ==> (#[trigger] self.layers@[0].neurons@[ni]).weights@.len() == n
    }

    /// The width of the network's output: the last layer's neuron count.
    pub open spec fn output_width(self) -> nat {
        self.layers@.last().neurons@.len()
    }

    /// Builds the network a configuration describes: `num_layers + 1` layers
    /// (the hidden layers, then the output layer), every weight set to one,
    /// every normalizer set to the neuron's fan-in count, every activation
    /// the logistic sigmoid, and an empty scratch buffer. Construction never
    /// fails; degenerate widths yield degenerate layers.
    pub fn new(config: &Configuration) -> (net: Self)
        requires
            config.num_layers < usize::MAX,
        ensures
            net.wf(),
            net.accepts(config.num_inputs as nat),
            net.layers@.len() == config.num_layers + 1,
            forall|li: int|
                0 <= li < net.layers@.len() ==> (#[trigger] net.layers@[li]).neurons@.len()
                    == spec_neuron_count(*config, li),
            forall|li: int, ni: int|
                0 <= li < net.layers@.len() && 0 <= ni < net.layers@[li].neurons@.len() ==> {
                    let n = #[trigger] net.layers@[li].neurons@[ni];
                    &&& n.weights@.len() == spec_fan_in(*config, li)
                    &&& n.weight_sum == T::spec_of_count(spec_fan_in(*config, li))
                    &&& n.activation == Activation::Sigmoid
                    &&& forall|wi: int|
                        0 <= wi < n.weights@.len() ==> #[trigger] n.weights@[wi] == T::spec_one()
                },
            net.temp@.len() == 0,
    {
        let mut layers: Vec<Layer<T>> = Vec::new();
        let mut li: usize = 0;
        while li <= config.num_layers
            invariant
                config.num_layers < usize::MAX,
                li <= config.num_layers + 1,
                layers@.len() == li,
                forall|i: int|
                    0 <= i < li ==> (#[trigger] layers@[i]).neurons@.len()
                        == spec_neuron_count(*config, i),
                forall|i: int, ni: int|
                    0 <= i < li && 0 <= ni < layers@[i].neurons@.len() ==> {
                        let n = #[trigger] layers@[i].neurons@[ni];
                        &&& n.weights@.len() == spec_fan_in(*config, i)
                        &&& n.weight_sum == T::spec_of_count(spec_fan_in(*config, i))
                        &&& n.activation == Activation::Sigmoid
                        &&& forall|wi: int|
                            0 <= wi < n.weights@.len() ==> #[trigger] n.weights@[wi]
                                == T::spec_one()
                    },
            decreases config.num_layers + 1 - li,
        {
            let num_neurons = if li == config.num_layers {
                config.num_outputs
            } else {
                config.layer_size
            };
            let num_weights = if li == 0 {
                config.num_inputs
            } else {
                config.layer_size
            };
            let mut neurons: Vec<Neuron<T>> = Vec::new();
            let mut ni: usize = 0;
            while ni < num_neurons
                invariant
                    ni <= num_neurons,
                    neurons@.len() == ni,
                    forall|j: int|
                        0 <= j < ni ==> {
                            let n = #[trigger] neurons@[j];
                            &&& n.weights@.len() == num_weights
                            &&& n.weight_sum == T::spec_of_count(num_weights)
                            &&& n.activation == Activation::Sigmoid
                            &&& forall|wi: int|
                                0 <= wi < n.weights@.len() ==> #[trigger] n.weights@[wi]
                                    == T::spec_one()
                        },
                decreases num_neurons - ni,
            {
                let mut weights: Vec<T> = Vec::new();
                let mut wi: usize = 0;
                while wi < num_weights
                    invariant
                        wi <= num_weights,
                        weights@.len() == wi,
                        forall|j: int| 0 <= j < wi ==> #[trigger] weights@[j] == T::spec_one(),
                    decreases num_weights - wi,
                {
                    weights.push(T::one());
                    wi = wi + 1;
                }
                neurons.push(
                    Neuron {
                        weights,
                        weight_sum: T::of_count(num_weights),
                        activation: Activation::Sigmoid,
                    },
                );
                ni = ni + 1;
            }
            layers.push(Layer { neurons });
            li = li + 1;
        }
        Network { layers, temp: Vec::new() }
    }

    /// The forward pass for one input vector whose length matches the first
    /// layer's fan-in: returns exactly `spec_forward` of the layers and the
    /// input, leaves the weights untouched, and leaves the scratch buffer
    /// holding the output. For an input the network does not accept, see
    /// [`Network::try_infer`].
    pub fn infer(&mut self, inputs: &Vec<T>) -> (out: Vec<T>)
        requires
            old(self).wf(),
            old(self).accepts(inputs@.len()),
        ensures
            final(self).layers@ == old(self).layers@,
            out@ == spec_forward(old(self).layers@, inputs@),
            final(self).temp@ == out@,
            old(self).layers@.len() > 0 ==> out@.len() == old(self).output_width(),
    {
        proof {
            if self.layers@.len() > 0 {
                lemma_forward_output_width(self.layers@, inputs@);
            }
        }
        self.temp.clear();
        let mut i: usize = 0;
        while i < inputs.len()
            invariant
                i <= inputs@.len(),
                self.temp@ == inputs@.take(i as int),
                self.layers@ == old(self).layers@,
            decreases inputs@.len() - i,
        {
            self.temp.push(inputs[i]);
            assert(self.temp@ =~= inputs@.take(i + 1));
            i = i + 1;
        }
        assert(self.temp@ =~= inputs@);
        let mut li: usize = 0;
        while li < self.layers.len()
            invariant
                li <= self.layers@.len(),
                self.layers@ == old(self).layers@,
                old(self).wf(),
                old(self).accepts(inputs@.len()),
                self.temp@ == spec_signals_after(self.layers@, li as int, inputs@),
            decreases self.layers@.len() - li,
        {
            let ghost cur = self.temp@;
            let input_count = self.temp.len();
            proof {
                if li > 0 {
                    assert(cur == spec_layer_out(
                        self.layers@[li - 1],
                        spec_signals_after(self.layers@, li - 1, inputs@),
                    ));
                }
            }
            let layer = &self.layers[li];
            let mut next: Vec<T> = Vec::new();
            let mut ni: usize = 0;
            while ni < layer.neurons.len()
                invariant
                    ni <= layer.neurons@.len(),
                    self.temp@ == cur,
                    input_count == cur.len(),
                    forall|j: int|
                        0 <= j < layer.neurons@.len()
                            ==> (#[trigger] layer.neurons@[j]).weights@.len() == input_count,
                    next@.len() == ni,
                    forall|j: int|
                        0 <= j < ni ==> #[trigger] next@[j] == spec_neuron_out(
                            layer.neurons@[j],
                            cur,
                        ),
                decreases layer.neurons@.len() - ni,
            {
                let neuron = &layer.neurons[ni];
                let mut sum: T = T::zero();
                let mut j: usize = 0;
                while j < input_count
                    invariant
                        j <= input_count,
                        input_count == cur.len(),
                        self.temp@ == cur,
                        neuron.weights@.len() == input_count,
                        sum == spec_dot(cur, neuron.weights@, j as int),
                    decreases input_count - j,
                {
                    sum = sum.plus(self.temp[j].times(neuron.weights[j]));
                    j = j + 1;
                }
                next.push(activate(neuron.activation, sum.over(neuron.weight_sum)));
                ni = ni + 1;
            }
            assert(next@ =~= spec_layer_out(self.layers@[li as int], cur));
            self.temp = next;
            li = li + 1;
        }
        let mut out: Vec<T> = Vec::new();
        let mut k: usize = 0;
        while k < self.temp.len()
            invariant
                k <= self.temp@.len(),
                out@ == self.temp@.take(k as int),
                self.temp@ == spec_forward(old(self).layers@, inputs@),
                self.layers@ == old(self).layers@,
            decreases self.temp@.len() - k,
        {
            out.push(self.temp[k]);
            assert(out@ =~= self.temp@.take(k + 1));
            k = k + 1;
        }
        assert(out@ =~= self.temp@);
        out
    }

    /// The forward pass with the structural check made explicit: returns
    /// `None` exactly when the input's length disagrees with some first-layer
    /// neuron's fan-in (the mismatch that is fatal in [`Network::infer`]'s
    /// precondition), and otherwise `Some` of exactly what `infer` returns.
    /// A rejected input leaves the network unchanged: nothing is truncated
    /// or padded.
    pub fn try_infer(&mut self, inputs: &Vec<T>) -> (out: Option<Vec<T>>)
        requires
            old(self).wf(),
        ensures
            final(self).layers@ == old(self).layers@,
            out is Some <==> old(self).accepts(inputs@.len()),
            out matches Some(v) ==> v@ == spec_forward(old(self).layers@, inputs@),
            out matches Some(v) ==> final(self).temp@ == v@,
            out is None ==> *final(self) == *old(self),
    {
        if self.layers.len() > 0 {
            let first = &self.layers[0];
            let mut ni: usize = 0;
            while ni < first.neurons.len()
                invariant
                    ni <= first.neurons@.len(),
                    *self == *old(self),
                    self.layers@.len() > 0,
                    *first == self.layers@[0],
                    forall|j: int|
                        0 <= j < ni ==> (#[trigger] first.neurons@[j]).weights@.len()
                            == inputs@.len(),
                decreases first.neurons@.len() - ni,
            {
                if first.neurons[ni].weights.len() != inputs.len() {
                    return None;
                }
                ni = ni + 1;
            }
        }
        Some(self.infer(inputs))
    }
}

/// Inference is deterministic: the forward pass is a mathematical function
/// of the layers and the input, so equal networks fed equal inputs emit
/// equal outputs. Together with `infer`'s postcondition that the layers are
/// left untouched, two successive calls on one network and one input return
/// identical output vectors.
pub proof fn lemma_forward_deterministic<T: Signal>(
    layers_a: Seq<Layer<T>>,
    layers_b: Seq<Layer<T>>,
    inputs_a: Seq<T>,
    inputs_b: Seq<T>,
)
    requires
        layers_a == layers_b,
        inputs_a == inputs_b,
    ensures
        spec_forward(layers_a, inputs_a) == spec_forward(layers_b, inputs_b),
{
}

/// The forward pass emits one signal per neuron of the last layer, whatever
/// the weights and the input: the output width is fixed by the topology.
pub proof fn lemma_forward_output_width<T: Signal>(layers: Seq<Layer<T>>, inputs: Seq<T>)
    requires
        layers.len() > 0,
    ensures
        spec_forward(layers, inputs).len() == layers.last().neurons@.len(),
{
    assert(spec_forward(layers, inputs) == spec_layer_out(
        layers.last(),
        spec_signals_after(layers, layers.len() - 1, inputs),
    ));
}

} // verus!
