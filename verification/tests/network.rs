use feedforward::{Activation, Configuration, Network, Signal};

/// IEEE single-precision scalars, the usual domain for a small network.
#[derive(Clone, Copy, Debug, PartialEq)]
struct Real(f32);

impl Signal for Real {
    // The specification-level operations are compiled to ordinary trait
    // items; in this unverified implementation they coincide with the
    // executable operations.
    fn spec_zero() -> Real {
        Real(0.0)
    }

    fn spec_one() -> Real {
        Real(1.0)
    }

    fn spec_of_count(n: usize) -> Real {
        Real(n as f32)
    }

    fn spec_plus(self, other: Real) -> Real {
        Real(self.0 + other.0)
    }

    fn spec_times(self, other: Real) -> Real {
        Real(self.0 * other.0)
    }

    fn spec_over(self, other: Real) -> Real {
        Real(self.0 / other.0)
    }

    fn spec_sigmoid(self) -> Real {
        Real(1.0 / (1.0 + (-self.0).exp()))
    }

    fn zero() -> Real {
        Real(0.0)
    }

    fn one() -> Real {
        Real(1.0)
    }

    fn of_count(n: usize) -> Real {
        Real(n as f32)
    }

    fn plus(self, other: Real) -> Real {
        Real(self.0 + other.0)
    }

    fn times(self, other: Real) -> Real {
        Real(self.0 * other.0)
    }

    fn over(self, other: Real) -> Real {
        Real(self.0 / other.0)
    }

    fn sigmoid(self) -> Real {
        Real(1.0 / (1.0 + (-self.0).exp()))
    }
}

fn reals(xs: &[f32]) -> Vec<Real> {
    xs.iter().map(|&x| Real(x)).collect()
}

fn close(a: f32, b: f32) -> bool {
    (a - b).abs() < 1e-5
}

#[test]
fn shape_counts_layers() {
    let config = Configuration { num_inputs: 4, num_layers: 3, layer_size: 5, num_outputs: 2 };
    let net: Network<Real> = Network::new(&config);
    assert_eq!(net.layers.len(), 4);
    for li in 0..3 {
        assert_eq!(net.layers[li].neurons.len(), 5);
    }
    assert_eq!(net.layers[3].neurons.len(), 2);
}

#[test]
fn fan_in_matches_previous_layer() {
    let config = Configuration { num_inputs: 4, num_layers: 3, layer_size: 5, num_outputs: 2 };
    let net: Network<Real> = Network::new(&config);
    for neuron in &net.layers[0].neurons {
        assert_eq!(neuron.weights.len(), config.num_inputs);
    }
    for li in 1..net.layers.len() {
        let prev_count = net.layers[li - 1].neurons.len();
        for neuron in &net.layers[li].neurons {
            assert_eq!(neuron.weights.len(), prev_count);
        }
    }
}

#[test]
fn default_weights_and_normalizer() {
    let config = Configuration { num_inputs: 4, num_layers: 2, layer_size: 3, num_outputs: 1 };
    let net: Network<Real> = Network::new(&config);
    for layer in &net.layers {
        for neuron in &layer.neurons {
            for &w in &neuron.weights {
                assert_eq!(w, Real(1.0));
            }
            assert_eq!(neuron.weight_sum, Real(neuron.weights.len() as f32));
            // The normalizer is a fan-in count, not a sum of weight values;
            // the two agree only because default construction sets every
            // weight to one.
            let true_sum: f32 = neuron.weights.iter().map(|w| w.0).sum();
            assert_eq!(neuron.weight_sum.0, true_sum);
            assert_eq!(neuron.activation, Activation::Sigmoid);
        }
    }
}

#[test]
fn degenerate_zero_layer_case() {
    let config = Configuration { num_inputs: 3, num_layers: 0, layer_size: 7, num_outputs: 2 };
    let mut net: Network<Real> = Network::new(&config);
    assert_eq!(net.layers.len(), 1);
    assert_eq!(net.layers[0].neurons.len(), 2);
    for neuron in &net.layers[0].neurons {
        assert_eq!(neuron.weights, vec![Real(1.0), Real(1.0), Real(1.0)]);
        assert_eq!(neuron.weight_sum, Real(3.0));
    }
    let out = net.infer(&reals(&[1.0, 1.0, 1.0]));
    assert_eq!(out.len(), 2);
    assert!(close(out[0].0, 0.7310586));
    assert!(close(out[1].0, 0.7310586));
}

#[test]
fn multi_layer_case() {
    let config = Configuration { num_inputs: 2, num_layers: 1, layer_size: 2, num_outputs: 1 };
    let mut net: Network<Real> = Network::new(&config);
    let out = net.infer(&reals(&[0.0, 0.0]));
    assert_eq!(out.len(), 1);
    // Both hidden neurons emit sigmoid(0 / 2) = 0.5; the output neuron emits
    // sigmoid((0.5 + 0.5) / 2) = sigmoid(0.5).
    assert!(close(out[0].0, 0.6224593));
}

#[test]
fn inference_is_deterministic() {
    let config = Configuration { num_inputs: 3, num_layers: 2, layer_size: 4, num_outputs: 2 };
    let mut net: Network<Real> = Network::new(&config);
    let inputs = reals(&[0.25, -1.5, 3.0]);
    let first = net.infer(&inputs);
    let second = net.infer(&inputs);
    assert_eq!(first, second);
}

#[test]
fn output_length_matches_num_outputs() {
    let config = Configuration { num_inputs: 5, num_layers: 3, layer_size: 2, num_outputs: 4 };
    let mut net: Network<Real> = Network::new(&config);
    let out = net.infer(&reals(&[0.1, 0.2, 0.3, 0.4, 0.5]));
    assert_eq!(out.len(), config.num_outputs);
}

#[test]
fn mismatched_input_is_rejected() {
    let config = Configuration { num_inputs: 3, num_layers: 1, layer_size: 2, num_outputs: 1 };
    let mut net: Network<Real> = Network::new(&config);
    assert_eq!(net.try_infer(&reals(&[1.0, 2.0])), None);
    assert_eq!(net.try_infer(&reals(&[1.0, 2.0, 3.0, 4.0])), None);
    assert_eq!(net.try_infer(&reals(&[])), None);
    assert!(net.try_infer(&reals(&[1.0, 2.0, 3.0])).is_some());
}

#[test]
fn zero_width_hidden_layer_is_degenerate_but_built() {
    // Widths are not validated: a zero hidden width still constructs, and
    // the output neurons then normalize an empty sum by a zero count.
    let config = Configuration { num_inputs: 2, num_layers: 1, layer_size: 0, num_outputs: 3 };
    let mut net: Network<Real> = Network::new(&config);
    assert_eq!(net.layers.len(), 2);
    assert_eq!(net.layers[0].neurons.len(), 0);
    assert_eq!(net.layers[1].neurons.len(), 3);
    let out = net.infer(&reals(&[1.0, 2.0]));
    assert_eq!(out.len(), 3);
    for r in &out {
        assert!(r.0.is_nan());
    }
}
