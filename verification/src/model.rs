use vstd::prelude::*;

verus! {

/// Configuration for the mini GPT model.
#[derive(Clone, Copy, Debug, PartialEq, Eq)]
pub struct Config {
    pub vocab_size: usize,
    pub n_embd: usize,
    pub n_head: usize,
    pub n_layer: usize,
    pub block_size: usize,
}

/// Number of trainable scalars in one transformer block of width `e`:
/// two layer norms (4e), the fused QKV projection (3e*e), the attention
/// output projection (e*e), and the feed-forward pair with biases
/// (e*4e + 4e + 4e*e + e).
pub open spec fn spec_layer_params(e: int) -> int {
    e + e + e * 3 * e + e * e + e + e + e * (4 * e) + 4 * e + (4 * e) * e + e
}

/// Number of trainable scalars of a model with the given configuration:
/// token and position embeddings, `n_layer` blocks, the final layer norm
/// and the language-model head.
pub open spec fn spec_count_params(c: Config) -> int {
    let e = c.n_embd as int;
    let v = c.vocab_size as int;
    v * e + c.block_size * e + c.n_layer * spec_layer_params(e) + e + e + e * v
}

proof fn lemma_layer_terms(e: int)
    requires
        e >= 0,
    ensures
        e * 3 * e >= 0,
        e * e >= 0,
        e * (4 * e) >= 0,
        (4 * e) * e >= 0,
        e * 3 <= e * 3 * e || e == 0,
        spec_layer_params(e) >= 0,
{
    assert(e * 3 * e >= 0) by (nonlinear_arith)
        requires
            e >= 0,
    ;
    assert(e * e >= 0) by (nonlinear_arith)
        requires
            e >= 0,
    ;
    assert(e * (4 * e) >= 0) by (nonlinear_arith)
        requires
            e >= 0,
    ;
    assert((4 * e) * e >= 0) by (nonlinear_arith)
        requires
            e >= 0,
    ;
    assert(e * 3 <= e * 3 * e || e == 0) by (nonlinear_arith)
        requires
            e >= 0,
    ;
}

proof fn lemma_mul_mono(a: int, b: int, p: int)
    requires
        0 <= a <= b,
        p >= 0,
    ensures
        a * p <= b * p,
{
    assert(a * p <= b * p) by (nonlinear_arith)
        requires
            0 <= a <= b,
            p >= 0,
    ;
}

/// Counts the model's trainable parameters for `config`.
pub fn count_params(config: &Config) -> (total: usize)
    requires
        4 * config.n_embd <= usize::MAX,
        spec_count_params(*config) <= usize::MAX,
    ensures
        total == spec_count_params(*config),
{
    let e = config.n_embd;
    let v = config.vocab_size;
    let nl = config.n_layer;
    let inner = 4 * e;
    let ghost per = spec_layer_params(e as int);
    proof {
        lemma_layer_terms(e as int);
        assert(v * e >= 0 && config.block_size * e >= 0 && e * v >= 0) by (nonlinear_arith)
            requires
                v >= 0,
                e >= 0,
                config.block_size >= 0,
        ;
        assert(nl * per >= 0) by (nonlinear_arith)
            requires
                nl >= 0,
                per >= 0,
        ;
    }
    let mut total: usize = 0;
    total += v * e;
    total += config.block_size * e;
    let mut l: usize = 0;
    while l < nl
        invariant
            l <= nl,
            nl == config.n_layer,
            e == config.n_embd,
            v == config.vocab_size,
            inner == 4 * e,
            per == spec_layer_params(e as int),
            per >= 0,
            e * 3 * e >= 0,
            e * e >= 0,
            e * (4 * e) >= 0,
            (4 * e) * e >= 0,
            e * 3 <= e * 3 * e || e == 0,
            v * e >= 0,
            e * v >= 0,
            spec_count_params(*config) <= usize::MAX,
            total == v * e + config.block_size * e + l * per,
        decreases nl - l,
    {
        proof {
            lemma_mul_mono((l + 1) as int, nl as int, per);
            assert((l + 1) * per == l * per + per) by (nonlinear_arith);
        }
        total += e;
        total += e;
        total += e * 3 * e;
        total += e * e;
        total += e;
        total += e;
        total += e * inner;
        total += inner;
        total += inner * e;
        total += e;
        l += 1;
    }
    total += e;
    total += e;
    total += e * v;
    total
}

/// The parameter count of `config` when it, and the feed-forward width
/// `4 * n_embd`, fit in a `usize`; `None` when either does not (where
/// computing them would overflow).
pub fn checked_count_params(config: &Config) -> (r: Option<usize>)
    ensures
        r matches Some(n) ==> n == spec_count_params(*config) && 4 * config.n_embd <= usize::MAX,
        r is None ==> !(4 * config.n_embd <= usize::MAX && spec_count_params(*config) <= usize::MAX),
{
    let e = config.n_embd;
    let v = config.vocab_size;
    let nl = config.n_layer;
    let ghost ei = e as int;
    let ghost per = spec_layer_params(ei);
    let ghost total = spec_count_params(*config);
    proof {
        lemma_layer_terms(ei);
        assert(v * e >= 0 && config.block_size * e >= 0 && e * v >= 0 && nl * per >= 0)
            by (nonlinear_arith)
            requires
                v >= 0,
                e >= 0,
                config.block_size >= 0,
                nl >= 0,
                per >= 0,
        ;
        assert(v * e == e * v) by (nonlinear_arith);
    }
    let inner = match e.checked_mul(4) {
        Some(x) => x,
        None => return None,
    };
    let ve = match v.checked_mul(e) {
        Some(x) => x,
        None => return None,
    };
    let be = match config.block_size.checked_mul(e) {
        Some(x) => x,
        None => return None,
    };
    let mut sum = match ve.checked_add(be) {
        Some(x) => x,
        None => return None,
    };
    if nl > 0 {
        proof {
            assert(per <= nl * per) by (nonlinear_arith)
                requires
                    nl >= 1,
                    per >= 0,
            ;
        }
        let e3 = match e.checked_mul(3) {
            Some(x) => x,
            None => return None,
        };
        let qkv = match e3.checked_mul(e) {
            Some(x) => x,
            None => return None,
        };
        let ee = match e.checked_mul(e) {
            Some(x) => x,
            None => return None,
        };
        let ff = match e.checked_mul(inner) {
            Some(x) => x,
            None => return None,
        };
        proof {
            assert(inner * e == e * inner) by (nonlinear_arith);
        }
        // e + e + 3e*e + e*e + e + e + e*4e + 4e + 4e*e + e, each term
        // below the block's total, which is below the whole count.
        let mut layer: usize = 0;
        let parts: [usize; 10] = [e, e, qkv, ee, e, e, ff, inner, ff, e];
        proof {
            assert(parts@ == seq![e, e, qkv, ee, e, e, ff, inner, ff, e]);
            reveal_with_fuel(partial_layer, 11);
            assert(partial_layer(parts@, 10) == per);
        }
        let mut k: usize = 0;
        while k < 10
            invariant
                0 <= k <= 10,
                parts@ == seq![e, e, qkv, ee, e, e, ff, inner, ff, e],
                qkv == e * 3 * e,
                ee == e * e,
                ff == e * (4 * e),
                ff == (4 * e) * e,
                inner == 4 * e,
                per == spec_layer_params(ei),
                ei == e as int,
                layer == partial_layer(parts@, k as int),
                partial_layer(parts@, 10) == per,
                total == spec_count_params(*config),
                per <= total,
            decreases 10 - k,
        {
            proof {
                lemma_partial_layer_mono(parts@, 10);
                assert(partial_layer(parts@, (k + 1) as int) == layer + parts@[k as int]);
            }
            layer = match layer.checked_add(parts[k]) {
                Some(x) => x,
                None => return None,
            };
            k += 1;
        }
        let layers = match nl.checked_mul(layer) {
            Some(x) => x,
            None => return None,
        };
        sum = match sum.checked_add(layers) {
            Some(x) => x,
            None => return None,
        };
    } else {
        proof {
            assert(nl * per == 0) by (nonlinear_arith)
                requires
                    nl == 0,
            ;
        }
    }
    assert(sum == v * e + config.block_size * e + nl * per);
    let head = match e.checked_mul(v) {
        Some(x) => x,
        None => return None,
    };
    sum = match sum.checked_add(e) {
        Some(x) => x,
        None => return None,
    };
    sum = match sum.checked_add(e) {
        Some(x) => x,
        None => return None,
    };
    sum = match sum.checked_add(head) {
        Some(x) => x,
        None => return None,
    };
    Some(sum)
}

/// The sum of the first `k` of a block's parameter sizes.
spec fn partial_layer(parts: Seq<usize>, k: int) -> int
    decreases k,
{
    if k <= 0 {
        0
    } else {
        partial_layer(parts, k - 1) + parts[k - 1]
    }
}

proof fn lemma_partial_layer_mono(parts: Seq<usize>, k: int)
    requires
        0 <= k <= parts.len(),
    ensures
        forall|j: int| 0 <= j <= k ==> partial_layer(parts, j) <= partial_layer(parts, k),
    decreases k,
{
    if k > 0 {
        lemma_partial_layer_mono(parts, k - 1);
    }
}

/// The sizes of the parameter tensors of one transformer block, in the
/// order the optimizer visits them: layer norm 1 (gain, bias), QKV
/// projection, attention output projection, layer norm 2 (gain, bias),
/// feed-forward weights and bias in, weights and bias out.
pub open spec fn layer_sizes(e: int) -> Seq<int> {
    seq![e, e, e * 3 * e, e * e, e, e, e * (4 * e), 4 * e, (4 * e) * e, e]
}

/// The block sizes of `n` transformer blocks, block after block.
pub open spec fn blocks_sizes(n: nat, e: int) -> Seq<int>
    decreases n,
{
    if n == 0 {
        Seq::empty()
    } else {
        blocks_sizes((n - 1) as nat, e) + layer_sizes(e)
    }
}

/// The sizes of all parameter tensors of a model, in the order the
/// optimizer keeps its state: token and position embeddings, the blocks,
/// the final layer norm (gain, bias) and the language-model head.
pub open spec fn param_size_seq(c: Config) -> Seq<int> {
    let e = c.n_embd as int;
    let v = c.vocab_size as int;
    seq![v * e, c.block_size * e] + blocks_sizes(c.n_layer as nat, e) + seq![e, e, e * v]
}

/// The sum of a sequence of integers.
pub open spec fn seq_sum(s: Seq<int>) -> int
    decreases s.len(),
{
    if s.len() == 0 {
        0
    } else {
        seq_sum(s.drop_last()) + s.last()
    }
}

proof fn lemma_sum_concat(a: Seq<int>, b: Seq<int>)
    ensures
        seq_sum(a + b) == seq_sum(a) + seq_sum(b),
    decreases b.len(),
{
    if b.len() > 0 {
        assert((a + b).drop_last() =~= a + b.drop_last());
        lemma_sum_concat(a, b.drop_last());
    } else {
        assert(a + b =~= a);
    }
}

proof fn lemma_sum_push(s: Seq<int>, a: int)
    ensures
        seq_sum(s.push(a)) == seq_sum(s) + a,
{
    assert(s.push(a).drop_last() =~= s);
}

proof fn lemma_layer_sum(e: int)
    ensures
        seq_sum(layer_sizes(e)) == spec_layer_params(e),
{
    let s0 = Seq::<int>::empty();
    let s1 = s0.push(e);
    let s2 = s1.push(e);
    let s3 = s2.push(e * 3 * e);
    let s4 = s3.push(e * e);
    let s5 = s4.push(e);
    let s6 = s5.push(e);
    let s7 = s6.push(e * (4 * e));
    let s8 = s7.push(4 * e);
    let s9 = s8.push((4 * e) * e);
    let s10 = s9.push(e);
    lemma_sum_push(s0, e);
    lemma_sum_push(s1, e);
    lemma_sum_push(s2, e * 3 * e);
    lemma_sum_push(s3, e * e);
    lemma_sum_push(s4, e);
    lemma_sum_push(s5, e);
    lemma_sum_push(s6, e * (4 * e));
    lemma_sum_push(s7, 4 * e);
    lemma_sum_push(s8, (4 * e) * e);
    lemma_sum_push(s9, e);
    assert(layer_sizes(e) =~= s10);
}

proof fn lemma_blocks_sum(n: nat, e: int)
    ensures
        seq_sum(blocks_sizes(n, e)) == n * spec_layer_params(e),
    decreases n,
{
    if n > 0 {
        let m = (n - 1) as nat;
        lemma_blocks_sum(m, e);
        lemma_sum_concat(blocks_sizes(m, e), layer_sizes(e));
        lemma_layer_sum(e);
        assert(blocks_sizes(n, e) == blocks_sizes(m, e) + layer_sizes(e));
        let p = spec_layer_params(e);
        assert(n * p == m * p + p) by (nonlinear_arith)
            requires
                n == m + 1,
        ;
    } else {
        assert(blocks_sizes(n, e) =~= Seq::<int>::empty());
        assert(n * spec_layer_params(e) == 0);
    }
}

/// The parameter tensors' sizes add up to the parameter count: the
/// optimizer state, which has one slot per entry of each tensor, has
/// exactly `count_params` slots.
pub proof fn lemma_param_sizes_sum(c: Config)
    ensures
        seq_sum(param_size_seq(c)) == spec_count_params(c),
{
    let e = c.n_embd as int;
    let v = c.vocab_size as int;
    let head = seq![v * e, c.block_size * e];
    let tail = seq![e, e, e * v];
    lemma_sum_concat(head + blocks_sizes(c.n_layer as nat, e), tail);
    lemma_sum_concat(head, blocks_sizes(c.n_layer as nat, e));
    lemma_blocks_sum(c.n_layer as nat, e);
    let z = Seq::<int>::empty();
    assert(seq_sum(z) == 0);
    lemma_sum_push(z, v * e);
    lemma_sum_push(z.push(v * e), c.block_size * e);
    assert(head =~= z.push(v * e).push(c.block_size * e));
    lemma_sum_push(z, e);
    lemma_sum_push(z.push(e), e);
    lemma_sum_push(z.push(e).push(e), e * v);
    assert(tail =~= z.push(e).push(e).push(e * v));
    assert(seq_sum(head) == v * e + c.block_size * e);
    assert(seq_sum(tail) == e + e + e * v);
    assert(param_size_seq(c) == head + blocks_sizes(c.n_layer as nat, e) + tail);
}

/// The sizes of the model's parameter tensors for `config`, in the order
/// the optimizer keeps its state.
pub fn param_sizes(config: &Config) -> (sizes: Vec<usize>)
    requires
        4 * config.n_embd <= usize::MAX,
        spec_count_params(*config) <= usize::MAX,
    ensures
        sizes@.map_values(|x: usize| x as int) == param_size_seq(*config),
{
    let e = config.n_embd;
    let v = config.vocab_size;
    let nl = config.n_layer;
    let inner = 4 * e;
    let ghost ei = e as int;
    let ghost per = spec_layer_params(ei);
    proof {
        lemma_layer_terms(ei);
        assert(v * e >= 0 && config.block_size * e >= 0 && e * v >= 0) by (nonlinear_arith)
            requires
                v >= 0,
                e >= 0,
                config.block_size >= 0,
        ;
        assert(nl * per >= 0) by (nonlinear_arith)
            requires
                nl >= 0,
                per >= 0,
        ;
        assert(v * e == e * v) by (nonlinear_arith);
    }
    let mut sizes: Vec<usize> = Vec::new();
    sizes.push(v * e);
    sizes.push(config.block_size * e);
    let ghost head = seq![v * ei, config.block_size * ei];
    proof {
        assert(sizes@.map_values(|x: usize| x as int) =~= head + blocks_sizes(0, ei));
    }
    let mut l: usize = 0;
    while l < nl
        invariant
            l <= nl,
            nl == config.n_layer,
            e == config.n_embd,
            ei == e as int,
            v == config.vocab_size,
            inner == 4 * e,
            per == spec_layer_params(ei),
            per >= 0,
            e * 3 * e >= 0,
            e * e >= 0,
            e * (4 * e) >= 0,
            (4 * e) * e >= 0,
            e * 3 <= e * 3 * e || e == 0,
            v * e >= 0,
            e * v >= 0,
            nl * per >= 0,
            head == seq![v * ei, config.block_size * ei],
            spec_count_params(*config) <= usize::MAX,
            sizes@.map_values(|x: usize| x as int) == head + blocks_sizes(l as nat, ei),
        decreases nl - l,
    {
        proof {
            lemma_mul_mono((l + 1) as int, nl as int, per);
            assert(per <= nl * per) by (nonlinear_arith)
                requires
                    l < nl,
                    per >= 0,
            ;
        }
        let ghost before = sizes@;
        sizes.push(e);
        sizes.push(e);
        sizes.push(e * 3 * e);
        sizes.push(e * e);
        sizes.push(e);
        sizes.push(e);
        sizes.push(e * inner);
        sizes.push(inner);
        sizes.push(inner * e);
        sizes.push(e);
        proof {
            assert(blocks_sizes((l + 1) as nat, ei) == blocks_sizes(l as nat, ei) + layer_sizes(ei));
            assert(sizes@.len() == before.len() + 10);
            let want = head + blocks_sizes((l + 1) as nat, ei);
            let got = sizes@.map_values(|x: usize| x as int);
            assert(want =~= (head + blocks_sizes(l as nat, ei)) + layer_sizes(ei));
            assert(got.len() == want.len());
            assert forall|k: int| 0 <= k < got.len() implies got[k] == want[k] by {
                if k < before.len() {
                    assert(sizes@[k] == before[k]);
                    assert(before.map_values(|x: usize| x as int)[k] == before[k] as int);
                }
            }
            assert(sizes@.map_values(|x: usize| x as int) =~= head + blocks_sizes((l + 1) as nat, ei));
        }
        l += 1;
    }
    sizes.push(e);
    sizes.push(e);
    sizes.push(e * v);
    proof {
        assert(sizes@.map_values(|x: usize| x as int) =~= param_size_seq(*config));
    }
    sizes
}

/// Where the context window starts when generating from `len` tokens:
/// only the last `block_size` tokens are fed to the model.
pub fn context_start(len: usize, block_size: usize) -> (start: usize)
    ensures
        start == (if len > block_size {
            len - block_size
        } else {
            0
        }),
        start <= len,
        len - start <= block_size,
{
    if len > block_size {
        len - block_size
    } else {
        0
    }
}

} // verus!
