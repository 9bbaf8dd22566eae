//! Effective per-encounter odds: one base denominator per generation, and
//! additive integer weights for each enabled method of that generation.
use vstd::prelude::*;

verus! {

/// The game generation whose odds table applies. Exactly one is selected.
#[derive(Clone, Copy, Debug, PartialEq, Eq, Structural)]
pub enum Generation {
    Gen2or3,
    Gen4,
    Gen5,
    Gen6,
    Gen7,
    Gen8,
}

/// An effective probability held exactly as `numerator / denominator`.
#[derive(Clone, Copy, Debug, PartialEq, Eq, Structural)]
pub struct Odds {
    pub numerator: u32,
    pub denominator: u32,
}

/// Denominator of the unmodified one-in-N odds of a generation.
pub open spec fn base_denominator_of(g: Generation) -> u32 {
    match g {
        Generation::Gen2or3 | Generation::Gen4 | Generation::Gen5 => 8192,
        _ => 4096,
    }
}

/// Weight of each method of a generation, in the order of that generation's flags.
pub open spec fn weight_table(g: Generation) -> Seq<u32> {
    match g {
        Generation::Gen2or3 => seq![],
        Generation::Gen4 => seq![4, 40],
        Generation::Gen5 => seq![5, 2],
        Generation::Gen6 => seq![5, 81, 2, 4, 40],
        Generation::Gen7 => seq![5, 2, 12],
        Generation::Gen8 => seq![5, 2, 40, 13, 1, 25, 12, 1, 2],
    }
}

/// Sum of the weights whose flag is set (flags and weights paired by position).
pub open spec fn weight_sum(flags: Seq<bool>, weights: Seq<u32>) -> int
    decreases flags.len(),
{
    if flags.len() == 0 {
        0
    } else {
        weight_sum(flags.drop_last(), weights) + if flags.last() {
            weights[flags.len() - 1] as int
        } else {
            0
        }
    }
}

/// `(1 + Σ enabled weights, base denominator)` for a generation and its flags.
pub open spec fn effective_odds(g: Generation, flags: Seq<bool>) -> (int, int) {
    (1 + weight_sum(flags, weight_table(g)), base_denominator_of(g) as int)
}

/// A fraction that is a probability in (0, 1].
pub open spec fn is_probability(o: Odds) -> bool {
    1 <= o.numerator <= o.denominator
}

proof fn lemma_weight_table_small(g: Generation)
    ensures
        weight_table(g).len() <= 9,
        forall|i: int| 0 <= i < weight_table(g).len() ==> weight_table(g)[i] <= 100,
{
}

proof fn lemma_weight_sum_monotone(fewer: Seq<bool>, more: Seq<bool>, weights: Seq<u32>)
    requires
        fewer.len() == more.len(),
        forall|i: int| 0 <= i < fewer.len() && #[trigger] fewer[i] ==> more[i],
    ensures
        weight_sum(fewer, weights) <= weight_sum(more, weights),
    decreases fewer.len(),
{
    if fewer.len() > 0 {
        let n = fewer.len() - 1;
        assert forall|i: int| 0 <= i < n && #[trigger] fewer.drop_last()[i] implies more.drop_last()[i] by {
            assert(fewer[i]);
        }
        lemma_weight_sum_monotone(fewer.drop_last(), more.drop_last(), weights);
        assert(fewer[n] ==> more[n]);
    }
}

proof fn lemma_weight_sum_none(flags: Seq<bool>, weights: Seq<u32>)
    requires
        forall|i: int| 0 <= i < flags.len() ==> !flags[i],
    ensures
        weight_sum(flags, weights) == 0,
    decreases flags.len(),
{
    if flags.len() > 0 {
        lemma_weight_sum_none(flags.drop_last(), weights);
    }
}

/// With no method enabled, every generation has exactly its base odds of one in
/// the base denominator.
pub proof fn lemma_no_flags_gives_base_odds(g: Generation, flags: Seq<bool>)
    requires
        flags.len() == weight_table(g).len(),
        forall|i: int| 0 <= i < flags.len() ==> !flags[i],
    ensures
        effective_odds(g, flags) == (1int, base_denominator_of(g) as int),
{
    lemma_weight_sum_none(flags, weight_table(g));
}

/// Enabling more methods never lowers the effective odds: the denominator stays
/// the generation's own, and the numerator does not decrease.
pub proof fn lemma_more_flags_never_lower_odds(g: Generation, fewer: Seq<bool>, more: Seq<bool>)
    requires
        fewer.len() == weight_table(g).len(),
        more.len() == weight_table(g).len(),
        forall|i: int| 0 <= i < fewer.len() && #[trigger] fewer[i] ==> more[i],
    ensures
        effective_odds(g, fewer).0 <= effective_odds(g, more).0,
        effective_odds(g, fewer).1 == effective_odds(g, more).1,
{
    lemma_weight_sum_monotone(fewer, more, weight_table(g));
}

/// Denominator of the unmodified odds of `g`.
pub fn base_denominator(g: Generation) -> (r: u32)
    ensures
        r == base_denominator_of(g),
{
    match g {
        Generation::Gen2or3 | Generation::Gen4 | Generation::Gen5 => 8192,
        _ => 4096,
    }
}

/// The weight of each method of `g`, in the order of its flags.
pub fn flag_weights(g: Generation) -> (r: Vec<u32>)
    ensures
        r@ == weight_table(g),
{
    let r = match g {
        Generation::Gen2or3 => vec![],
        Generation::Gen4 => vec![4, 40],
        Generation::Gen5 => vec![5, 2],
        Generation::Gen6 => vec![5, 81, 2, 4, 40],
        Generation::Gen7 => vec![5, 2, 12],
        Generation::Gen8 => vec![5, 2, 40, 13, 1, 25, 12, 1, 2],
    };
    assert(r@ =~= weight_table(g));
    r
}

fn enabled_weight_sum(flags: &Vec<bool>, weights: &Vec<u32>) -> (r: u32)
    requires
        flags.len() == weights.len(),
        weights.len() <= 9,
        forall|i: int| 0 <= i < weights.len() ==> weights[i] <= 100,
    ensures
        r == weight_sum(flags@, weights@),
        r <= 900,
{
    let mut sum: u32 = 0;
    let mut i: usize = 0;
    while i < flags.len()
        invariant
            i <= flags.len(),
            flags.len() == weights.len(),
            weights.len() <= 9,
            forall|j: int| 0 <= j < weights.len() ==> weights[j] <= 100,
            sum == weight_sum(flags@.take(i as int), weights@),
            sum <= 100 * i,
        decreases flags.len() - i,
    {
        assert(flags@.take(i + 1).drop_last() =~= flags@.take(i as int));
        if flags[i] {
            sum = sum + weights[i];
        }
        i = i + 1;
    }
    assert(flags@.take(i as int) =~= flags@);
    sum
}

/// The effective odds of generation `g` with the methods that `flags` enables,
/// flags given in the order of `flag_weights(g)`.
pub fn resolve_effective_odds(g: Generation, flags: &Vec<bool>) -> (r: Odds)
    requires
        flags@.len() == weight_table(g).len(),
    ensures
        (r.numerator as int, r.denominator as int) == effective_odds(g, flags@),
        is_probability(r),
{
    let weights = flag_weights(g);
    proof {
        lemma_weight_table_small(g);
    }
    let sum = enabled_weight_sum(flags, &weights);
    Odds { numerator: 1 + sum, denominator: base_denominator(g) }
}

} // verus!
