use vstd::prelude::*;
use rand::rngs::StdRng;
use rand::RngCore;
use rand::SeedableRng;

verus! {

#[verifier::external_type_specification]
#[verifier::external_body]
pub struct ExStdRng(StdRng);

/// Seed of the generator that `SubsampleCandidates::new` uses, so that runs repeat.
pub const DEFAULT_SEED: u64 = 48074578;

/// A `StdRng` set up by `seed_from_u64` and since moved on by `next_u64` alone. The field is
/// private, so every value of this type came from `seeded_rng` and changed by `next_draw`.
pub struct SeededRng {
    rng: StdRng,
}

/// The seed that a generator was set up from.
pub uninterp spec fn rng_seed(rng: SeededRng) -> u64;

/// How many draws a generator has handed out since it was seeded.
pub uninterp spec fn rng_draws(rng: SeededRng) -> nat;

/// The draw at position `index` (from zero) of a `StdRng` seeded with `seed`.
pub uninterp spec fn std_rng_draw(seed: u64, index: nat) -> u64;

/// Relies on rand's `SeedableRng::seed_from_u64` for `StdRng`: a generator that depends on
/// `seed` alone (PCG32 expands the seed into a ChaCha12 key), with no draw taken yet.
#[verifier::external_body]
fn seeded_rng(seed: u64) -> (r: SeededRng)
    ensures
        rng_seed(r) == seed,
        rng_draws(r) == 0,
{
    SeededRng { rng: StdRng::seed_from_u64(seed) }
}

/// Relies on rand's `RngCore::next_u64` for `StdRng`: the next 64 bits of the ChaCha12
/// stream, a function of the seed and of the number of draws before; the generator moves
/// on by one draw. Such a generator only ever moves by this call, so its draws are read as
/// aligned pairs of ChaCha12 words.
#[verifier::external_body]
fn next_draw(rng: &mut SeededRng) -> (r: u64)
    ensures
        r == std_rng_draw(rng_seed(*old(rng)), rng_draws(*old(rng))),
        rng_seed(*final(rng)) == rng_seed(*old(rng)),
        rng_draws(*final(rng)) == rng_draws(*old(rng)) + 1,
{
    rng.rng.next_u64()
}

/// 2^64: a draw of 64 uniform bits stands for the value `draw / 2^64` in `[0, 1)`.
pub open spec fn draw_range() -> int {
    0x1_0000_0000_0000_0000
}

/// A draw is kept iff `draw / 2^64 <= max_depth / depth`, compared exactly.
pub open spec fn draw_kept(draw: u64, max_depth: usize, depth: usize) -> bool {
    draw * depth <= max_depth * draw_range()
}

/// Whether the uniform draw `draw` keeps a candidate at keep probability `max_depth / depth`.
pub fn keeps_draw(draw: u64, max_depth: usize, depth: usize) -> (r: bool)
    ensures
        r == draw_kept(draw, max_depth, depth),
{
    let d = draw as u128;
    let n = depth as u128;
    proof {
        assert(d * n <= u64::MAX * u64::MAX) by (nonlinear_arith)
            requires
                d <= u64::MAX,
                n <= u64::MAX,
        ;
    }
    let lhs = d * n;
    let rhs = (max_depth as u128) * 0x1_0000_0000_0000_0000u128;
    lhs <= rhs
}

/// Depth-bounded thinning of the candidates at one site.
pub enum SubsampleCandidates {
    /// More candidates than allowed: each is kept with probability `max_depth / depth`.
    Necessary { rng: SeededRng, max_depth: usize, depth: usize },
    /// No more candidates than allowed: all are kept.
    NotNeeded,
}

impl SubsampleCandidates {
    /// `Some((max_depth, depth))` when thinning, `None` when every candidate is kept.
    pub open spec fn thinning(&self) -> Option<(usize, usize)> {
        match self {
            SubsampleCandidates::Necessary { max_depth, depth, .. } => Some((*max_depth, *depth)),
            SubsampleCandidates::NotNeeded => None,
        }
    }

    /// `Some((seed, draws))` of the generator when thinning, `None` otherwise.
    pub open spec fn generator(&self) -> Option<(u64, nat)> {
        match self {
            SubsampleCandidates::Necessary { rng, .. } => Some((rng_seed(*rng), rng_draws(*rng))),
            SubsampleCandidates::NotNeeded => None,
        }
    }

    pub open spec fn wf(&self) -> bool {
        match self.thinning() {
            Some((m, d)) => d > m,
            None => true,
        }
    }

    /// A subsampler for `depth` candidates of which about `max_depth` are kept, seeded with the
    /// fixed default seed.
    pub fn new(max_depth: usize, depth: usize) -> (r: SubsampleCandidates)
        ensures
            r.wf(),
            depth > max_depth ==> r.thinning() == Some((max_depth, depth)) && r.generator()
                == Some((DEFAULT_SEED, 0nat)),
            depth <= max_depth ==> r.thinning() == None::<(usize, usize)>,
    {
        SubsampleCandidates::with_seed(max_depth, depth, DEFAULT_SEED)
    }

    /// As `new`, with the generator seeded from `seed`.
    pub fn with_seed(max_depth: usize, depth: usize, seed: u64) -> (r: SubsampleCandidates)
        ensures
            r.wf(),
            depth > max_depth ==> r.thinning() == Some((max_depth, depth)) && r.generator()
                == Some((seed, 0nat)),
            depth <= max_depth ==> r.thinning() == None::<(usize, usize)>,
    {
        if depth > max_depth {
            SubsampleCandidates::Necessary { rng: seeded_rng(seed), max_depth, depth }
        } else {
            SubsampleCandidates::NotNeeded
        }
    }

    /// Whether to keep the next candidate. Without thinning this is always true and draws
    /// nothing; with thinning it takes the generator's next draw and decides by `keeps_draw`.
    /// The outcome depends on the seed, the draws taken so far, `max_depth` and `depth` alone.
    pub fn keep(&mut self) -> (r: bool)
        ensures
            final(self).thinning() == old(self).thinning(),
            old(self).thinning() is None ==> r && final(self).generator() is None,
            old(self).thinning() is Some ==> {
                let (m, d) = old(self).thinning().unwrap();
                let (seed, draws) = old(self).generator().unwrap();
                &&& r == draw_kept(std_rng_draw(seed, draws), m, d)
                &&& final(self).generator() == Some((seed, draws + 1))
            },
    {
        match self {
            SubsampleCandidates::Necessary { rng, max_depth, depth } => {
                let m = *max_depth;
                let d = *depth;
                let draw = next_draw(rng);
                keeps_draw(draw, m, d)
            },
            SubsampleCandidates::NotNeeded => true,
        }
    }
}

} // verus!
