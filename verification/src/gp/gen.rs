//! Tree generation policy: decides, per node of a tree being grown top-down,
//! whether the node at a given depth must be a terminal (leaf) node.
//!
//! A policy owns the random source (`rand::rngs::StdRng`) for its lifetime, so
//! no other holder can consume from the same stream while the policy is live.

use vstd::prelude::*;

verus! {

/// The tree generation mode in use. See `TreeGen`.
#[derive(PartialEq, Eq, Structural, Clone, Copy, Debug)]
pub enum TreeGenMode {
    /// Corresponds to `TreeGen::perfect`: all leaves at exactly this depth.
    Perfect(usize),
    /// Corresponds to `TreeGen::full`: leaves at varying depths up to `max_depth`.
    Full,
    /// Corresponds to `TreeGen::full_ranged`: like `Full`, but the ceiling is a
    /// depth chosen at construction rather than `max_depth` itself.
    FullRanged(usize),
}

/// The single error of this module: construction with `min_depth > max_depth`.
#[derive(PartialEq, Eq, Structural, Clone, Copy, Debug)]
pub enum TreeGenError {
    /// The depth bounds were inverted.
    InvalidDepthRange,
}

#[verifier::external_type_specification]
#[verifier::external_body]
pub struct ExStdRng(rand::rngs::StdRng);

/// Relies on `rand::Rng::gen_range` over the inclusive range `lo..=hi`:
/// a uniform draw from the range; it panics only when the range is empty.
#[verifier::external_body]
fn rng_range(rng: &mut rand::rngs::StdRng, lo: usize, hi: usize) -> (r: usize)
    requires
        lo <= hi,
    ensures
        lo <= r <= hi,
{
    rand::Rng::gen_range(rng, lo..=hi)
}

/// Relies on `rand::Rng::gen` at `bool` (the `Standard` distribution): a
/// uniform random boolean. Nothing can be promised of the outcome.
#[verifier::external_body]
fn rng_coin(rng: &mut rand::rngs::StdRng) -> bool {
    let coin: bool = rand::Rng::gen(rng);
    coin
}

/// Relies on `rand::Rng::gen_ratio(1, n)`: true with probability `1/n`; it
/// panics only when the denominator is zero. Nothing can be promised of the
/// outcome.
#[verifier::external_body]
fn rng_one_in(rng: &mut rand::rngs::StdRng, n: u32) -> bool
    requires
        n >= 1,
{
    rand::Rng::gen_ratio(rng, 1, n)
}

/// Relies on `rand::RngCore::next_u32`: the next 32 random bits. Nothing can
/// be promised of the outcome.
#[verifier::external_body]
fn rng_next_u32(rng: &mut rand::rngs::StdRng) -> u32 {
    rand::RngCore::next_u32(rng)
}

/// Relies on `rand::RngCore::next_u64`: the next 64 random bits. Nothing can
/// be promised of the outcome.
#[verifier::external_body]
fn rng_next_u64(rng: &mut rand::rngs::StdRng) -> u64 {
    rand::RngCore::next_u64(rng)
}

/// Relies on `rand::RngCore::fill_bytes`: fills the buffer with random bytes;
/// it writes through a slice of the buffer, so the length cannot change.
#[verifier::external_body]
fn rng_fill_bytes(rng: &mut rand::rngs::StdRng, dest: &mut Vec<u8>)
    ensures
        final(dest)@.len() == old(dest)@.len(),
{
    rand::RngCore::fill_bytes(rng, dest.as_mut_slice())
}

/// What one weighted draw decides: a one-in-`interval` chance of placing a
/// leaf, where an interval of zero or one places one unconditionally and a
/// larger interval leaves the outcome to the draw (`draw` stands for the
/// boolean the random source supplied).
pub open spec fn spec_weighted_stop(interval: int, draw: bool) -> bool {
    if interval <= 1 {
        true
    } else {
        draw
    }
}

/// The leaf decision, as a pure function of the mode, the depth bounds, the
/// queried depth, and the weighted draw the random source would supply
/// (`Perfect` ignores the draw).
pub open spec fn spec_is_leaf(
    mode: TreeGenMode,
    min_depth: usize,
    max_depth: usize,
    current_depth: usize,
    draw: bool,
) -> bool {
    match mode {
        TreeGenMode::Perfect(chosen_depth) => current_depth == chosen_depth,
        TreeGenMode::Full => current_depth == max_depth || (current_depth >= min_depth
            && spec_weighted_stop(max_depth - min_depth, draw)),
        TreeGenMode::FullRanged(chosen_depth) => current_depth == chosen_depth || (current_depth
            >= min_depth && spec_weighted_stop(chosen_depth - min_depth, draw)),
    }
}

/// Configure generation of trees. This manages tree depth by deciding when to
/// generate a Terminal (leaf) node.
#[derive(PartialEq, Eq, Debug)]
pub struct TreeGen {
    /// Which tree depth logic to use.
    pub mode: TreeGenMode,
    /// The random source, owned for the policy's whole lifetime.
    pub rng: rand::rngs::StdRng,
    /// The minimum depth of trees to generate.
    pub min_depth: usize,
    /// The maximum depth of trees to generate.
    pub max_depth: usize,
}

/// The fields that construction fixes for the policy's lifetime are the same
/// in `a` and `b`: only the random source may have advanced.
pub open spec fn same_config(a: TreeGen, b: TreeGen) -> bool {
    &&& a.mode == b.mode
    &&& a.min_depth == b.min_depth
    &&& a.max_depth == b.max_depth
}

impl TreeGen {
    /// Well-formed: ordered depth bounds, and any chosen depth inside them.
    pub open spec fn wf(self) -> bool {
        &&& self.min_depth <= self.max_depth
        &&& match self.mode {
            TreeGenMode::Perfect(chosen_depth) => self.min_depth <= chosen_depth
                <= self.max_depth,
            TreeGenMode::Full => true,
            TreeGenMode::FullRanged(chosen_depth) => self.min_depth <= chosen_depth
                <= self.max_depth,
        }
    }

    /// Generate a perfect tree: all leaves at the same depth, drawn uniformly
    /// from `[min_depth, max_depth]` inclusive.
    pub fn perfect(rng: rand::rngs::StdRng, min_depth: usize, max_depth: usize) -> (r: Result<
        TreeGen,
        TreeGenError,
    >)
        ensures
            r is Ok <==> min_depth <= max_depth,
            r matches Err(e) ==> e == TreeGenError::InvalidDepthRange,
            r matches Ok(t) ==> t.wf() && t.min_depth == min_depth && t.max_depth == max_depth && (
            t.mode matches TreeGenMode::Perfect(chosen_depth) && min_depth <= chosen_depth
                <= max_depth),
    {
        if min_depth > max_depth {
            return Err(TreeGenError::InvalidDepthRange);
        }
        let mut rng = rng;
        let chosen_depth = rng_range(&mut rng, min_depth, max_depth);
        Ok(
            TreeGen {
                rng,
                mode: TreeGenMode::Perfect(chosen_depth),
                min_depth,
                max_depth,
            },
        )
    }

    /// Generate a full tree, one with leaves at varying depths between
    /// `min_depth` and `max_depth`. Draws no randomness at construction.
    pub fn full(rng: rand::rngs::StdRng, min_depth: usize, max_depth: usize) -> (r: Result<
        TreeGen,
        TreeGenError,
    >)
        ensures
            r is Ok <==> min_depth <= max_depth,
            r matches Err(e) ==> e == TreeGenError::InvalidDepthRange,
            r matches Ok(t) ==> t.wf() && t.min_depth == min_depth && t.max_depth == max_depth
                && t.mode == TreeGenMode::Full && t.rng == rng,
    {
        if min_depth > max_depth {
            return Err(TreeGenError::InvalidDepthRange);
        }
        Ok(TreeGen { rng, mode: TreeGenMode::Full, min_depth, max_depth })
    }

    /// Generate a full tree whose ceiling is a depth drawn uniformly from
    /// `[min_depth, max_depth]` inclusive, rather than `max_depth` itself.
    pub fn full_ranged(rng: rand::rngs::StdRng, min_depth: usize, max_depth: usize) -> (r: Result<
        TreeGen,
        TreeGenError,
    >)
        ensures
            r is Ok <==> min_depth <= max_depth,
            r matches Err(e) ==> e == TreeGenError::InvalidDepthRange,
            r matches Ok(t) ==> t.wf() && t.min_depth == min_depth && t.max_depth == max_depth && (
            t.mode matches TreeGenMode::FullRanged(chosen_depth) && min_depth <= chosen_depth
                <= max_depth),
    {
        if min_depth > max_depth {
            return Err(TreeGenError::InvalidDepthRange);
        }
        let mut rng = rng;
        let chosen_depth = rng_range(&mut rng, min_depth, max_depth);
        Ok(
            TreeGen {
                rng,
                mode: TreeGenMode::FullRanged(chosen_depth),
                min_depth,
                max_depth,
            },
        )
    }

    /// Randomly choose between `TreeGen::perfect` and `TreeGen::full_ranged`,
    /// spending exactly one uniform boolean on the choice.
    pub fn half_and_half(rng: rand::rngs::StdRng, min_depth: usize, max_depth: usize) -> (r:
        Result<TreeGen, TreeGenError>)
        ensures
            r is Ok <==> min_depth <= max_depth,
            r matches Err(e) ==> e == TreeGenError::InvalidDepthRange,
            r matches Ok(t) ==> t.wf() && t.min_depth == min_depth && t.max_depth == max_depth && (
            t.mode is Perfect || t.mode is FullRanged),
    {
        let mut rng = rng;
        if rng_coin(&mut rng) {
            Self::perfect(rng, min_depth, max_depth)
        } else {
            Self::full_ranged(rng, min_depth, max_depth)
        }
    }

    /// One weighted draw: place a leaf with a one-in-`depth_interval` chance.
    /// An interval of zero or one places one unconditionally and spends no
    /// randomness; the interval is narrowed to 32 bits before the draw, so an
    /// interval whose low 32 bits are zero or one also places one
    /// unconditionally.
    fn weighted_stop(&mut self, depth_interval: usize) -> (r: bool)
        ensures
            same_config(*old(self), *final(self)),
            exists|draw: bool| r == spec_weighted_stop(depth_interval as int, draw),
            depth_interval <= 1 ==> r,
    {
        if depth_interval <= 1 {
            proof {
                assert(spec_weighted_stop(depth_interval as int, true));
            }
            true
        } else {
            let n = #[verifier::truncate] (depth_interval as u32);
            let drew = if n <= 1 {
                true
            } else {
                rng_one_in(&mut self.rng, n)
            };
            proof {
                assert(drew == spec_weighted_stop(depth_interval as int, drew));
            }
            drew
        }
    }

    /// Chooses whether to generate a Leaf node at `current_depth`. Used by a
    /// tree-builder once per node as the tree grows.
    ///
    /// Under `Perfect` the decision is the pure comparison with the chosen
    /// depth and spends no randomness; under `Full` and `FullRanged` the
    /// ceiling depth is an unconditional leaf, depths below `min_depth` are
    /// never leaves, and depths in between are left to one weighted draw.
    pub fn have_reached_a_leaf(&mut self, current_depth: usize) -> (r: bool)
        requires
            old(self).wf(),
        ensures
            final(self).wf(),
            same_config(*old(self), *final(self)),
            exists|draw: bool|
                r == spec_is_leaf(
                    old(self).mode,
                    old(self).min_depth,
                    old(self).max_depth,
                    current_depth,
                    draw,
                ),
            old(self).mode matches TreeGenMode::Perfect(chosen_depth) ==> r == (current_depth
                == chosen_depth),
            old(self).mode is Perfect ==> *final(self) == *old(self),
    {
        let mode = self.mode;
        match mode {
            TreeGenMode::Perfect(chosen_depth) => {
                let r = current_depth == chosen_depth;
                proof {
                    assert(r == spec_is_leaf(
                        old(self).mode,
                        old(self).min_depth,
                        old(self).max_depth,
                        current_depth,
                        true,
                    ));
                }
                r
            },
            TreeGenMode::Full => {
                let depth_interval = self.max_depth - self.min_depth;
                let r = if current_depth == self.max_depth {
                    true
                } else if current_depth >= self.min_depth {
                    self.weighted_stop(depth_interval)
                } else {
                    false
                };
                proof {
                    let draw = choose|draw: bool|
                        r == spec_weighted_stop(depth_interval as int, draw);
                    if current_depth != old(self).max_depth && current_depth >= old(
                        self,
                    ).min_depth {
                        assert(r == spec_is_leaf(
                            old(self).mode,
                            old(self).min_depth,
                            old(self).max_depth,
                            current_depth,
                            draw,
                        ));
                    } else {
                        assert(r == spec_is_leaf(
                            old(self).mode,
                            old(self).min_depth,
                            old(self).max_depth,
                            current_depth,
                            true,
                        ));
                    }
                }
                r
            },
            TreeGenMode::FullRanged(chosen_depth) => {
                let depth_interval = chosen_depth - self.min_depth;
                let r = if current_depth == chosen_depth {
                    true
                } else if current_depth >= self.min_depth {
                    self.weighted_stop(depth_interval)
                } else {
                    false
                };
                proof {
                    let draw = choose|draw: bool|
                        r == spec_weighted_stop(depth_interval as int, draw);
                    if current_depth != chosen_depth && current_depth >= old(self).min_depth {
                        assert(r == spec_is_leaf(
                            old(self).mode,
                            old(self).min_depth,
                            old(self).max_depth,
                            current_depth,
                            draw,
                        ));
                    } else {
                        assert(r == spec_is_leaf(
                            old(self).mode,
                            old(self).min_depth,
                            old(self).max_depth,
                            current_depth,
                            true,
                        ));
                    }
                }
                r
            },
        }
    }

    /// Draw the next 32 random bits, delegating to the underlying source, so
    /// that the policy itself can serve wherever a random source is expected.
    pub fn next_u32(&mut self) -> (r: u32)
        ensures
            same_config(*old(self), *final(self)),
    {
        rng_next_u32(&mut self.rng)
    }

    /// Draw the next 64 random bits, delegating to the underlying source.
    pub fn next_u64(&mut self) -> (r: u64)
        ensures
            same_config(*old(self), *final(self)),
    {
        rng_next_u64(&mut self.rng)
    }

    /// Fill the buffer with random bytes, delegating to the underlying
    /// source; the buffer's length does not change.
    pub fn fill_bytes(&mut self, dest: &mut Vec<u8>)
        ensures
            same_config(*old(self), *final(self)),
            final(dest)@.len() == old(dest)@.len(),
    {
        rng_fill_bytes(&mut self.rng, dest)
    }
}

/// Law: under `Perfect(chosen_depth)` the decision at any depth is exactly
/// the comparison `current_depth == chosen_depth`, whatever the weighted draw
/// and whatever the bounds: the query is independent of the random source.
pub proof fn lemma_perfect_is_depth_equality(
    chosen_depth: usize,
    min_depth: usize,
    max_depth: usize,
    current_depth: usize,
    draw: bool,
)
    ensures
        spec_is_leaf(TreeGenMode::Perfect(chosen_depth), min_depth, max_depth, current_depth, draw)
            == (current_depth == chosen_depth),
{
}

/// Law: under `Full` the ceiling is hard — the decision at
/// `current_depth == max_depth` is true whatever the weighted draw.
pub proof fn lemma_full_ceiling(min_depth: usize, max_depth: usize, draw: bool)
    ensures
        spec_is_leaf(TreeGenMode::Full, min_depth, max_depth, max_depth, draw),
{
}

/// Law: under `Full` with a zero interval (`min_depth == max_depth`), the
/// decision at that shared depth is true whatever the weighted draw.
pub proof fn lemma_full_zero_interval(depth: usize, draw: bool)
    ensures
        spec_is_leaf(TreeGenMode::Full, depth, depth, depth, draw),
{
}

/// Law: under `Full` a depth below `min_depth` is never a leaf, whatever the
/// weighted draw, as long as the bounds are ordered.
pub proof fn lemma_full_below_min(
    min_depth: usize,
    max_depth: usize,
    current_depth: usize,
    draw: bool,
)
    requires
        min_depth <= max_depth,
        current_depth < min_depth,
    ensures
        !spec_is_leaf(TreeGenMode::Full, min_depth, max_depth, current_depth, draw),
{
}

/// Law: a `FullRanged(chosen_depth)` policy decides exactly as a `Full`
/// policy whose `max_depth` is `chosen_depth`, at every queried depth and for
/// every weighted draw — the stored `max_depth` plays no part.
pub proof fn lemma_full_ranged_matches_full(
    chosen_depth: usize,
    min_depth: usize,
    max_depth: usize,
    current_depth: usize,
    draw: bool,
)
    ensures
        spec_is_leaf(
            TreeGenMode::FullRanged(chosen_depth),
            min_depth,
            max_depth,
            current_depth,
            draw,
        ) == spec_is_leaf(TreeGenMode::Full, min_depth, chosen_depth, current_depth, draw),
{
}

} // verus!
