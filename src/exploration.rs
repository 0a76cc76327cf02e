//! The exploration space: base derivation paths extended by every choice of
//! one child index per level, and its enumeration.
use vstd::arithmetic::div_mod::lemma_fundamental_div_mod_converse;
use vstd::prelude::*;

verus! {

/// Child numbers at or above this one are hardened.
pub const HARDENED_OFFSET: u32 = 0x8000_0000;

/// The index sequences held by a vector of index vectors.
pub open spec fn seqs_of(v: Seq<Vec<u32>>) -> Seq<Seq<u32>> {
    v.map_values(|x: Vec<u32>| x@)
}

/// The number of ways to pick one index per level.
pub open spec fn product_size(levels: Seq<Seq<u32>>) -> nat
    decreases levels.len(),
{
    if levels.len() == 0 {
        1
    } else {
        product_size(levels.drop_last()) * levels.last().len()
    }
}

/// The `c`-th choice of one index per level, in lexicographic order: the
/// last level varies fastest.
pub open spec fn combination_at(levels: Seq<Seq<u32>>, c: int) -> Seq<u32>
    decreases levels.len(),
{
    if levels.len() == 0 {
        Seq::empty()
    } else {
        let last = levels.last();
        combination_at(levels.drop_last(), c / last.len() as int).push(last[c % last.len() as int])
    }
}

/// The `i`-th candidate path: choices in the outer order, base paths in the
/// inner order.
pub open spec fn candidate_path(bases: Seq<Seq<u32>>, levels: Seq<Seq<u32>>, i: int) -> Seq<u32> {
    bases[i % bases.len() as int] + combination_at(levels, i / bases.len() as int)
}

/// Every candidate path of the space, in the order in which they are tried.
pub open spec fn candidate_paths(bases: Seq<Seq<u32>>, levels: Seq<Seq<u32>>) -> Seq<Seq<u32>> {
    Seq::new(bases.len() * product_size(levels), |i: int| candidate_path(bases, levels, i))
}

/// With every level non-empty, dropping trailing levels does not increase
/// the product.
proof fn lemma_product_prefix_le(levels: Seq<Seq<u32>>, k: int)
    requires
        0 <= k <= levels.len(),
        forall|j: int| 0 <= j < levels.len() ==> (#[trigger] levels[j]).len() > 0,
    ensures
        product_size(levels.subrange(0, k)) <= product_size(levels),
    decreases levels.len(),
{
    if k == levels.len() {
        assert(levels.subrange(0, k) =~= levels);
    } else {
        let d = levels.drop_last();
        assert(d.subrange(0, k) =~= levels.subrange(0, k));
        lemma_product_prefix_le(d, k);
        let p = product_size(d);
        let n = levels.last().len();
        assert(p * n >= p) by (nonlinear_arith)
            requires
                n > 0,
        ;
    }
}

/// The product is zero exactly when some level is empty.
pub proof fn lemma_product_zero_iff_empty_level(levels: Seq<Seq<u32>>)
    ensures
        product_size(levels) == 0 <==> exists|k: int| 0 <= k < levels.len() && (#[trigger] levels[k]).len() == 0,
    decreases levels.len(),
{
    if levels.len() > 0 {
        let d = levels.drop_last();
        lemma_product_zero_iff_empty_level(d);
        let p = product_size(d);
        let n = levels.last().len();
        assert(p * n == 0 <==> p == 0 || n == 0) by (nonlinear_arith);
        if product_size(levels) == 0 {
            if p == 0 {
                let k = choose|k: int| 0 <= k < d.len() && (#[trigger] d[k]).len() == 0;
                assert(levels[k] == d[k]);
            } else {
                assert(levels[levels.len() - 1].len() == 0);
            }
        } else {
            assert forall|k: int| 0 <= k < levels.len() implies (#[trigger] levels[k]).len() != 0 by {
                if k < d.len() {
                    assert(levels[k] == d[k]);
                }
            }
        }
    }
}

/// A space with an empty level has no candidate path at all.
pub proof fn lemma_empty_level_yields_no_paths(bases: Seq<Seq<u32>>, levels: Seq<Seq<u32>>, k: int)
    requires
        0 <= k < levels.len(),
        levels[k].len() == 0,
    ensures
        product_size(levels) == 0,
        candidate_paths(bases, levels).len() == 0,
{
    lemma_product_zero_iff_empty_level(levels);
    assert(bases.len() * 0 == 0);
}

/// One more level multiplies the product by its size.
proof fn lemma_product_step(levels: Seq<Seq<u32>>, k: int)
    requires
        0 <= k < levels.len(),
    ensures
        product_size(levels.subrange(0, k + 1)) == product_size(levels.subrange(0, k)) * levels[k].len(),
{
    let p = levels.subrange(0, k + 1);
    assert(p.drop_last() =~= levels.subrange(0, k));
}

/// One more level, taken from the end, in the choice decoding.
proof fn lemma_combination_step(levels: Seq<Seq<u32>>, k: int, c: int)
    requires
        0 < k <= levels.len(),
    ensures
        combination_at(levels.subrange(0, k), c) == combination_at(levels.subrange(0, k - 1), c / levels[k - 1].len() as int).push(
            levels[k - 1][c % levels[k - 1].len() as int],
        ),
{
    let p = levels.subrange(0, k);
    assert(p.drop_last() =~= levels.subrange(0, k - 1));
}

/// The choice that picks, at each level `k`, the index at position
/// `positions[k]`.
pub open spec fn choice_of(levels: Seq<Seq<u32>>, positions: Seq<int>) -> Seq<u32> {
    Seq::new(levels.len(), |k: int| levels[k][positions[k]])
}

/// No choice is left out: every choice of one index per level is the
/// `c`-th for some `c` below the product.
pub proof fn lemma_every_choice_is_enumerated(levels: Seq<Seq<u32>>, positions: Seq<int>)
    requires
        positions.len() == levels.len(),
        forall|k: int| 0 <= k < levels.len() ==> 0 <= #[trigger] positions[k] < levels[k].len(),
    ensures
        exists|c: int| 0 <= c < product_size(levels) && combination_at(levels, c) == choice_of(levels, positions),
    decreases levels.len(),
{
    if levels.len() == 0 {
        assert(combination_at(levels, 0) =~= choice_of(levels, positions));
    } else {
        let d = levels.drop_last();
        let ps = positions.drop_last();
        let n = levels.last().len() as int;
        let pl = positions.last();
        assert forall|k: int| 0 <= k < d.len() implies 0 <= #[trigger] ps[k] < d[k].len() by {
            assert(ps[k] == positions[k]);
        }
        lemma_every_choice_is_enumerated(d, ps);
        let c0 = choose|c: int| 0 <= c < product_size(d) && combination_at(d, c) == choice_of(d, ps);
        let c = c0 * n + pl;
        assert(0 <= pl < n) by {
            assert(positions[levels.len() - 1] == pl);
        }
        lemma_fundamental_div_mod_converse(c, n, c0, pl);
        let p = product_size(d) as int;
        assert(c < p * n) by (nonlinear_arith)
            requires
                c == c0 * n + pl,
                0 <= c0 < p,
                0 <= pl < n,
        ;
        assert(0 <= c) by (nonlinear_arith)
            requires
                c == c0 * n + pl,
                0 <= c0,
                0 <= pl,
                n > 0,
        ;
        assert(combination_at(levels, c) =~= choice_of(levels, positions)) by {
            assert(combination_at(levels, c) == combination_at(d, c0).push(levels.last()[pl]));
            assert(choice_of(d, ps) =~= choice_of(levels, positions).drop_last());
        }
    }
}

/// No candidate path is left out: every base path extended by every choice
/// of one index per level is among the candidate paths.
pub proof fn lemma_every_candidate_is_generated(
    bases: Seq<Seq<u32>>,
    levels: Seq<Seq<u32>>,
    b: int,
    positions: Seq<int>,
)
    requires
        0 <= b < bases.len(),
        positions.len() == levels.len(),
        forall|k: int| 0 <= k < levels.len() ==> 0 <= #[trigger] positions[k] < levels[k].len(),
    ensures
        exists|i: int|
            0 <= i < candidate_paths(bases, levels).len() && #[trigger] candidate_paths(bases, levels)[i]
                == bases[b] + choice_of(levels, positions),
{
    lemma_every_choice_is_enumerated(levels, positions);
    let c = choose|c: int| 0 <= c < product_size(levels) && combination_at(levels, c) == choice_of(levels, positions);
    let nb = bases.len() as int;
    let p = product_size(levels) as int;
    let i = c * nb + b;
    lemma_fundamental_div_mod_converse(i, nb, c, b);
    assert(0 <= i < nb * p) by (nonlinear_arith)
        requires
            i == c * nb + b,
            0 <= c < p,
            0 <= b < nb,
    ;
    assert(candidate_paths(bases, levels)[i] == bases[b] + choice_of(levels, positions));
}

/// No choice comes twice: when no level repeats an index, distinct
/// positions below the product give distinct choices.
pub proof fn lemma_choices_are_distinct(levels: Seq<Seq<u32>>, c1: int, c2: int)
    requires
        forall|k: int| 0 <= k < levels.len() ==> (#[trigger] levels[k]).no_duplicates(),
        0 <= c1 < product_size(levels),
        0 <= c2 < product_size(levels),
        c1 != c2,
    ensures
        combination_at(levels, c1) != combination_at(levels, c2),
    decreases levels.len(),
{
    if levels.len() == 0 {
    } else {
        let d = levels.drop_last();
        let last = levels.last();
        let n = last.len() as int;
        let p = product_size(d) as int;
        assert(levels[levels.len() - 1] == last);
        assert(n > 0) by (nonlinear_arith)
            requires
                0 <= c1 < p * n,
                n >= 0,
                p >= 0,
        ;
        let x1 = combination_at(levels, c1);
        let x2 = combination_at(levels, c2);
        assert(x1 == combination_at(d, c1 / n).push(last[c1 % n]));
        assert(x2 == combination_at(d, c2 / n).push(last[c2 % n]));
        if c1 % n != c2 % n {
            assert(x1.last() != x2.last());
        } else {
            if c1 / n == c2 / n {
                assert(c1 == n * (c1 / n) + c1 % n) by (nonlinear_arith)
                    requires
                        n > 0,
                ;
                assert(c2 == n * (c2 / n) + c2 % n) by (nonlinear_arith)
                    requires
                        n > 0,
                ;
            }
            assert(0 <= c1 / n < p) by (nonlinear_arith)
                requires
                    0 <= c1 < p * n,
                    n > 0,
            ;
            assert(0 <= c2 / n < p) by (nonlinear_arith)
                requires
                    0 <= c2 < p * n,
                    n > 0,
            ;
            assert forall|k: int| 0 <= k < d.len() implies (#[trigger] d[k]).no_duplicates() by {
                assert(d[k] == levels[k]);
            }
            lemma_choices_are_distinct(d, c1 / n, c2 / n);
            assert(x1.drop_last() =~= combination_at(d, c1 / n));
            assert(x2.drop_last() =~= combination_at(d, c2 / n));
        }
    }
}

/// A choice has one index per level.
proof fn lemma_combination_len(levels: Seq<Seq<u32>>, c: int)
    ensures
        combination_at(levels, c).len() == levels.len(),
    decreases levels.len(),
{
    if levels.len() > 0 {
        lemma_combination_len(levels.drop_last(), c / levels.last().len() as int);
    }
}

/// No candidate path comes twice, when the base paths are distinct and no
/// level repeats an index.
pub proof fn lemma_candidate_paths_are_distinct(bases: Seq<Seq<u32>>, levels: Seq<Seq<u32>>)
    requires
        bases.no_duplicates(),
        forall|k: int| 0 <= k < levels.len() ==> (#[trigger] levels[k]).no_duplicates(),
    ensures
        candidate_paths(bases, levels).no_duplicates(),
{
    let paths = candidate_paths(bases, levels);
    let nb = bases.len() as int;
    let p = product_size(levels) as int;
    assert forall|i: int, j: int| 0 <= i < paths.len() && 0 <= j < paths.len() && i != j implies #[trigger] paths[i] != #[trigger] paths[j] by {
        let b1 = i % nb;
        let b2 = j % nb;
        let c1 = i / nb;
        let c2 = j / nb;
        assert(0 <= b1 < nb && 0 <= b2 < nb && i == nb * c1 + b1 && j == nb * c2 + b2) by (nonlinear_arith)
            requires
                nb > 0,
                b1 == i % nb,
                b2 == j % nb,
                c1 == i / nb,
                c2 == j / nb,
        ;
        assert(paths[i] == bases[b1] + combination_at(levels, c1));
        assert(paths[j] == bases[b2] + combination_at(levels, c2));
        lemma_combination_len(levels, c1);
        lemma_combination_len(levels, c2);
        if bases[b1].len() != bases[b2].len() {
            assert(paths[i].len() != paths[j].len());
        } else if b1 != b2 {
            let l = bases[b1].len() as int;
            assert(paths[i].subrange(0, l) =~= bases[b1]);
            assert(paths[j].subrange(0, l) =~= bases[b2]);
        } else {
            let l = bases[b1].len() as int;
            assert(c1 != c2);
            assert(0 <= c1 < p && 0 <= c2 < p) by (nonlinear_arith)
                requires
                    0 <= i < nb * p,
                    0 <= j < nb * p,
                    i == nb * c1 + b1,
                    j == nb * c2 + b2,
                    0 <= b1 < nb,
                    0 <= b2 < nb,
                    nb > 0,
            ;
            lemma_choices_are_distinct(levels, c1, c2);
            assert(paths[i].subrange(l, paths[i].len() as int) =~= combination_at(levels, c1));
            assert(paths[j].subrange(l, paths[j].len() as int) =~= combination_at(levels, c2));
        }
    }
}

/// Why an exploration space could not be built.
#[derive(Debug, Clone, Copy, PartialEq, Eq, Structural)]
pub enum SpaceError {
    /// No base path was given.
    NoBasePath,
    /// No level was given: the depth must be at least one.
    NoLevel,
    /// A child index does not fit below the hardened offset.
    IndexOutOfRange,
    /// A base path is not a derivation path.
    InvalidBasePath,
    /// The exploration path is not understood.
    InvalidExplorationPath,
}

/// How the children of one level are numbered.
#[derive(Debug, Clone, Copy, PartialEq, Eq, Structural)]
pub enum StepHardness {
    Hardened,
    Normal,
    HardenedAndNormal,
}

/// The child numbers of a level that covers `start..=end`: hardened ones,
/// normal ones, or the hardened ones followed by the normal ones.
pub open spec fn level_indices(start: u32, end: u32, hardness: StepHardness) -> Seq<u32> {
    let normal = Seq::new(
        if end >= start { (end - start + 1) as nat } else { 0 },
        |k: int| (start + k) as u32,
    );
    let hardened = normal.map_values(|x: u32| (x + HARDENED_OFFSET) as u32);
    match hardness {
        StepHardness::Hardened => hardened,
        StepHardness::Normal => normal,
        StepHardness::HardenedAndNormal => hardened + normal,
    }
}

/// The child numbers of a level that covers `start..=end` with the given
/// hardness. An index at or above the hardened offset has no child number.
pub fn level_from_range(start: u32, end: u32, hardness: StepHardness) -> (r: Result<Vec<u32>, SpaceError>)
    ensures
        start <= end && end >= HARDENED_OFFSET ==> r == Err::<Vec<u32>, SpaceError>(SpaceError::IndexOutOfRange),
        !(start <= end && end >= HARDENED_OFFSET) ==> (r matches Ok(v) && v@ == level_indices(start, end, hardness)),
{
    let ghost normal_spec = Seq::new(
        if end >= start { (end - start + 1) as nat } else { 0 },
        |k: int| (start + k) as u32,
    );
    if start > end {
        proof {
            assert(normal_spec =~= Seq::<u32>::empty());
            assert(level_indices(start, end, hardness) =~= Seq::<u32>::empty());
        }
        return Ok(Vec::new());
    }
    if end >= HARDENED_OFFSET {
        return Err(SpaceError::IndexOutOfRange);
    }
    let mut hardened: Vec<u32> = Vec::new();
    let mut normal: Vec<u32> = Vec::new();
    let mut x: u32 = start;
    while x <= end
        invariant
            start <= x <= end + 1,
            end < HARDENED_OFFSET,
            normal_spec.len() == end - start + 1,
            forall|k: int| 0 <= k < normal_spec.len() ==> #[trigger] normal_spec[k] == start + k,
            normal@ == normal_spec.subrange(0, x - start),
            hardened@ == normal_spec.subrange(0, x - start).map_values(|y: u32| (y + HARDENED_OFFSET) as u32),
        decreases end + 1 - x,
    {
        normal.push(x);
        hardened.push(x + HARDENED_OFFSET);
        x = x + 1;
        proof {
            assert(normal@ =~= normal_spec.subrange(0, x - start));
            assert(hardened@ =~= normal_spec.subrange(0, x - start).map_values(|y: u32| (y + HARDENED_OFFSET) as u32));
        }
    }
    proof {
        assert(normal_spec.subrange(0, x - start) =~= normal_spec);
    }
    match hardness {
        StepHardness::Hardened => Ok(hardened),
        StepHardness::Normal => Ok(normal),
        StepHardness::HardenedAndNormal => {
            let ghost h = hardened@;
            hardened.append(&mut normal);
            proof {
                assert(hardened@ =~= h + normal_spec);
            }
            Ok(hardened)
        },
    }
}

/// The paths to explore: base paths, each extended by one child number per
/// level.
pub struct ExplorationSpace {
    pub base_paths: Vec<Vec<u32>>,
    pub levels: Vec<Vec<u32>>,
}

impl ExplorationSpace {
    pub open spec fn bases_spec(&self) -> Seq<Seq<u32>> {
        seqs_of(self.base_paths@)
    }

    pub open spec fn levels_spec(&self) -> Seq<Seq<u32>> {
        seqs_of(self.levels@)
    }

    /// At least one base path and at least one level.
    pub open spec fn wf(&self) -> bool {
        self.base_paths.len() > 0 && self.levels.len() > 0
    }

    /// The number of candidate paths.
    pub open spec fn size_spec(&self) -> nat {
        self.base_paths@.len() * product_size(self.levels_spec())
    }

    pub open spec fn paths_spec(&self) -> Seq<Seq<u32>> {
        candidate_paths(self.bases_spec(), self.levels_spec())
    }

    /// The number of candidate paths, computed before any is generated, or
    /// `None` when it does not fit in a `u64`.
    pub fn total_paths(&self) -> (r: Option<u64>)
        requires
            self.wf(),
        ensures
            r is None <==> self.size_spec() > u64::MAX,
            r matches Some(n) ==> n == self.size_spec(),
    {
        let ghost levels = self.levels_spec();
        let d = self.levels.len();
        let mut k: usize = 0;
        while k < d
            invariant
                k <= d,
                d == self.levels.len(),
                levels == self.levels_spec(),
                forall|j: int| 0 <= j < k ==> (#[trigger] levels[j]).len() > 0,
            decreases d - k,
        {
            if self.levels[k].len() == 0 {
                proof {
                    assert(levels[k as int] == self.levels@[k as int]@);
                    lemma_empty_level_yields_no_paths(self.bases_spec(), levels, k as int);
                    assert(self.base_paths@.len() * 0 == 0);
                }
                return Some(0);
            }
            proof {
                assert(levels[k as int] == self.levels@[k as int]@);
            }
            k = k + 1;
        }
        let mut acc: u64 = self.base_paths.len() as u64;
        let mut k: usize = 0;
        proof {
            assert(levels.subrange(0, 0) =~= Seq::<Seq<u32>>::empty());
            assert(product_size(levels.subrange(0, 0)) == 1);
        }
        while k < d
            invariant
                k <= d,
                d == self.levels.len(),
                d == levels.len(),
                levels == self.levels_spec(),
                forall|j: int| 0 <= j < d ==> (#[trigger] levels[j]).len() > 0,
                acc == self.base_paths@.len() * product_size(levels.subrange(0, k as int)),
            decreases d - k,
        {
            let lk = self.levels[k].len() as u64;
            proof {
                assert(levels[k as int] == self.levels@[k as int]@);
                lemma_product_step(levels, k as int);
            }
            let ghost nb = self.base_paths@.len();
            let ghost pk = product_size(levels.subrange(0, k as int));
            let ghost pk1 = product_size(levels.subrange(0, k as int + 1));
            if acc > u64::MAX / lk {
                proof {
                    assert(acc * lk > u64::MAX) by (nonlinear_arith)
                        requires
                            acc > u64::MAX / lk,
                            lk > 0,
                    ;
                    lemma_product_prefix_le(levels, k as int + 1);
                    assert(levels.subrange(0, d as int) =~= levels);
                    assert(nb * pk1 <= nb * product_size(levels)) by (nonlinear_arith)
                        requires
                            pk1 <= product_size(levels),
                            nb >= 0,
                    ;
                    assert(nb * pk1 == acc * lk) by (nonlinear_arith)
                        requires
                            pk1 == pk * lk,
                            acc == nb * pk,
                    ;
                }
                return None;
            }
            proof {
                assert(acc * lk <= u64::MAX) by (nonlinear_arith)
                    requires
                        acc <= u64::MAX / lk,
                        lk > 0,
                ;
                assert(nb * pk1 == acc * lk) by (nonlinear_arith)
                    requires
                        pk1 == pk * lk,
                        acc == nb * pk,
                ;
            }
            acc = acc * lk;
            k = k + 1;
        }
        proof {
            assert(levels.subrange(0, d as int) =~= levels);
        }
        Some(acc)
    }

    /// The `i`-th candidate path.
    pub fn path_at(&self, i: u64) -> (r: Vec<u32>)
        requires
            self.wf(),
            i < self.size_spec(),
        ensures
            r@ == candidate_path(self.bases_spec(), self.levels_spec(), i as int),
            r@ == self.paths_spec()[i as int],
    {
        let ghost levels = self.levels_spec();
        let nb = self.base_paths.len() as u64;
        let base_index = (i % nb) as usize;
        let ghost c = (i / nb) as int;
        proof {
            if product_size(levels) == 0 {
                assert(self.base_paths@.len() * 0 == 0);
            }
            lemma_product_zero_iff_empty_level(levels);
        }
        let mut rem: u64 = i / nb;
        let mut suffix: Vec<u32> = Vec::new();
        let mut k: usize = self.levels.len();
        proof {
            assert(levels.subrange(0, k as int) =~= levels);
            assert(combination_at(levels, c) + suffix@ =~= combination_at(levels, c));
        }
        while k > 0
            invariant
                k <= self.levels.len(),
                levels == self.levels_spec(),
                forall|j: int| 0 <= j < levels.len() ==> (#[trigger] levels[j]).len() != 0,
                combination_at(levels, c) == combination_at(levels.subrange(0, k as int), rem as int) + suffix@,
            decreases k,
        {
            let level = &self.levels[k - 1];
            proof {
                assert(levels[k - 1] == self.levels@[k - 1]@);
            }
            let lk = level.len() as u64;
            let x = level[(rem % lk) as usize];
            proof {
                lemma_combination_step(levels, k as int, rem as int);
                let prev = combination_at(levels.subrange(0, k - 1), (rem / lk) as int);
                assert(prev.push(x) + suffix@ =~= prev + (seq![x] + suffix@));
            }
            let ghost before = suffix@;
            suffix.insert(0, x);
            proof {
                assert(suffix@ =~= seq![x] + before);
            }
            rem = rem / lk;
            k = k - 1;
        }
        proof {
            assert(levels.subrange(0, 0) =~= Seq::<Seq<u32>>::empty());
            assert(suffix@ =~= combination_at(levels, c));
            assert(i % nb < self.base_paths@.len()) by (nonlinear_arith)
                requires
                    nb > 0,
                    nb == self.base_paths@.len(),
            ;
        }
        let base = &self.base_paths[base_index];
        let mut r: Vec<u32> = Vec::new();
        let mut j: usize = 0;
        while j < base.len()
            invariant
                j <= base.len(),
                r@ == base@.subrange(0, j as int),
            decreases base.len() - j,
        {
            r.push(base[j]);
            j = j + 1;
            proof {
                assert(r@ =~= base@.subrange(0, j as int));
            }
        }
        proof {
            assert(base@.subrange(0, base.len() as int) =~= base@);
            assert(self.bases_spec()[base_index as int] == base@);
        }
        r.append(&mut suffix);
        r
    }

    /// Every candidate path, in order: exactly as many as `total_paths`
    /// counts, or `None` when that count does not fit in a `u64`.
    pub fn generate_paths(&self) -> (r: Option<Vec<Vec<u32>>>)
        requires
            self.wf(),
        ensures
            r is None <==> self.size_spec() > u64::MAX,
            r matches Some(v) ==> v.len() == self.size_spec() && seqs_of(v@) == self.paths_spec(),
    {
        match self.total_paths() {
            None => None,
            Some(total) => {
                let mut out: Vec<Vec<u32>> = Vec::new();
                let mut i: u64 = 0;
                while i < total
                    invariant
                        i <= total,
                        total == self.size_spec(),
                        self.wf(),
                        out.len() == i,
                        forall|j: int| 0 <= j < i ==> (#[trigger] out@[j])@ == self.paths_spec()[j],
                    decreases total - i,
                {
                    out.push(self.path_at(i));
                    i = i + 1;
                }
                proof {
                    assert(seqs_of(out@) =~= self.paths_spec());
                }
                Some(out)
            },
        }
    }

    /// A space of the given base paths and levels; there must be one of each.
    pub fn new(base_paths: Vec<Vec<u32>>, levels: Vec<Vec<u32>>) -> (r: Result<Self, SpaceError>)
        ensures
            base_paths.len() == 0 ==> r == Err::<Self, SpaceError>(SpaceError::NoBasePath),
            base_paths.len() > 0 && levels.len() == 0 ==> r == Err::<Self, SpaceError>(
                SpaceError::NoLevel,
            ),
            base_paths.len() > 0 && levels.len() > 0 ==> r is Ok && r->Ok_0.wf()
                && r->Ok_0.base_paths@ == base_paths@ && r->Ok_0.levels@ == levels@,
    {
        if base_paths.len() == 0 {
            Err(SpaceError::NoBasePath)
        } else if levels.len() == 0 {
            Err(SpaceError::NoLevel)
        } else {
            Ok(ExplorationSpace { base_paths, levels })
        }
    }
}

} // verus!
