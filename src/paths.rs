//! Derivation paths, exploration paths and mnemonics written as text.
use vstd::prelude::*;

use bitceptron_retriever::explorer::exploration_step::ExplorationStepHardness;

use crate::exploration::{
    level_from_range, level_indices, ExplorationSpace, SpaceError, StepHardness, HARDENED_OFFSET,
};
use crate::text::{is_ascii_digit, parsed_u32, split_at_char};

verus! {

/// What `bitcoin::bip32::ChildNumber::from_str` makes of a text: an index
/// below 2^31, with a trailing `'` or `h` when hardened (then shifted up by
/// 2^31).
pub open spec fn parsed_child_number(s: Seq<char>) -> Option<u32> {
    if s.len() > 0 && (s.last() == '\'' || s.last() == 'h') {
        match parsed_u32(s.drop_last()) {
            Some(i) => if i < HARDENED_OFFSET {
                Some((i + HARDENED_OFFSET) as u32)
            } else {
                None
            },
            None => None,
        }
    } else {
        match parsed_u32(s) {
            Some(i) => if i < HARDENED_OFFSET {
                Some(i)
            } else {
                None
            },
            None => None,
        }
    }
}

/// What `bitcoin::bip32::DerivationPath::from_str` makes of a text: `m`,
/// then child numbers, all separated by `/`.
pub open spec fn parsed_derivation_path(s: Seq<char>) -> Option<Seq<u32>> {
    let parts = split_at_char(s, '/');
    let rest = parts.drop_first();
    if parts[0] == seq!['m'] && (forall|i: int| 0 <= i < rest.len() ==> (#[trigger] parsed_child_number(rest[i])) is Some) {
        Some(rest.map_values(|p: Seq<char>| parsed_child_number(p)->0))
    } else {
        None
    }
}

/// Relies on `bitcoin::bip32::DerivationPath::from_str` (in bitcoin 0.31:
/// split at `/`, the first part `m`, each other part a `ChildNumber`), and
/// on `u32::from(ChildNumber)` for the child numbers.
#[verifier::external_body]
pub(crate) fn parse_derivation_path(s: &str) -> (r: Option<Vec<u32>>)
    ensures
        match r {
            Some(v) => parsed_derivation_path(s@) == Some(v@),
            None => parsed_derivation_path(s@) is None,
        },
{
    let path = <bitcoin::bip32::DerivationPath as std::str::FromStr>::from_str(s).ok()?;
    Some(path.into_iter().map(|c| u32::from(*c)).collect())
}

/// The steps that `bitceptron_retriever`'s `ExplorationPath::new` reads from
/// an exploration path with the given wildcard depth: the first and last
/// index of each step and its hardness; `None` when it refuses the text.
pub uninterp spec fn parsed_exploration_steps(s: Seq<char>, depth: u32) -> Option<Seq<(u32, u32, StepHardness)>>;

/// Ten ASCII digits in a row from position `i`.
pub open spec fn ten_digits_at(s: Seq<char>, i: int) -> bool {
    forall|k: int| i <= k < i + 10 ==> is_ascii_digit(#[trigger] s[k])
}

/// A text that `ExplorationPath::new` reads without panicking: ASCII, and
/// no run of more than nine digits (each run must read as a `u32`).
pub open spec fn exploration_text_is_safe(s: Seq<char>) -> bool {
    &&& forall|i: int| 0 <= i < s.len() ==> (#[trigger] s[i]) as u32 <= 0x7f
    &&& forall|i: int| 0 <= i && i + 10 <= s.len() ==> !#[trigger] ten_digits_at(s, i)
}

/// Relies on `bitceptron_retriever::explorer::exploration_path::ExplorationPath::new`
/// with no base path and no sweep, and on the getters of its steps; the
/// result depends on the text and the depth alone.
#[verifier::external_body]
pub(crate) fn exploration_steps(s: &str, depth: u32) -> (r: Option<Vec<(u32, u32, StepHardness)>>)
    requires
        exploration_text_is_safe(s@),
    ensures
        match r {
            Some(v) => parsed_exploration_steps(s@, depth) == Some(v@),
            None => parsed_exploration_steps(s@, depth) is None,
        },
{
    let path = bitceptron_retriever::explorer::exploration_path::ExplorationPath::new(None, s, depth, false).ok()?;
    Some(path.get_explore().iter().map(|st| {
        let h = match st.get_hardness() {
            ExplorationStepHardness::Hardened => StepHardness::Hardened,
            ExplorationStepHardness::Normal => StepHardness::Normal,
            ExplorationStepHardness::HardenedAndNormal => StepHardness::HardenedAndNormal,
        };
        (*st.get_start_inclusive(), *st.get_end_inclusive(), h)
    }).collect())
}

/// Whether `bip39::Mnemonic::from_str` accepts a text.
pub uninterp spec fn mnemonic_is_valid(s: Seq<char>) -> bool;

/// Relies on `bip39::Mnemonic::from_str`: word list and checksum; the
/// outcome depends on the text alone.
#[verifier::external_body]
pub(crate) fn check_mnemonic(s: &str) -> (r: bool)
    ensures
        r == mnemonic_is_valid(s@),
{
    <bip39::Mnemonic as std::str::FromStr>::from_str(s).is_ok()
}

/// Checks that a text can go to `ExplorationPath::new`.
pub fn is_exploration_text_safe(s: &str) -> (r: bool)
    ensures
        r == exploration_text_is_safe(s@),
{
    let n = s.unicode_len();
    let mut i: usize = 0;
    let mut run: usize = 0;
    while i < n
        invariant
            i <= n,
            n == s@.len(),
            run <= 9,
            run <= i,
            forall|k: int| i - run <= k < i ==> is_ascii_digit(#[trigger] s@[k]),
            i > run ==> !is_ascii_digit(s@[i - run - 1]),
            forall|k: int| 0 <= k < i ==> (#[trigger] s@[k]) as u32 <= 0x7f,
            forall|a: int| 0 <= a && a + 10 <= i ==> !#[trigger] ten_digits_at(s@, a),
        decreases n - i,
    {
        let c = s.get_char(i);
        if (c as u32) > 0x7f {
            proof {
                assert(s@[i as int] as u32 > 0x7f);
            }
            return false;
        }
        if '0' <= c && c <= '9' {
            if run == 9 {
                proof {
                    let a = (i - 9) as int;
                    assert forall|k: int| a <= k < a + 10 implies is_ascii_digit(#[trigger] s@[k]) by {
                        if k < i {
                            assert(i - run <= k < i);
                        }
                    }
                    assert(ten_digits_at(s@, a));
                }
                return false;
            }
            run = run + 1;
        } else {
            run = 0;
        }
        proof {
            assert forall|a: int| 0 <= a && a + 10 <= i + 1 implies !#[trigger] ten_digits_at(s@, a) by {
                if a + 10 <= i {
                } else if !is_ascii_digit(s@[i as int]) {
                    assert(!is_ascii_digit(s@[i as int]));
                } else {
                    let w = (i - run) as int;
                    assert(!is_ascii_digit(s@[w]));
                }
            }
        }
        i = i + 1;
    }
    true
}

/// Whether a step covers an index that has no child number.
pub open spec fn step_out_of_range(step: (u32, u32, StepHardness)) -> bool {
    step.0 <= step.1 && step.1 >= HARDENED_OFFSET
}

/// The levels of a sequence of steps.
pub open spec fn levels_of_steps(steps: Seq<(u32, u32, StepHardness)>) -> Seq<Seq<u32>> {
    steps.map_values(|st: (u32, u32, StepHardness)| level_indices(st.0, st.1, st.2))
}

/// The exploration space of settings written as text: base paths, an
/// exploration path, and the depth that its wildcards reach.
pub fn space_from_setting(base_paths: &Vec<String>, exploration_path: &str, depth: u32) -> (r: Result<ExplorationSpace, SpaceError>)
    ensures
        base_paths.len() == 0 ==> r == Err::<ExplorationSpace, SpaceError>(SpaceError::NoBasePath),
        base_paths.len() > 0 && (exists|i: int| 0 <= i < base_paths.len() && (#[trigger] parsed_derivation_path(base_paths@[i]@)) is None)
            ==> r == Err::<ExplorationSpace, SpaceError>(SpaceError::InvalidBasePath),
        (base_paths.len() > 0 && forall|i: int| 0 <= i < base_paths.len() ==> (#[trigger] parsed_derivation_path(base_paths@[i]@)) is Some) ==> {
            if !exploration_text_is_safe(exploration_path@) || parsed_exploration_steps(exploration_path@, depth) is None {
                r == Err::<ExplorationSpace, SpaceError>(SpaceError::InvalidExplorationPath)
            } else {
                let steps = parsed_exploration_steps(exploration_path@, depth)->0;
                if steps.len() == 0 {
                    r == Err::<ExplorationSpace, SpaceError>(SpaceError::NoLevel)
                } else if exists|j: int| 0 <= j < steps.len() && step_out_of_range(#[trigger] steps[j]) {
                    r == Err::<ExplorationSpace, SpaceError>(SpaceError::IndexOutOfRange)
                } else {
                    r matches Ok(sp) && sp.wf()
                        && sp.bases_spec() == base_paths@.map_values(|b: String| parsed_derivation_path(b@)->0)
                        && sp.levels_spec() == levels_of_steps(steps)
                }
            }
        },
{
    if base_paths.len() == 0 {
        return Err(SpaceError::NoBasePath);
    }
    let mut bases: Vec<Vec<u32>> = Vec::new();
    let mut i: usize = 0;
    while i < base_paths.len()
        invariant
            i <= base_paths.len(),
            bases.len() == i,
            forall|k: int| 0 <= k < i ==> parsed_derivation_path(base_paths@[k]@) == Some((#[trigger] bases@[k])@),
        decreases base_paths.len() - i,
    {
        match parse_derivation_path(base_paths[i].as_str()) {
            Some(p) => bases.push(p),
            None => {
                proof {
                    assert(parsed_derivation_path(base_paths@[i as int]@) is None);
                }
                return Err(SpaceError::InvalidBasePath);
            },
        }
        i = i + 1;
    }
    proof {
        assert forall|k: int| 0 <= k < base_paths.len() implies (#[trigger] parsed_derivation_path(base_paths@[k]@)) is Some by {
            assert(parsed_derivation_path(base_paths@[k]@) == Some(bases@[k]@));
        }
        assert(crate::exploration::seqs_of(bases@) =~= base_paths@.map_values(|b: String| parsed_derivation_path(b@)->0));
    }
    if !is_exploration_text_safe(exploration_path) {
        return Err(SpaceError::InvalidExplorationPath);
    }
    let steps = match exploration_steps(exploration_path, depth) {
        Some(st) => st,
        None => {
            return Err(SpaceError::InvalidExplorationPath);
        },
    };
    if steps.len() == 0 {
        return Err(SpaceError::NoLevel);
    }
    let mut levels: Vec<Vec<u32>> = Vec::new();
    let mut j: usize = 0;
    while j < steps.len()
        invariant
            j <= steps.len(),
            levels.len() == j,
            base_paths.len() > 0,
            forall|k: int| 0 <= k < base_paths.len() ==> (#[trigger] parsed_derivation_path(base_paths@[k]@)) is Some,
            steps.len() > 0,
            exploration_text_is_safe(exploration_path@),
            parsed_exploration_steps(exploration_path@, depth) == Some(steps@),
            forall|k: int| 0 <= k < j ==> !step_out_of_range(#[trigger] steps@[k]),
            forall|k: int| 0 <= k < j ==> (#[trigger] levels@[k])@ == level_indices(steps@[k].0, steps@[k].1, steps@[k].2),
        decreases steps.len() - j,
    {
        let (start, end, hardness) = steps[j];
        match level_from_range(start, end, hardness) {
            Ok(level) => levels.push(level),
            Err(_) => {
                proof {
                    assert(step_out_of_range(steps@[j as int]));
                }
                return Err(SpaceError::IndexOutOfRange);
            },
        }
        j = j + 1;
    }
    proof {
        assert(crate::exploration::seqs_of(levels@) =~= levels_of_steps(steps@));
    }
    ExplorationSpace::new(bases, levels)
}

} // verus!
