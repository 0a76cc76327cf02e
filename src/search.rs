//! Matching derived keys against the unspent-output set.
use vstd::prelude::*;

use crate::exploration::ExplorationSpace;
use crate::keys::{
    depth_fits, derive_public_key, derived_public_key, key_at, opt_bytes, p2pk_script, p2pk_script_of, p2pkh_script,
    p2pkh_script_of, p2shwpkh_script, p2shwpkh_script_of, p2tr_script, p2tr_script_of,
    p2wpkh_script, p2wpkh_script_of,
};
use crate::uspk_set::UnspentScriptPubKeysSet;

verus! {

/// The output-script templates that a search can try.
#[derive(Debug, Clone, Copy, PartialEq, Eq, Hash, Structural)]
pub enum ScriptTemplate {
    P2pk,
    P2pkh,
    P2wpkh,
    P2shwpkh,
    P2tr,
}

/// The script of template `t` for a public key.
pub open spec fn template_script(t: ScriptTemplate, pubkey: Seq<u8>) -> Option<Seq<u8>> {
    match t {
        ScriptTemplate::P2pk => p2pk_script(pubkey),
        ScriptTemplate::P2pkh => p2pkh_script(pubkey),
        ScriptTemplate::P2wpkh => p2wpkh_script(pubkey),
        ScriptTemplate::P2shwpkh => p2shwpkh_script(pubkey),
        ScriptTemplate::P2tr => p2tr_script(pubkey),
    }
}

/// Which templates a search tries; each is enabled on its own.
#[derive(Debug, Clone, Copy, PartialEq, Eq, Structural)]
pub struct TemplateSelection {
    pub p2pk: bool,
    pub p2pkh: bool,
    pub p2wpkh: bool,
    pub p2shwpkh: bool,
    pub p2tr: bool,
}

impl TemplateSelection {
    pub open spec fn selects(&self, t: ScriptTemplate) -> bool {
        match t {
            ScriptTemplate::P2pk => self.p2pk,
            ScriptTemplate::P2pkh => self.p2pkh,
            ScriptTemplate::P2wpkh => self.p2wpkh,
            ScriptTemplate::P2shwpkh => self.p2shwpkh,
            ScriptTemplate::P2tr => self.p2tr,
        }
    }
}

/// A hit: a candidate path whose script of one template is in the set.
#[derive(Debug, Clone, PartialEq, Eq)]
pub struct PathDescriptorPair {
    pub path: Vec<u32>,
    pub descriptor: ScriptTemplate,
}

impl View for PathDescriptorPair {
    type V = (Seq<u32>, ScriptTemplate);

    open spec fn view(&self) -> (Seq<u32>, ScriptTemplate) {
        (self.path@, self.descriptor)
    }
}

/// The views of a sequence of hits.
pub open spec fn pairs_view(v: Seq<PathDescriptorPair>) -> Seq<(Seq<u32>, ScriptTemplate)> {
    v.map_values(|p: PathDescriptorPair| p@)
}

/// Why a search failed.
#[derive(Debug, Clone, Copy, PartialEq, Eq, Structural)]
pub enum SearchError {
    /// No key could be derived at a candidate path.
    DerivationFailed,
    /// The number of candidate paths does not fit in a `u64`.
    TooManyPaths,
}

/// The scripts built for one public key: one per template, `None` where the
/// template is not selected or its script could not be built.
pub struct CandidateScripts {
    pub p2pk: Option<Vec<u8>>,
    pub p2pkh: Option<Vec<u8>>,
    pub p2wpkh: Option<Vec<u8>>,
    pub p2shwpkh: Option<Vec<u8>>,
    pub p2tr: Option<Vec<u8>>,
}

impl CandidateScripts {
    pub open spec fn script_spec(&self, t: ScriptTemplate) -> Option<Seq<u8>> {
        match t {
            ScriptTemplate::P2pk => opt_bytes(self.p2pk),
            ScriptTemplate::P2pkh => opt_bytes(self.p2pkh),
            ScriptTemplate::P2wpkh => opt_bytes(self.p2wpkh),
            ScriptTemplate::P2shwpkh => opt_bytes(self.p2shwpkh),
            ScriptTemplate::P2tr => opt_bytes(self.p2tr),
        }
    }
}

/// The script that is tried for template `t`, for a public key.
pub open spec fn selected_script(sel: TemplateSelection, t: ScriptTemplate, pubkey: Seq<u8>) -> Option<Seq<u8>> {
    if sel.selects(t) {
        template_script(t, pubkey)
    } else {
        None
    }
}

/// The hit of template `t`, if its script is in the set.
pub open spec fn hit(path: Seq<u32>, t: ScriptTemplate, script: Option<Seq<u8>>, set: Set<Seq<u8>>) -> Seq<(Seq<u32>, ScriptTemplate)> {
    match script {
        Some(s) => if set.contains(s) {
            seq![(path, t)]
        } else {
            Seq::empty()
        },
        None => Seq::empty(),
    }
}

/// The hits of one path, given the script tried for each template, in the
/// fixed template order.
pub open spec fn hits_of(
    path: Seq<u32>,
    scripts: spec_fn(ScriptTemplate) -> Option<Seq<u8>>,
    set: Set<Seq<u8>>,
) -> Seq<(Seq<u32>, ScriptTemplate)> {
    hit(path, ScriptTemplate::P2pk, scripts(ScriptTemplate::P2pk), set)
        + hit(path, ScriptTemplate::P2pkh, scripts(ScriptTemplate::P2pkh), set)
        + hit(path, ScriptTemplate::P2wpkh, scripts(ScriptTemplate::P2wpkh), set)
        + hit(path, ScriptTemplate::P2shwpkh, scripts(ScriptTemplate::P2shwpkh), set)
        + hit(path, ScriptTemplate::P2tr, scripts(ScriptTemplate::P2tr), set)
}

/// The hits of one path whose public key is `pubkey`.
pub open spec fn path_matches(
    path: Seq<u32>,
    pubkey: Seq<u8>,
    sel: TemplateSelection,
    set: Set<Seq<u8>>,
) -> Seq<(Seq<u32>, ScriptTemplate)> {
    hits_of(path, |t: ScriptTemplate| selected_script(sel, t, pubkey), set)
}

/// The outcome of trying every path of `paths` in order: all their hits, or
/// the failure of the first path at which no key could be derived.
pub open spec fn search_outcome(
    master: Seq<u8>,
    paths: Seq<Seq<u32>>,
    sel: TemplateSelection,
    set: Set<Seq<u8>>,
) -> Result<Seq<(Seq<u32>, ScriptTemplate)>, SearchError>
    decreases paths.len(),
{
    if paths.len() == 0 {
        Ok(Seq::empty())
    } else {
        match search_outcome(master, paths.drop_last(), sel, set) {
            Err(e) => Err(e),
            Ok(prev) => match key_at(master, paths.last()) {
                None => Err(SearchError::DerivationFailed),
                Some(k) => Ok(prev + path_matches(paths.last(), k, sel, set)),
            },
        }
    }
}

fn push_hit(
    out: &mut Vec<PathDescriptorPair>,
    path: &Vec<u32>,
    t: ScriptTemplate,
    script: &Option<Vec<u8>>,
    set: &UnspentScriptPubKeysSet,
)
    ensures
        pairs_view(final(out)@) == pairs_view(old(out)@) + hit(path@, t, opt_bytes(*script), set@),
{
    match script {
        Some(s) => {
            if set.contains(s.as_slice()) {
                out.push(PathDescriptorPair { path: path.clone(), descriptor: t });
                proof {
                    assert(pairs_view(final(out)@) =~= pairs_view(old(out)@) + hit(path@, t, opt_bytes(*script), set@));
                }
            } else {
                proof {
                    assert(pairs_view(final(out)@) =~= pairs_view(old(out)@) + hit(path@, t, opt_bytes(*script), set@));
                }
            }
        },
        None => {
            proof {
                assert(pairs_view(final(out)@) =~= pairs_view(old(out)@) + hit(path@, t, opt_bytes(*script), set@));
            }
        },
    }
}

/// The hits of `path` among the scripts built for its key: in template
/// order, each template whose script is in the set.
pub fn matches_of_scripts(
    path: &Vec<u32>,
    scripts: &CandidateScripts,
    set: &UnspentScriptPubKeysSet,
) -> (r: Vec<PathDescriptorPair>)
    ensures
        pairs_view(r@) == hits_of(path@, |t: ScriptTemplate| scripts.script_spec(t), set@),
{
    let mut out: Vec<PathDescriptorPair> = Vec::new();
    proof {
        assert(pairs_view(out@) =~= Seq::empty());
    }
    push_hit(&mut out, path, ScriptTemplate::P2pk, &scripts.p2pk, set);
    push_hit(&mut out, path, ScriptTemplate::P2pkh, &scripts.p2pkh, set);
    push_hit(&mut out, path, ScriptTemplate::P2wpkh, &scripts.p2wpkh, set);
    push_hit(&mut out, path, ScriptTemplate::P2shwpkh, &scripts.p2shwpkh, set);
    push_hit(&mut out, path, ScriptTemplate::P2tr, &scripts.p2tr, set);
    proof {
        let f = |t: ScriptTemplate| scripts.script_spec(t);
        assert(pairs_view(out@) =~= hits_of(path@, f, set@));
    }
    out
}

/// Builds, for a public key, the script of every selected template.
pub fn candidate_scripts(pubkey: &Vec<u8>, sel: &TemplateSelection) -> (r: CandidateScripts)
    ensures
        forall|t: ScriptTemplate| #[trigger] r.script_spec(t) == selected_script(*sel, t, pubkey@),
{
    let k = pubkey.as_slice();
    CandidateScripts {
        p2pk: if sel.p2pk { p2pk_script_of(k) } else { None },
        p2pkh: if sel.p2pkh { p2pkh_script_of(k) } else { None },
        p2wpkh: if sel.p2wpkh { p2wpkh_script_of(k) } else { None },
        p2shwpkh: if sel.p2shwpkh { p2shwpkh_script_of(k) } else { None },
        p2tr: if sel.p2tr { p2tr_script_of(k) } else { None },
    }
}

/// Derives the key of one candidate path from the master key (its BIP32
/// serialisation), builds the selected scripts, and returns the hits. A path
/// that would take the key deeper than depth 255 fails like any other
/// derivation.
pub fn process_derivation_path(
    master: &Vec<u8>,
    path: &Vec<u32>,
    sel: &TemplateSelection,
    set: &UnspentScriptPubKeysSet,
) -> (r: Result<Vec<PathDescriptorPair>, SearchError>)
    ensures
        !depth_fits(master@, path@) ==> r == Err::<Vec<PathDescriptorPair>, SearchError>(
            SearchError::DerivationFailed,
        ),
        key_at(master@, path@) is None ==> r == Err::<Vec<PathDescriptorPair>, SearchError>(
            SearchError::DerivationFailed,
        ),
        key_at(master@, path@) matches Some(k) ==> (r matches Ok(v) && pairs_view(v@)
            == path_matches(path@, k, *sel, set@)),
{
    if master.len() == 78 && path.len() > 255 - master[4] as usize {
        return Err(SearchError::DerivationFailed);
    }
    match derive_public_key(master.as_slice(), path.as_slice()) {
        None => Err(SearchError::DerivationFailed),
        Some(pubkey) => {
            let scripts = candidate_scripts(&pubkey, sel);
            let r = matches_of_scripts(path, &scripts, set);
            proof {
                let f = |t: ScriptTemplate| scripts.script_spec(t);
                let g = |t: ScriptTemplate| selected_script(*sel, t, pubkey@);
                assert(f == g) by {
                    assert forall|t: ScriptTemplate| #[trigger] f(t) == g(t) by {
                        assert(scripts.script_spec(t) == selected_script(*sel, t, pubkey@));
                    }
                    assert(f =~= g);
                }
            }
            Ok(r)
        },
    }
}

/// Deriving the same candidate path twice from the same master key gives
/// the same public key, the same scripts, and so the same hits.
pub proof fn lemma_derivation_is_deterministic(
    master: Seq<u8>,
    path: Seq<u32>,
    sel: TemplateSelection,
    set: Set<Seq<u8>>,
    first: CandidateScripts,
    second: CandidateScripts,
)
    requires
        key_at(master, path) is Some,
        forall|t: ScriptTemplate| #[trigger] first.script_spec(t) == selected_script(sel, t, key_at(master, path)->0),
        forall|t: ScriptTemplate| #[trigger] second.script_spec(t) == selected_script(sel, t, key_at(master, path)->0),
    ensures
        forall|t: ScriptTemplate| #[trigger] first.script_spec(t) == second.script_spec(t),
        hits_of(path, |t: ScriptTemplate| first.script_spec(t), set) == hits_of(path, |t: ScriptTemplate| second.script_spec(t), set),
{
    let f = |t: ScriptTemplate| first.script_spec(t);
    let g = |t: ScriptTemplate| second.script_spec(t);
    assert forall|t: ScriptTemplate| #[trigger] f(t) == g(t) by {
        assert(first.script_spec(t) == second.script_spec(t));
    }
    assert(f =~= g);
}

/// `tokio_util::sync::CancellationToken`, carried as it is.
#[verifier::external_type_specification]
#[verifier::external_body]
pub struct ExCancellationToken(tokio_util::sync::CancellationToken);

/// Relies on `CancellationToken::is_cancelled`: whether some holder has
/// cancelled the token; another task may cancel it at any time, so nothing
/// is promised of the answer.
pub assume_specification[ tokio_util::sync::CancellationToken::is_cancelled ](
    token: &tokio_util::sync::CancellationToken,
) -> bool;

/// One step of a search: the `i`-th candidate path, unless the search was
/// cancelled. `None` means "go on with the next path"; otherwise the search
/// ends with the result given: no hit at all once cancelled, or the failure
/// of a derivation.
pub fn search_step(
    space: &ExplorationSpace,
    sel: &TemplateSelection,
    master: &Vec<u8>,
    set: &UnspentScriptPubKeysSet,
    i: u64,
    finds: &mut Vec<PathDescriptorPair>,
    cancelled: bool,
) -> (r: Option<Result<Vec<PathDescriptorPair>, SearchError>>)
    requires
        space.wf(),
        i < space.size_spec(),
    ensures
        cancelled ==> (r matches Some(Ok(v)) && v@.len() == 0),
        !cancelled && key_at(master@, space.paths_spec()[i as int]) is None ==> (r matches Some(Err(e))
            && e == SearchError::DerivationFailed),
        !cancelled ==> (key_at(master@, space.paths_spec()[i as int]) matches Some(k) ==> r is None
            && pairs_view(final(finds)@) == pairs_view(old(finds)@) + path_matches(
            space.paths_spec()[i as int],
            k,
            *sel,
            set@,
        )),
{
    if cancelled {
        return Some(Ok(Vec::new()));
    }
    let path = space.path_at(i);
    match process_derivation_path(master, &path, sel, set) {
        Err(e) => Some(Err(e)),
        Ok(mut hits) => {
            let ghost before = pairs_view(finds@);
            let ghost added = pairs_view(hits@);
            finds.append(&mut hits);
            proof {
                assert(pairs_view(finds@) =~= before + added);
            }
            None
        },
    }
}

/// Gathers the hits of every candidate path of the space, in order; fails
/// at the first path whose key cannot be derived.
pub fn search_paths(
    space: &ExplorationSpace,
    sel: &TemplateSelection,
    master: &Vec<u8>,
    set: &UnspentScriptPubKeysSet,
) -> (r: Result<Vec<PathDescriptorPair>, SearchError>)
    requires
        space.wf(),
    ensures
        space.size_spec() > u64::MAX ==> r == Err::<Vec<PathDescriptorPair>, SearchError>(
            SearchError::TooManyPaths,
        ),
        space.size_spec() <= u64::MAX ==> match (
            r,
            search_outcome(master@, space.paths_spec(), *sel, set@),
        ) {
            (Ok(v), Ok(w)) => pairs_view(v@) == w,
            (Err(e), Err(f)) => e == f,
            _ => false,
        },
{
    search_until_cancelled(space, sel, master, set, None)
}

/// Tries every candidate path of the space in order and gathers the hits.
/// The cancellation token is checked before each path: once it is
/// cancelled the search gives up and returns no hit at all.
pub fn search_the_uspk_set(
    space: &ExplorationSpace,
    sel: &TemplateSelection,
    master: &Vec<u8>,
    set: &UnspentScriptPubKeysSet,
    cancellation_token: &tokio_util::sync::CancellationToken,
) -> (r: Result<Vec<PathDescriptorPair>, SearchError>)
    requires
        space.wf(),
    ensures
        space.size_spec() > u64::MAX ==> r == Err::<Vec<PathDescriptorPair>, SearchError>(
            SearchError::TooManyPaths,
        ),
        space.size_spec() <= u64::MAX ==> (r matches Ok(v) && v@.len() == 0) || match (
            r,
            search_outcome(master@, space.paths_spec(), *sel, set@),
        ) {
            (Ok(v), Ok(w)) => pairs_view(v@) == w,
            (Err(e), Err(f)) => e == f,
            _ => false,
        },
{
    search_until_cancelled(space, sel, master, set, Some(cancellation_token))
}

/// The search loop: each path is one `search_step`, told whether the token
/// (if any) is cancelled.
fn search_until_cancelled(
    space: &ExplorationSpace,
    sel: &TemplateSelection,
    master: &Vec<u8>,
    set: &UnspentScriptPubKeysSet,
    cancellation_token: Option<&tokio_util::sync::CancellationToken>,
) -> (r: Result<Vec<PathDescriptorPair>, SearchError>)
    requires
        space.wf(),
    ensures
        space.size_spec() > u64::MAX ==> r == Err::<Vec<PathDescriptorPair>, SearchError>(
            SearchError::TooManyPaths,
        ),
        space.size_spec() <= u64::MAX ==> (cancellation_token is Some && (r matches Ok(v) && v@.len() == 0)) || match (
            r,
            search_outcome(master@, space.paths_spec(), *sel, set@),
        ) {
            (Ok(v), Ok(w)) => pairs_view(v@) == w,
            (Err(e), Err(f)) => e == f,
            _ => false,
        },
{
    let total = match space.total_paths() {
        None => return Err(SearchError::TooManyPaths),
        Some(n) => n,
    };
    let ghost paths = space.paths_spec();
    let mut finds: Vec<PathDescriptorPair> = Vec::new();
    let mut i: u64 = 0;
    proof {
        assert(paths.subrange(0, 0) =~= Seq::<Seq<u32>>::empty());
        assert(pairs_view(finds@) =~= Seq::empty());
    }
    while i < total
        invariant
            space.wf(),
            total == space.size_spec(),
            paths == space.paths_spec(),
            paths.len() == total,
            i <= total,
            search_outcome(master@, paths.subrange(0, i as int), *sel, set@) == Ok::<Seq<(Seq<u32>, ScriptTemplate)>, SearchError>(pairs_view(finds@)),
        decreases total - i,
    {
        let cancelled = match cancellation_token {
            Some(t) => t.is_cancelled(),
            None => false,
        };
        let ghost prefix = paths.subrange(0, i as int + 1);
        proof {
            assert(prefix.drop_last() =~= paths.subrange(0, i as int));
            assert(prefix.last() == paths[i as int]);
        }
        match search_step(space, sel, master, set, i, &mut finds, cancelled) {
            Some(done) => {
                proof {
                    if !cancelled {
                        lemma_outcome_error_stays(master@, paths, *sel, set@, i as int + 1);
                    }
                }
                return done;
            },
            None => {
                i = i + 1;
            },
        }
    }
    proof {
        assert(paths.subrange(0, total as int) =~= paths);
    }
    Ok(finds)
}

/// Once a prefix of the paths fails, every longer prefix fails the same way.
proof fn lemma_outcome_error_stays(
    master: Seq<u8>,
    paths: Seq<Seq<u32>>,
    sel: TemplateSelection,
    set: Set<Seq<u8>>,
    k: int,
)
    requires
        0 <= k <= paths.len(),
        search_outcome(master, paths.subrange(0, k), sel, set) is Err,
    ensures
        search_outcome(master, paths, sel, set) == search_outcome(master, paths.subrange(0, k), sel, set),
    decreases paths.len() - k,
{
    if k == paths.len() {
        assert(paths.subrange(0, k) =~= paths);
    } else {
        let next = paths.subrange(0, k + 1);
        assert(next.drop_last() =~= paths.subrange(0, k));
        lemma_outcome_error_stays(master, paths, sel, set, k + 1);
    }
}

} // verus!
