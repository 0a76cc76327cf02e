use bitcoin::bip32::{ChildNumber, Xpriv};
use bitcoin::secp256k1::Secp256k1;
use seed_retriever::exploration::{level_from_range, ExplorationSpace, SpaceError, StepHardness, HARDENED_OFFSET};
use seed_retriever::loader::populate_from_scripts;
use seed_retriever::search::{
    process_derivation_path, search_paths, search_step, search_the_uspk_set, PathDescriptorPair, ScriptTemplate, SearchError,
    TemplateSelection,
};
use seed_retriever::uspk_set::UspkSetStatus;
use tokio_util::sync::CancellationToken;

fn master_key() -> Vec<u8> {
    let seed = [7u8; 64];
    Xpriv::new_master(bitcoin::Network::Bitcoin, &seed).unwrap().encode().to_vec()
}

fn pubkey_at(path: &[u32]) -> bitcoin::secp256k1::PublicKey {
    let secp = Secp256k1::new();
    let master = Xpriv::decode(&master_key()).unwrap();
    let path: Vec<ChildNumber> = path.iter().map(|n| ChildNumber::from(*n)).collect();
    master.derive_priv(&secp, &path).unwrap().to_keypair(&secp).public_key()
}

fn p2pkh_script_at(path: &[u32]) -> Vec<u8> {
    let pk = pubkey_at(path);
    miniscript::Descriptor::new_pkh(pk).unwrap().script_pubkey().to_bytes()
}

fn only(p2pk: bool, p2pkh: bool, p2wpkh: bool, p2shwpkh: bool, p2tr: bool) -> TemplateSelection {
    TemplateSelection { p2pk, p2pkh, p2wpkh, p2shwpkh, p2tr }
}

fn space(bases: Vec<Vec<u32>>, levels: Vec<Vec<u32>>) -> ExplorationSpace {
    ExplorationSpace::new(bases, levels).ok().unwrap()
}

#[test]
fn p2pkh_script_of_m_0_0_is_found_once() {
    let set = populate_from_scripts(vec![p2pkh_script_at(&[0, 0])]);
    let sp = space(vec![vec![0]], vec![vec![0]]);
    let token = CancellationToken::new();
    let finds = search_the_uspk_set(&sp, &only(false, true, false, false, false), &master_key(), &set, &token)
        .ok()
        .unwrap();
    assert_eq!(finds, vec![PathDescriptorPair { path: vec![0, 0], descriptor: ScriptTemplate::P2pkh }]);
}

#[test]
fn other_templates_do_not_match_a_p2pkh_script() {
    let set = populate_from_scripts(vec![p2pkh_script_at(&[0, 0])]);
    let sp = space(vec![vec![0]], vec![vec![0]]);
    let token = CancellationToken::new();
    let finds = search_the_uspk_set(&sp, &only(true, false, true, false, false), &master_key(), &set, &token)
        .ok()
        .unwrap();
    assert!(finds.is_empty());
}

#[test]
fn all_templates_find_the_p2pkh_hit_among_many_paths() {
    let set = populate_from_scripts(vec![p2pkh_script_at(&[1, 2]), vec![0x51]]);
    let sp = space(vec![vec![0], vec![1]], vec![vec![0, 1, 2]]);
    let token = CancellationToken::new();
    let finds = search_the_uspk_set(&sp, &only(true, true, true, true, true), &master_key(), &set, &token)
        .ok()
        .unwrap();
    assert_eq!(finds, vec![PathDescriptorPair { path: vec![1, 2], descriptor: ScriptTemplate::P2pkh }]);
}

#[test]
fn three_bases_by_two_by_three_levels_give_eighteen_paths() {
    let sp = space(vec![vec![44 + HARDENED_OFFSET], vec![49 + HARDENED_OFFSET], vec![84 + HARDENED_OFFSET]], vec![
        vec![0, 1],
        vec![0, 1, 2],
    ]);
    assert_eq!(sp.total_paths(), Some(18));
    let paths = sp.generate_paths().unwrap();
    assert_eq!(paths.len(), 18);
    for i in 0..paths.len() {
        for j in 0..i {
            assert_ne!(paths[i], paths[j]);
        }
    }
    assert_eq!(paths[0], vec![44 + HARDENED_OFFSET, 0, 0]);
    assert_eq!(paths[1], vec![49 + HARDENED_OFFSET, 0, 0]);
    assert_eq!(paths[3], vec![44 + HARDENED_OFFSET, 0, 1]);
    assert_eq!(paths[17], vec![84 + HARDENED_OFFSET, 1, 2]);
    let master = master_key();
    let set = populate_from_scripts(vec![]);
    let mut derived = 0;
    for p in paths.iter() {
        assert!(process_derivation_path(&master, p, &only(true, true, true, true, true), &set).is_ok());
        derived += 1;
    }
    assert_eq!(derived, 18);
}

#[test]
fn total_count_matches_generation_with_sparse_levels() {
    let sp = space(vec![vec![0], vec![5, 6]], vec![vec![3, 9, 27], vec![100], vec![2, 4]]);
    assert_eq!(sp.total_paths(), Some(12));
    let paths = sp.generate_paths().unwrap();
    assert_eq!(paths.len(), 12);
    assert_eq!(paths[11], vec![5, 6, 27, 100, 4]);
    assert_eq!(sp.path_at(4), vec![0, 9, 100, 2]);
}

#[test]
fn empty_level_gives_no_path_and_no_error() {
    let sp = space(vec![vec![0]], vec![vec![0, 1], vec![]]);
    assert_eq!(sp.total_paths(), Some(0));
    assert_eq!(sp.generate_paths().unwrap().len(), 0);
    let set = populate_from_scripts(vec![p2pkh_script_at(&[0, 0])]);
    let token = CancellationToken::new();
    let finds = search_the_uspk_set(&sp, &only(true, true, true, true, true), &master_key(), &set, &token);
    assert_eq!(finds, Ok(vec![]));
}

#[test]
fn too_many_paths_is_reported() {
    let big: Vec<u32> = (0..65536u32).collect();
    let sp = space(vec![vec![0], vec![1]], vec![big.clone(), big.clone(), big.clone(), big]);
    assert_eq!(sp.total_paths(), None);
    let set = populate_from_scripts(vec![]);
    let token = CancellationToken::new();
    let r = search_the_uspk_set(&sp, &only(true, false, false, false, false), &master_key(), &set, &token);
    assert_eq!(r, Err(SearchError::TooManyPaths));
}

#[test]
fn space_needs_a_base_and_a_level() {
    assert!(matches!(ExplorationSpace::new(vec![], vec![vec![0]]), Err(SpaceError::NoBasePath)));
    assert!(matches!(ExplorationSpace::new(vec![vec![]], vec![]), Err(SpaceError::NoLevel)));
}

#[test]
fn cancelled_search_returns_nothing() {
    let set = populate_from_scripts(vec![p2pkh_script_at(&[0, 0])]);
    let sp = space(vec![vec![0]], vec![vec![0]]);
    let token = CancellationToken::new();
    token.cancel();
    let finds = search_the_uspk_set(&sp, &only(false, true, false, false, false), &master_key(), &set, &token);
    assert_eq!(finds, Ok(vec![]));
}

#[test]
fn deriving_twice_gives_the_same_hits() {
    let set = populate_from_scripts(vec![p2pkh_script_at(&[3])]);
    let sel = only(true, true, true, true, true);
    let a = process_derivation_path(&master_key(), &vec![3], &sel, &set);
    let b = process_derivation_path(&master_key(), &vec![3], &sel, &set);
    assert_eq!(a, b);
    assert_eq!(a, Ok(vec![PathDescriptorPair { path: vec![3], descriptor: ScriptTemplate::P2pkh }]));
}

#[test]
fn a_malformed_master_key_fails_derivation() {
    let set = populate_from_scripts(vec![]);
    let r = process_derivation_path(&vec![1, 2, 3], &vec![0], &only(true, false, false, false, false), &set);
    assert_eq!(r, Err(SearchError::DerivationFailed));
}

#[test]
fn loaded_set_holds_every_script() {
    let scripts = vec![vec![1u8, 2], vec![3u8], vec![4u8, 5, 6]];
    let set = populate_from_scripts(scripts.clone());
    assert_eq!(set.get_status(), UspkSetStatus::Ready);
    assert_eq!(set.len(), 3);
    for s in scripts.iter() {
        assert!(set.contains(s));
    }
    assert!(!set.contains(&[9u8]));
    assert!(!set.is_empty());
}

#[test]
fn duplicate_scripts_are_held_once() {
    let set = populate_from_scripts(vec![vec![1u8], vec![1u8], vec![2u8]]);
    assert_eq!(set.len(), 2);
}

#[test]
fn levels_from_ranges() {
    assert_eq!(level_from_range(0, 2, StepHardness::Normal), Ok(vec![0, 1, 2]));
    assert_eq!(
        level_from_range(1, 2, StepHardness::Hardened),
        Ok(vec![1 + HARDENED_OFFSET, 2 + HARDENED_OFFSET])
    );
    assert_eq!(
        level_from_range(0, 1, StepHardness::HardenedAndNormal),
        Ok(vec![HARDENED_OFFSET, 1 + HARDENED_OFFSET, 0, 1])
    );
    assert_eq!(level_from_range(3, 2, StepHardness::Normal), Ok(vec![]));
    assert_eq!(level_from_range(0, HARDENED_OFFSET, StepHardness::Normal), Err(SpaceError::IndexOutOfRange));
}

#[test]
fn base_m_with_two_single_index_levels_reaches_m_0_0() {
    let set = populate_from_scripts(vec![p2pkh_script_at(&[0, 0])]);
    let sp = space(vec![vec![]], vec![vec![0], vec![0]]);
    let token = CancellationToken::new();
    let finds = search_the_uspk_set(&sp, &only(false, true, false, false, false), &master_key(), &set, &token)
        .ok()
        .unwrap();
    assert_eq!(finds, vec![PathDescriptorPair { path: vec![0, 0], descriptor: ScriptTemplate::P2pkh }]);
}

#[test]
fn every_template_hits_its_own_script_in_order() {
    let pk = pubkey_at(&[5, HARDENED_OFFSET + 1]);
    let scripts = vec![
        miniscript::Descriptor::new_tr(pk, None).unwrap().script_pubkey().to_bytes(),
        miniscript::Descriptor::new_pk(pk).script_pubkey().to_bytes(),
        miniscript::Descriptor::new_sh_wpkh(pk).unwrap().script_pubkey().to_bytes(),
        miniscript::Descriptor::new_wpkh(pk).unwrap().script_pubkey().to_bytes(),
        miniscript::Descriptor::new_pkh(pk).unwrap().script_pubkey().to_bytes(),
    ];
    let set = populate_from_scripts(scripts);
    let path = vec![5, HARDENED_OFFSET + 1];
    let all = process_derivation_path(&master_key(), &path, &only(true, true, true, true, true), &set);
    let expected: Vec<PathDescriptorPair> = [
        ScriptTemplate::P2pk,
        ScriptTemplate::P2pkh,
        ScriptTemplate::P2wpkh,
        ScriptTemplate::P2shwpkh,
        ScriptTemplate::P2tr,
    ]
    .iter()
    .map(|t| PathDescriptorPair { path: path.clone(), descriptor: *t })
    .collect();
    assert_eq!(all, Ok(expected));
    let some = process_derivation_path(&master_key(), &path, &only(false, false, true, false, true), &set);
    assert_eq!(
        some,
        Ok(vec![
            PathDescriptorPair { path: path.clone(), descriptor: ScriptTemplate::P2wpkh },
            PathDescriptorPair { path: path.clone(), descriptor: ScriptTemplate::P2tr },
        ])
    );
    let other = process_derivation_path(&master_key(), &vec![5, 1], &only(true, true, true, true, true), &set);
    assert_eq!(other, Ok(vec![]));
}

#[test]
fn full_search_finds_the_one_p2pkh_hit() {
    let set = populate_from_scripts(vec![p2pkh_script_at(&[0, 0])]);
    let sp = space(vec![vec![0]], vec![vec![0]]);
    let finds = search_paths(&sp, &only(false, true, false, false, false), &master_key(), &set);
    assert_eq!(finds, Ok(vec![PathDescriptorPair { path: vec![0, 0], descriptor: ScriptTemplate::P2pkh }]));
    let none = search_paths(&sp, &only(true, false, true, false, false), &master_key(), &set);
    assert_eq!(none, Ok(vec![]));
}

#[test]
fn a_cancelled_step_ends_the_search_with_nothing() {
    let set = populate_from_scripts(vec![p2pkh_script_at(&[0, 0])]);
    let sp = space(vec![vec![0]], vec![vec![0]]);
    let sel = only(false, true, false, false, false);
    let mut finds = vec![];
    assert_eq!(search_step(&sp, &sel, &master_key(), &set, 0, &mut finds, true), Some(Ok(vec![])));
    assert!(finds.is_empty());
    assert_eq!(search_step(&sp, &sel, &master_key(), &set, 0, &mut finds, false), None);
    assert_eq!(finds, vec![PathDescriptorPair { path: vec![0, 0], descriptor: ScriptTemplate::P2pkh }]);
}

#[test]
fn derivation_deeper_than_depth_255_fails() {
    let set = populate_from_scripts(vec![]);
    let sel = only(true, false, false, false, false);
    let mut deep = master_key();
    deep[4] = 255;
    assert_eq!(process_derivation_path(&deep, &vec![0], &sel, &set), Err(SearchError::DerivationFailed));
    assert!(process_derivation_path(&deep, &vec![], &sel, &set).is_ok());
    let long: Vec<u32> = vec![1; 256];
    assert_eq!(process_derivation_path(&master_key(), &long, &sel, &set), Err(SearchError::DerivationFailed));
    let longest: Vec<u32> = vec![1; 255];
    assert!(process_derivation_path(&master_key(), &longest, &sel, &set).is_ok());
    let sp = space(vec![vec![1; 255]], vec![vec![0]]);
    assert_eq!(search_paths(&sp, &sel, &master_key(), &set), Err(SearchError::DerivationFailed));
}
