use seed_retriever::final_finds::{create_final_finds, FindDetail, FindsError};
use seed_retriever::search::ScriptTemplate;

#[test]
fn finds_are_numbered_from_one() {
    let details = vec![
        FindDetail { path: vec![0, 1], amount_in_sat: 500, descriptor: ScriptTemplate::P2wpkh },
        FindDetail { path: vec![2], amount_in_sat: 7, descriptor: ScriptTemplate::P2tr },
    ];
    let finds = create_final_finds(Some(details)).unwrap();
    assert_eq!(finds.len(), 2);
    assert_eq!(finds[0].result_num, 1);
    assert_eq!(finds[1].result_num, 2);
    assert_eq!(finds[1].path, vec![2]);
    assert_eq!(finds[0].amount_in_sat, 500);
    assert_eq!(finds[1].descriptor, ScriptTemplate::P2tr);
}

#[test]
fn finds_need_details() {
    assert_eq!(create_final_finds(None), Err(FindsError::DetailsUnavailable));
}
