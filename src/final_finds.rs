//! Numbering the hits once their details were fetched from a node.
use vstd::prelude::*;

use crate::search::ScriptTemplate;

verus! {

/// What the node reported of one hit.
#[derive(Debug, Clone, PartialEq, Eq)]
pub struct FindDetail {
    pub path: Vec<u32>,
    pub amount_in_sat: u64,
    pub descriptor: ScriptTemplate,
}

/// A hit as shown: its number from one, its path, amount and template.
#[derive(Debug, Clone, PartialEq, Eq)]
pub struct FinalFinds {
    pub result_num: u64,
    pub path: Vec<u32>,
    pub amount_in_sat: u64,
    pub descriptor: ScriptTemplate,
}

/// Why hits could not be shown.
#[derive(Debug, Clone, Copy, PartialEq, Eq, Structural)]
pub enum FindsError {
    /// No details were fetched yet.
    DetailsUnavailable,
}

impl FinalFinds {
    pub fn new(result_num: u64, details: &FindDetail) -> (r: Self)
        ensures
            r.result_num == result_num,
            r.path@ == details.path@,
            r.amount_in_sat == details.amount_in_sat,
            r.descriptor == details.descriptor,
    {
        let mut path: Vec<u32> = Vec::new();
        let mut i: usize = 0;
        while i < details.path.len()
            invariant
                i <= details.path.len(),
                path@ == details.path@.subrange(0, i as int),
            decreases details.path.len() - i,
        {
            path.push(details.path[i]);
            i = i + 1;
            proof {
                assert(path@ =~= details.path@.subrange(0, i as int));
            }
        }
        proof {
            assert(details.path@.subrange(0, details.path.len() as int) =~= details.path@);
        }
        FinalFinds {
            result_num,
            path,
            amount_in_sat: details.amount_in_sat,
            descriptor: details.descriptor,
        }
    }
}

/// Numbers the fetched details from one, in order; fails when none were
/// fetched.
pub fn create_final_finds(detailed_finds: Option<Vec<FindDetail>>) -> (r: Result<Vec<FinalFinds>, FindsError>)
    ensures
        detailed_finds is None ==> r == Err::<Vec<FinalFinds>, FindsError>(FindsError::DetailsUnavailable),
        detailed_finds matches Some(d) ==> (r matches Ok(v) && v.len() == d.len() && forall|i: int|
            0 <= i < d.len() ==> {
                &&& (#[trigger] v@[i]).result_num == i + 1
                &&& v@[i].path@ == d@[i].path@
                &&& v@[i].amount_in_sat == d@[i].amount_in_sat
                &&& v@[i].descriptor == d@[i].descriptor
            }),
{
    let details = match detailed_finds {
        None => return Err(FindsError::DetailsUnavailable),
        Some(d) => d,
    };
    let mut res: Vec<FinalFinds> = Vec::new();
    let mut i: usize = 0;
    while i < details.len()
        invariant
            i <= details.len(),
            details.len() <= usize::MAX,
            res.len() == i,
            forall|k: int|
                0 <= k < i ==> {
                    &&& (#[trigger] res@[k]).result_num == k + 1
                    &&& res@[k].path@ == details@[k].path@
                    &&& res@[k].amount_in_sat == details@[k].amount_in_sat
                    &&& res@[k].descriptor == details@[k].descriptor
                },
        decreases details.len() - i,
    {
        res.push(FinalFinds::new((i + 1) as u64, &details[i]));
        i = i + 1;
    }
    Ok(res)
}

} // verus!
