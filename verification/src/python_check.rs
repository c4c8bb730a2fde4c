//! Recommended security packages of a Python project.
use vstd::prelude::*;
use crate::text::{contains, str_contains};
use crate::unicode::{lowercase, to_lower};

verus! {

/// The packages a secure Python project should require, with what each is for.
pub open spec fn recommended_packages() -> Seq<(Seq<char>, Seq<char>)> {
    seq![
        ("defusedxml"@, "XML処理の安全化（XXE攻撃対策）"@),
        ("bandit"@, "静的解析によるセキュリティ脆弱性検出"@),
        ("pip-audit"@, "依存関係の脆弱性チェック"@),
    ]
}

/// Name and description of the `i`-th recommended package.
pub fn recommended_package(i: usize) -> (r: (&'static str, &'static str))
    requires
        i < 3,
    ensures
        r.0@ == recommended_packages()[i as int].0,
        r.1@ == recommended_packages()[i as int].1,
{
    match i {
        0 => ("defusedxml", "XML処理の安全化（XXE攻撃対策）"),
        1 => ("bandit", "静的解析によるセキュリティ脆弱性検出"),
        _ => ("pip-audit", "依存関係の脆弱性チェック"),
    }
}

/// A package counts as present when its name, lowercased, occurs in the
/// lowercased requirements.
pub open spec fn package_present(requirements: Seq<char>, package: Seq<char>) -> bool {
    contains(lowercase(requirements), lowercase(package))
}

/// For each recommended package, whether `requirements` mentions it, and
/// how many are missing.
pub fn check_requirements(requirements: &str) -> (r: (Vec<bool>, usize))
    ensures
        r.0@.len() == 3,
        forall|i: int|
            0 <= i < 3 ==> r.0@[i] == package_present(requirements@, #[trigger] recommended_packages()[i].0),
        r.1 == r.0@.filter(|b: bool| !b).len(),
{
    let lowered = to_lower(requirements);
    let mut present: Vec<bool> = Vec::new();
    let mut missing: usize = 0;
    let mut i: usize = 0;
    while i < 3
        invariant
            i <= 3,
            lowered@ == lowercase(requirements@),
            present@.len() == i,
            forall|j: int|
                0 <= j < i ==> present@[j] == package_present(requirements@, #[trigger] recommended_packages()[j].0),
            missing == present@.filter(|b: bool| !b).len(),
        decreases 3 - i,
    {
        let (name, _) = recommended_package(i);
        let lname = to_lower(name);
        let found = str_contains(lowered.as_str(), lname.as_str());
        let ghost before = present@;
        present.push(found);
        proof {
            assert(before.push(found).drop_last() =~= before);
            assert(present@ =~= before.push(found));
            reveal_with_fuel(Seq::filter, 1);
        }
        if !found {
            missing = missing + 1;
        }
        i = i + 1;
    }
    (present, missing)
}

} // verus!
