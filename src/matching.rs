use vstd::prelude::*;

verus! {

/// The set of names that a list of registered template names holds.
pub open spec fn name_set(names: Seq<Seq<char>>) -> Set<Seq<char>> {
    names.to_set()
}

/// The last of `cands`, in their order, that `registered` holds; `None` when
/// it holds none of them.
pub open spec fn last_match(cands: Seq<Seq<char>>, registered: Set<Seq<char>>) -> Option<Seq<char>>
    decreases cands.len(),
{
    if cands.len() == 0 {
        None
    } else if registered.contains(cands.last()) {
        Some(cands.last())
    } else {
        last_match(cands.drop_last(), registered)
    }
}

/// Whether `names` holds `name`.
pub fn is_registered(name: &String, names: &Vec<String>) -> (r: bool)
    ensures
        r == name_set(names.deep_view()).contains(name@),
{
    let mut j: usize = 0;
    while j < names.len()
        invariant
            j <= names@.len(),
            forall|k: int| 0 <= k < j ==> names.deep_view()[k] != name@,
        decreases names@.len() - j,
    {
        if names[j] == *name {
            proof {
                assert(names.deep_view()[j as int] == name@);
            }
            return true;
        }
        j = j + 1;
    }
    false
}

/// Scans `cands` in order against `registered` and keeps the last one found:
/// when a path's file candidate and its directory index are both registered,
/// the directory index is chosen.
pub fn select_template(cands: &Vec<String>, registered: &Vec<String>) -> (r: Option<String>)
    ensures
        r.deep_view() == last_match(cands.deep_view(), name_set(registered.deep_view())),
{
    let ghost reg = name_set(registered.deep_view());
    let mut matched: Option<String> = None;
    let mut i: usize = 0;
    while i < cands.len()
        invariant
            i <= cands@.len(),
            reg == name_set(registered.deep_view()),
            matched.deep_view() == last_match(cands.deep_view().take(i as int), reg),
        decreases cands@.len() - i,
    {
        proof {
            let before = cands.deep_view().take(i as int);
            let after = cands.deep_view().take(i + 1);
            assert(after.drop_last() =~= before);
            assert(after.last() == cands@[i as int]@);
        }
        if is_registered(&cands[i], registered) {
            matched = Some(cands[i].clone());
        }
        i = i + 1;
    }
    proof {
        assert(cands.deep_view().take(cands@.len() as int) =~= cands.deep_view());
    }
    matched
}

} // verus!
