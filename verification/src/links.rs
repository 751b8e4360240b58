use vstd::prelude::*;

verus! {

/// Index of the first name equal to `target`, if any.
pub fn find_by_name(names: &Vec<String>, target: &String) -> (r: Option<usize>)
    ensures
        match r {
            Some(i) => i < names@.len() && names@[i as int]@ == target@
                && forall|j: int| 0 <= j < i ==> names@[j]@ != target@,
            None => forall|j: int| 0 <= j < names@.len() ==> names@[j]@ != target@,
        },
{
    let mut i: usize = 0;
    while i < names.len()
        invariant
            i <= names@.len(),
            forall|j: int| 0 <= j < i ==> names@[j]@ != target@,
        decreases names@.len() - i,
    {
        if names[i] == *target {
            return Some(i);
        }
        i = i + 1;
    }
    None
}

/// Index of the first marked entry of a chain (an entity followed by its
/// ancestors, nearest first), if any.
pub fn first_marked(marks: &Vec<bool>) -> (r: Option<usize>)
    ensures
        match r {
            Some(i) => i < marks@.len() && marks@[i as int] && forall|j: int| 0 <= j < i ==> !marks@[j],
            None => forall|j: int| 0 <= j < marks@.len() ==> !marks@[j],
        },
{
    let mut i: usize = 0;
    while i < marks.len()
        invariant
            i <= marks@.len(),
            forall|j: int| 0 <= j < i ==> !marks@[j],
        decreases marks@.len() - i,
    {
        if marks[i] {
            return Some(i);
        }
        i = i + 1;
    }
    None
}

fn contains_id(ids: &Vec<u64>, id: u64) -> (r: bool)
    ensures
        r == ids@.contains(id),
{
    let mut i: usize = 0;
    while i < ids.len()
        invariant
            i <= ids@.len(),
            forall|j: int| 0 <= j < i ==> ids@[j] != id,
        decreases ids@.len() - i,
    {
        if ids[i] == id {
            assert(ids@[i as int] == id);
            return true;
        }
        i = i + 1;
    }
    false
}

/// The entries of `a` that are not in `b`, in order.
pub fn difference(a: &Vec<u64>, b: &Vec<u64>) -> (r: Vec<u64>)
    ensures
        r@ == a@.filter(|x: u64| !b@.contains(x)),
        forall|x: u64| r@.contains(x) <==> (a@.contains(x) && !b@.contains(x)),
{
    let ghost keep = |x: u64| !b@.contains(x);
    let mut out: Vec<u64> = Vec::new();
    let mut i: usize = 0;
    while i < a.len()
        invariant
            i <= a@.len(),
            out@ == a@.take(i as int).filter(keep),
            keep == (|x: u64| !b@.contains(x)),
        decreases a@.len() - i,
    {
        proof {
            assert(a@.take(i + 1).drop_last() =~= a@.take(i as int));
            reveal_with_fuel(Seq::<_>::filter, 1);
        }
        if !contains_id(b, a[i]) {
            out.push(a[i]);
        }
        i = i + 1;
    }
    proof {
        assert(a@.take(a@.len() as int) =~= a@);
        assert forall|x: u64| out@.contains(x) <==> (a@.contains(x) && !b@.contains(x)) by {
            if out@.contains(x) {
                a@.lemma_filter_contains_rev(keep, x);
                let k = choose|k: int| 0 <= k < out@.len() && out@[k] == x;
                a@.lemma_filter_pred(keep, k);
            }
            if a@.contains(x) && keep(x) {
                let k = choose|k: int| 0 <= k < a@.len() && a@[k] == x;
                a@.lemma_filter_contains(keep, k);
            }
        }
    }
    out
}

/// Reconciles an NPC's awareness links with its stored awareness data:
/// returns the linked objects that have no data (an inconsistency to
/// report) and the data keys that are no longer linked (to be removed).
pub fn reconcile_links(links: &Vec<u64>, data_keys: &Vec<u64>) -> (r: (Vec<u64>, Vec<u64>))
    ensures
        forall|x: u64| r.0@.contains(x) <==> (links@.contains(x) && !data_keys@.contains(x)),
        forall|x: u64| r.1@.contains(x) <==> (data_keys@.contains(x) && !links@.contains(x)),
{
    (difference(links, data_keys), difference(data_keys, links))
}

} // verus!
