use vstd::prelude::*;

verus! {

/// The set of scope names that a list of scopes holds; order and repetition do not matter.
pub open spec fn scope_set(scopes: Seq<String>) -> Set<Seq<char>> {
    Set::new(|s: Seq<char>| exists|i: int| 0 <= i < scopes.len() && #[trigger] scopes[i]@ == s)
}

/// Whether two lists of scopes name the same scope set.
pub open spec fn same_scopes(a: Seq<String>, b: Seq<String>) -> bool {
    scope_set(a) == scope_set(b)
}

/// Whether `scopes` holds the scope `s`.
pub fn contains_scope(scopes: &Vec<String>, s: &String) -> (r: bool)
    ensures
        r == scope_set(scopes@).contains(s@),
{
    let mut i: usize = 0;
    while i < scopes.len()
        invariant
            0 <= i <= scopes.len(),
            forall|j: int| 0 <= j < i ==> scopes@[j]@ != s@,
        decreases scopes.len() - i,
    {
        if scopes[i] == *s {
            assert(scopes@[i as int]@ == s@);
            return true;
        }
        i = i + 1;
    }
    false
}

/// Whether every scope of `a` is in `b`.
fn scopes_included(a: &Vec<String>, b: &Vec<String>) -> (r: bool)
    ensures
        r == scope_set(a@).subset_of(scope_set(b@)),
{
    let mut i: usize = 0;
    while i < a.len()
        invariant
            0 <= i <= a.len(),
            forall|j: int| 0 <= j < i ==> scope_set(b@).contains(#[trigger] a@[j]@),
        decreases a.len() - i,
    {
        if !contains_scope(b, &a[i]) {
            assert(scope_set(a@).contains(a@[i as int]@));
            return false;
        }
        i = i + 1;
    }
    assert forall|s: Seq<char>| scope_set(a@).contains(s) implies scope_set(b@).contains(s) by {
        let j = choose|j: int| 0 <= j < a@.len() && #[trigger] a@[j]@ == s;
    }
    true
}

/// Whether two lists of scopes name exactly the same scope set (no superset match).
pub fn same_scope_set(a: &Vec<String>, b: &Vec<String>) -> (r: bool)
    ensures
        r == same_scopes(a@, b@),
{
    let ab = scopes_included(a, b);
    let ba = scopes_included(b, a);
    if ab && ba {
        assert(scope_set(a@) =~= scope_set(b@));
        true
    } else {
        false
    }
}

/// The scopes joined by `+`, as they stand in an authorization URL.
pub open spec fn join_scopes(scopes: Seq<String>) -> Seq<char>
    decreases scopes.len(),
{
    if scopes.len() == 0 {
        Seq::empty()
    } else if scopes.len() == 1 {
        scopes[0]@
    } else {
        join_scopes(scopes.drop_last()) + "+"@ + scopes.last()@
    }
}

/// Writes the scopes joined by `+`.
pub fn scopes_param(scopes: &Vec<String>) -> (r: String)
    ensures
        r@ == join_scopes(scopes@),
{
    let mut out = String::new();
    let mut i: usize = 0;
    while i < scopes.len()
        invariant
            0 <= i <= scopes.len(),
            out@ == join_scopes(scopes@.take(i as int)),
        decreases scopes.len() - i,
    {
        proof {
            assert(scopes@.take(i + 1).drop_last() =~= scopes@.take(i as int));
        }
        if i > 0 {
            out.append("+");
        }
        out.append(scopes[i].as_str());
        i = i + 1;
    }
    assert(scopes@.take(scopes.len() as int) =~= scopes@);
    out
}

/// Copies a list of scopes.
pub fn copy_scopes(scopes: &Vec<String>) -> (r: Vec<String>)
    ensures
        r@ == scopes@,
{
    let mut out: Vec<String> = Vec::new();
    let mut i: usize = 0;
    while i < scopes.len()
        invariant
            0 <= i <= scopes.len(),
            out@ == scopes@.take(i as int),
        decreases scopes.len() - i,
    {
        out.push(scopes[i].clone());
        assert(out@ =~= scopes@.take(i + 1));
        i = i + 1;
    }
    assert(scopes@.take(scopes.len() as int) =~= scopes@);
    out
}

} // verus!
