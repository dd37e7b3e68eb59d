//! Resource-file lookup: an ordered list of candidate paths for a named
//! resource, and selection of the first available candidate.
//!
//! The caller supplies the base directories (an environment override
//! first, then the executable's directory and the other install
//! locations) and reports which candidates exist on disk; the ordering
//! and selection rules live here, fully checkable with an injected
//! candidate list.

use vstd::prelude::*;

verus! {

/// Lookup rules for resource files shipped alongside the tool.
pub struct ResourceManager;

/// The three candidate paths one base directory contributes, in
/// preference order: directly in the base, in its development
/// subdirectory, and in its install subdirectory.
pub open spec fn base_candidates(base: Seq<char>, resource: Seq<char>) -> Seq<Seq<char>> {
    seq![
        base + "/"@ + resource,
        base + "/src/utils/"@ + resource,
        base + "/share/"@ + resource,
    ]
}

/// Candidates contributed by a list of base directories, in order.
pub open spec fn bases_candidates(resource: Seq<char>, bases: Seq<Seq<char>>) -> Seq<Seq<char>>
    decreases bases.len(),
{
    if bases.len() == 0 {
        Seq::empty()
    } else {
        bases_candidates(resource, bases.drop_last()) + base_candidates(bases.last(), resource)
    }
}

/// The view of an optional environment override.
pub open spec fn env_view(env_base: Option<String>) -> Option<Seq<char>> {
    match env_base {
        Some(b) => Some(b@),
        None => None,
    }
}

/// The full ordered candidate list: the environment override first, then
/// every base directory's three candidates.
pub open spec fn candidate_list_text(
    resource: Seq<char>,
    env_base: Option<Seq<char>>,
    bases: Seq<Seq<char>>,
) -> Seq<Seq<char>> {
    (match env_base {
        Some(b) => seq![b + "/"@ + resource],
        None => Seq::<Seq<char>>::empty(),
    }) + bases_candidates(resource, bases)
}

/// Append one base directory's three candidates.
fn push_base_candidates(out: &mut Vec<String>, base: &str, resource: &str)
    ensures
        final(out).deep_view() == old(out).deep_view() + base_candidates(base@, resource@),
{
    let mut p1 = String::new();
    p1.append(base);
    p1.append("/");
    p1.append(resource);
    assert(p1@ =~= base@ + "/"@ + resource@);
    let mut p2 = String::new();
    p2.append(base);
    p2.append("/src/utils/");
    p2.append(resource);
    assert(p2@ =~= base@ + "/src/utils/"@ + resource@);
    let mut p3 = String::new();
    p3.append(base);
    p3.append("/share/");
    p3.append(resource);
    assert(p3@ =~= base@ + "/share/"@ + resource@);
    out.push(p1);
    out.push(p2);
    out.push(p3);
    assert(out.deep_view() =~= old(out).deep_view() + base_candidates(base@, resource@));
}

impl ResourceManager {
    /// Build the ordered candidate list for a resource: the environment
    /// override first, then each base directory's candidates in order.
    pub fn candidate_paths(resource: &str, env_base: &Option<String>, bases: &Vec<String>) -> (r:
        Vec<String>)
        ensures
            r.deep_view() == candidate_list_text(
                resource@,
                env_view(*env_base),
                bases.deep_view(),
            ),
    {
        let mut out: Vec<String> = Vec::new();
        match env_base {
            Some(b) => {
                let mut p = String::new();
                p.append(b.as_str());
                p.append("/");
                p.append(resource);
                assert(p@ =~= b@ + "/"@ + resource@);
                out.push(p);
                assert(out.deep_view() =~= seq![b@ + "/"@ + resource@]);
            },
            None => {
                assert(out.deep_view() =~= Seq::<Seq<char>>::empty());
            },
        }
        let ghost head = out.deep_view();
        let n = bases.len();
        let mut i: usize = 0;
        assert(bases.deep_view().take(0) =~= Seq::<Seq<char>>::empty());
        assert(out.deep_view() =~= head + bases_candidates(resource@, bases.deep_view().take(0)));
        while i < n
            invariant
                n == bases.len(),
                i <= n,
                out.deep_view() == head + bases_candidates(
                    resource@,
                    bases.deep_view().take(i as int),
                ),
            decreases n - i,
        {
            push_base_candidates(&mut out, bases[i].as_str(), resource);
            proof {
                let dv = bases.deep_view();
                assert(dv.take(i + 1).drop_last() =~= dv.take(i as int));
                assert(dv.take(i + 1).last() == dv[i as int]);
                assert(dv[i as int] == bases[i as int]@);
                assert(out.deep_view() =~= head + bases_candidates(resource@, dv.take(i + 1)));
            }
            i += 1;
        }
        assert(bases.deep_view().take(n as int) =~= bases.deep_view());
        assert(out.deep_view() =~= candidate_list_text(
            resource@,
            env_view(*env_base),
            bases.deep_view(),
        ));
        out
    }

    /// Index of the first candidate that exists, scanning in order;
    /// `None` exactly when none exists.
    pub fn first_available(candidates: &Vec<String>, exists: &Vec<bool>) -> (r: Option<usize>)
        requires
            candidates@.len() == exists@.len(),
        ensures
            match r {
                Some(i) => i < candidates@.len() && exists@[i as int] && (forall|j: int|
                    0 <= j < i ==> !exists@[j]),
                None => forall|j: int| 0 <= j < exists@.len() ==> !exists@[j],
            },
    {
        let n = exists.len();
        let mut i: usize = 0;
        while i < n
            invariant
                n == exists@.len(),
                candidates@.len() == exists@.len(),
                i <= n,
                forall|j: int| 0 <= j < i ==> !exists@[j],
            decreases n - i,
        {
            if exists[i] {
                return Some(i);
            }
            i += 1;
        }
        None
    }
}

} // verus!
