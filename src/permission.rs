use vstd::prelude::*;

use crate::model::Group;

verus! {

/// The permission marker that makes its holder a root user.
pub open spec fn root_marker() -> Seq<char> {
    seq!['r', 'o', 'o', 't']
}

/// The permission marker that makes its holder an administrator.
pub open spec fn admin_marker() -> Seq<char> {
    seq!['a', 'd', 'm', 'i', 'n']
}

/// `p` is one of the permissions in `held`.
pub open spec fn holds(held: Seq<String>, p: Seq<char>) -> bool {
    exists|i: int| 0 <= i < held.len() && #[trigger] held[i]@ == p
}

/// No permission occurs twice in `held`.
pub open spec fn no_duplicates(held: Seq<String>) -> bool {
    forall|i: int, j: int| 0 <= i < j < held.len() ==> held[i]@ != held[j]@
}

/// `held` carries one of the superuser markers.
pub open spec fn is_superuser(held: Seq<String>) -> bool {
    holds(held, root_marker()) || holds(held, admin_marker())
}

/// `required` is granted to the holder of `held`: it is held outright, or
/// the holder is a superuser.
pub open spec fn granted(held: Seq<String>, required: Seq<char>) -> bool {
    holds(held, required) || is_superuser(held)
}

/// `held` grants at least one of `wanted`: one of them is held outright, or
/// the holder is a superuser.
pub open spec fn granted_any(held: Seq<String>, wanted: Seq<Seq<char>>) -> bool {
    (exists|k: int| 0 <= k < wanted.len() && holds(held, #[trigger] wanted[k])) || is_superuser(held)
}

/// `p` is held by at least one of `groups`.
pub open spec fn held_by_some(groups: Seq<Group>, p: Seq<char>) -> bool {
    exists|k: int| 0 <= k < groups.len() && holds(#[trigger] groups[k].permissions@, p)
}

/// Whether `p` is one of the permissions in `held`.
pub fn contains_permission(held: &Vec<String>, p: &str) -> (r: bool)
    ensures
        r == holds(held@, p@),
{
    let wanted = p.to_owned();
    let mut i: usize = 0;
    while i < held.len()
        invariant
            i <= held@.len(),
            wanted@ == p@,
            forall|k: int| 0 <= k < i ==> held@[k]@ != p@,
        decreases held@.len() - i,
    {
        if held[i] == wanted {
            assert(held@[i as int]@ == p@);
            return true;
        }
        i = i + 1;
    }
    false
}

/// Whether `held` makes its holder a root user.
pub fn holds_root(held: &Vec<String>) -> (r: bool)
    ensures
        r == holds(held@, root_marker()),
{
    proof {
        reveal_strlit("root");
        assert("root"@ =~= root_marker());
    }
    contains_permission(held, "root")
}

/// Whether `held` makes its holder an administrator: the admin marker, or
/// root, which implies it.
pub fn holds_admin(held: &Vec<String>) -> (r: bool)
    ensures
        r == is_superuser(held@),
{
    proof {
        reveal_strlit("admin");
        assert("admin"@ =~= admin_marker());
    }
    contains_permission(held, "admin") || holds_root(held)
}

/// Whether `held` grants `required`. The exact permission is looked up
/// first; only when it is missing do the superuser markers decide.
pub fn grants(held: &Vec<String>, required: &str) -> (r: bool)
    ensures
        r == granted(held@, required@),
        r == (holds(held@, required@) || holds(held@, root_marker()) || holds(
            held@,
            admin_marker(),
        )),
{
    if contains_permission(held, required) {
        return true;
    }
    holds_admin(held)
}

/// Whether `held` grants at least one of `wanted`, with the same superuser
/// bypass as `grants`.
pub fn grants_any(held: &Vec<String>, wanted: &[&str]) -> (r: bool)
    ensures
        r == granted_any(held@, wanted@.map_values(|w: &str| w@)),
{
    let ghost views = wanted@.map_values(|w: &str| w@);
    let mut k: usize = 0;
    while k < wanted.len()
        invariant
            k <= wanted@.len(),
            views == wanted@.map_values(|w: &str| w@),
            forall|m: int| 0 <= m < k ==> !holds(held@, #[trigger] views[m]),
        decreases wanted@.len() - k,
    {
        if contains_permission(held, wanted[k]) {
            assert(holds(held@, views[k as int]));
            return true;
        }
        k = k + 1;
    }
    holds_admin(held)
}

/// Appending `x` to `s` adds exactly `x` to what `s` holds.
proof fn lemma_holds_push(s: Seq<String>, x: String)
    ensures
        forall|p: Seq<char>| #[trigger] holds(s.push(x), p) <==> (holds(s, p) || x@ == p),
{
    assert forall|p: Seq<char>| #[trigger] holds(s.push(x), p) <==> (holds(s, p) || x@ == p) by {
        let t = s.push(x);
        if holds(t, p) {
            let w = choose|w: int| 0 <= w < t.len() && #[trigger] t[w]@ == p;
            if w < s.len() {
                assert(s[w]@ == p);
            }
        }
        if holds(s, p) {
            let w = choose|w: int| 0 <= w < s.len() && #[trigger] s[w]@ == p;
            assert(t[w]@ == p);
        }
        if x@ == p {
            assert(t[s.len() as int]@ == p);
        }
    };
}

/// A prefix of `s` one element longer holds what the shorter one holds,
/// and that element.
proof fn lemma_holds_prefix_step(s: Seq<String>, j: int, k: int)
    requires
        0 <= j < s.len(),
        k == j + 1,
    ensures
        forall|p: Seq<char>| #[trigger]
            holds(s.subrange(0, k), p) <==> (holds(s.subrange(0, j), p) || s[j]@ == p),
{
    assert forall|p: Seq<char>| #[trigger]
        holds(s.subrange(0, k), p) <==> (holds(s.subrange(0, j), p) || s[j]@ == p) by {
        let s1 = s.subrange(0, k);
        let s0 = s.subrange(0, j);
        if holds(s1, p) {
            let w = choose|w: int| 0 <= w < s1.len() && #[trigger] s1[w]@ == p;
            if w < j {
                assert(s0[w]@ == p);
            }
        }
        if holds(s0, p) {
            let w = choose|w: int| 0 <= w < s0.len() && #[trigger] s0[w]@ == p;
            assert(s1[w]@ == p);
        }
        if s[j]@ == p {
            assert(s1[j]@ == p);
        }
    };
}

/// The effective permissions of a member of `groups`: the union of the
/// groups' permissions, each listed once.
pub fn effective_permissions(groups: &Vec<Group>) -> (r: Vec<String>)
    ensures
        no_duplicates(r@),
        forall|p: Seq<char>| holds(r@, p) <==> held_by_some(groups@, p),
{
    let mut result: Vec<String> = Vec::new();
    let mut i: usize = 0;
    while i < groups.len()
        invariant
            i <= groups@.len(),
            no_duplicates(result@),
            forall|p: Seq<char>|
                holds(result@, p) <==> held_by_some(groups@.subrange(0, i as int), p),
        decreases groups@.len() - i,
    {
        let perms = &groups[i].permissions;
        let ghost before = result@;
        let mut j: usize = 0;
        while j < perms.len()
            invariant
                i < groups@.len(),
                *perms == groups@[i as int].permissions,
                j <= perms@.len(),
                no_duplicates(result@),
                forall|p: Seq<char>| #![trigger holds(result@, p)]
                    holds(result@, p) <==> (holds(before, p) || holds(
                        perms@.subrange(0, j as int),
                        p,
                    )),
            decreases perms@.len() - j,
        {
            let present = contains_permission(&result, perms[j].as_str());
            if !present {
                proof {
                    lemma_holds_push(result@, perms@[j as int]);
                }
                result.push(perms[j].clone());
            }
            let ghost shorter = j as int;
            j = j + 1;
            proof {
                lemma_holds_prefix_step(perms@, shorter, j as int);
            }
        }
        assert(perms@.subrange(0, j as int) =~= perms@);
        assert forall|p: Seq<char>| held_by_some(groups@.subrange(0, i + 1), p) <==> (
        held_by_some(groups@.subrange(0, i as int), p) || holds(perms@, p)) by {
            let g1 = groups@.subrange(0, i + 1);
            let g0 = groups@.subrange(0, i as int);
            if held_by_some(g1, p) {
                let k = choose|k: int| 0 <= k < g1.len() && holds(#[trigger] g1[k].permissions@, p);
                if k < i {
                    assert(holds(g0[k].permissions@, p));
                }
            }
            if held_by_some(g0, p) {
                let k = choose|k: int| 0 <= k < g0.len() && holds(#[trigger] g0[k].permissions@, p);
                assert(holds(g1[k].permissions@, p));
            }
            if holds(perms@, p) {
                assert(holds(g1[i as int].permissions@, p));
            }
        };
        assert forall|p: Seq<char>| holds(result@, p) <==> held_by_some(
            groups@.subrange(0, i + 1),
            p,
        ) by {
            assert(holds(result@, p) <==> (holds(before, p) || holds(
                perms@.subrange(0, j as int),
                p,
            )));
            assert(holds(before, p) <==> held_by_some(groups@.subrange(0, i as int), p));
            assert(held_by_some(groups@.subrange(0, i + 1), p) <==> (held_by_some(
                groups@.subrange(0, i as int),
                p,
            ) || holds(perms@, p)));
        };
        i = i + 1;
    }
    assert(groups@.subrange(0, i as int) =~= groups@);
    result
}

} // verus!
