//! Permission-grant generation.
//!
//! Commands are hidden by default on the host platform; visibility is opened
//! per role by an explicit grant. Given the roles a command requires —
//! usually a command-specific set unioned with a baseline staff set — this
//! module emits one allow-grant per distinct role, in first-occurrence
//! order.

use vstd::prelude::*;

verus! {

/// One platform-level permission grant: the role it names and whether the
/// role may use the command.
#[derive(Clone, Copy, PartialEq, Eq, Structural, Debug)]
pub struct Grant {
    pub role_id: u64,
    pub allow: bool,
}

/// Whether some grant in `gs` names `rid`.
pub open spec fn has_role(gs: Seq<Grant>, rid: u64) -> bool {
    exists|i: int| 0 <= i < gs.len() && gs[i].role_id == rid
}

/// The grants generated for a role list: one allow-grant per distinct role,
/// first occurrence first; later duplicates are harmless and dropped.
pub open spec fn grants_spec(roles: Seq<u64>) -> Seq<Grant>
    decreases roles.len(),
{
    if roles.len() == 0 {
        Seq::empty()
    } else {
        let prefix = grants_spec(roles.drop_last());
        if roles.drop_last().contains(roles.last()) {
            prefix
        } else {
            prefix.push(Grant { role_id: roles.last(), allow: true })
        }
    }
}

/// Every grant allows, no role is granted twice, and a role is granted
/// exactly when it occurs in the list.
pub proof fn lemma_grants_properties(roles: Seq<u64>)
    ensures
        forall|i: int| 0 <= i < grants_spec(roles).len() ==> grants_spec(roles)[i].allow,
        forall|i: int, j: int|
            0 <= i < j < grants_spec(roles).len() ==> grants_spec(roles)[i].role_id != grants_spec(
                roles,
            )[j].role_id,
        forall|rid: u64| has_role(grants_spec(roles), rid) <==> roles.contains(rid),
    decreases roles.len(),
{
    if roles.len() > 0 {
        lemma_grants_properties(roles.drop_last());
        let head = roles.drop_last();
        let last = roles.last();
        let prefix = grants_spec(head);
        assert forall|rid: u64| has_role(grants_spec(roles), rid) implies roles.contains(
            rid,
        ) by {
            if head.contains(rid) {
                let w = choose|i: int| 0 <= i < head.len() && head[i] == rid;
                assert(roles[w] == rid);
            } else {
                if !head.contains(last) {
                    let i = choose|i: int|
                        0 <= i < grants_spec(roles).len() && grants_spec(roles)[i].role_id == rid;
                    if i < prefix.len() {
                        assert(has_role(prefix, rid));
                    } else {
                        assert(rid == last);
                        assert(roles[roles.len() - 1] == rid);
                    }
                }
            }
        }
        assert forall|rid: u64| roles.contains(rid) implies has_role(
            grants_spec(roles),
            rid,
        ) by {
            let w = choose|i: int| 0 <= i < roles.len() && roles[i] == rid;
            if w < roles.len() - 1 {
                assert(head[w] == rid);
                assert(head.contains(rid));
                let j = choose|j: int| 0 <= j < prefix.len() && prefix[j].role_id == rid;
                assert(grants_spec(roles)[j].role_id == rid);
            } else {
                if head.contains(last) {
                    let j = choose|j: int| 0 <= j < prefix.len() && prefix[j].role_id == rid;
                    assert(grants_spec(roles)[j].role_id == rid);
                } else {
                    assert(grants_spec(roles)[prefix.len() as int].role_id == rid);
                }
            }
        }
        if !head.contains(last) {
            assert(!has_role(prefix, last));
        }
    }
}

fn contains_role(v: &Vec<Grant>, rid: u64) -> (r: bool)
    ensures
        r == has_role(v@, rid),
{
    let n = v.len();
    let mut i: usize = 0;
    while i < n
        invariant
            i <= n,
            n == v@.len(),
            forall|j: int| 0 <= j < i ==> v@[j].role_id != rid,
        decreases n - i,
    {
        if v[i].role_id == rid {
            return true;
        }
        i = i + 1;
    }
    false
}

fn push_role(out: &mut Vec<Grant>, ghost_roles: Ghost<Seq<u64>>, rid: u64)
    requires
        old(out)@ == grants_spec(ghost_roles@),
    ensures
        final(out)@ == grants_spec(ghost_roles@.push(rid)),
{
    proof {
        assert(ghost_roles@.push(rid).drop_last() =~= ghost_roles@);
    }
    let present = contains_role(out, rid);
    proof {
        lemma_grants_properties(ghost_roles@);
    }
    if !present {
        out.push(Grant { role_id: rid, allow: true });
    }
}

/// Emits the grants that open a command to the union of a command-specific
/// role list and a baseline list: one allow-grant per distinct role, in
/// first-occurrence order across the concatenation.
pub fn permission_grants(required: &Vec<u64>, baseline: &Vec<u64>) -> (r: Vec<Grant>)
    ensures
        r@ == grants_spec(required@ + baseline@),
{
    let mut out: Vec<Grant> = Vec::new();
    let mut i: usize = 0;
    let n1 = required.len();
    proof {
        assert(required@.take(0) =~= Seq::<u64>::empty());
    }
    while i < n1
        invariant
            i <= n1,
            n1 == required@.len(),
            out@ == grants_spec(required@.take(i as int)),
        decreases n1 - i,
    {
        proof {
            assert(required@.take(i as int + 1) =~= required@.take(i as int).push(
                required@[i as int],
            ));
        }
        push_role(&mut out, Ghost(required@.take(i as int)), required[i]);
        i = i + 1;
    }
    let n2 = baseline.len();
    let mut j: usize = 0;
    proof {
        assert(required@.take(n1 as int) =~= required@);
        assert((required@ + baseline@.take(0)) =~= required@);
    }
    while j < n2
        invariant
            j <= n2,
            n2 == baseline@.len(),
            out@ == grants_spec(required@ + baseline@.take(j as int)),
        decreases n2 - j,
    {
        proof {
            assert((required@ + baseline@.take(j as int + 1)) =~= (required@ + baseline@.take(
                j as int,
            )).push(baseline@[j as int]));
        }
        push_role(&mut out, Ghost(required@ + baseline@.take(j as int)), baseline[j]);
        j = j + 1;
    }
    proof {
        assert((required@ + baseline@.take(n2 as int)) =~= (required@ + baseline@));
    }
    out
}

} // verus!
