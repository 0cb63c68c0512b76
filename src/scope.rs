//! Data scope: which departments' rows a user may see, from the data scopes
//! of the roles the user holds.
use vstd::prelude::*;
use crate::enums::{DataScope, UserStatus};
use crate::sql::{quoted_all, DatabaseUtils};
use crate::text::{decimal, decimal_string, join, push_str, views_of};

verus! {

/// A role as the resolver reads it.
pub struct Role {
    pub id: u64,
    pub data_scope: DataScope,
    /// The departments a `Custom` scope grants.
    pub dept_ids: Vec<u64>,
    pub status: UserStatus,
}

/// What a query must be restricted to.
pub struct ScopeFilter {
    /// No restriction at all.
    pub unrestricted: bool,
    /// Rows of these departments, each listed once.
    pub dept_ids: Vec<u64>,
    /// Rows the user owns.
    pub own_rows: bool,
}

/// The ids that `s` holds.
pub open spec fn id_set(s: Seq<u64>) -> Set<u64> {
    Set::new(|x: u64| s.contains(x))
}

/// The departments that one role grants, for a user of department `dept`
/// whose descendants are `descendants`.
pub open spec fn role_depts(r: Role, dept: u64, descendants: Seq<u64>) -> Set<u64> {
    match r.data_scope {
        DataScope::Custom => id_set(r.dept_ids@),
        DataScope::Dept => set![dept],
        DataScope::DeptAndChild => set![dept] + id_set(descendants),
        _ => Set::empty(),
    }
}

/// The union of the departments that the roles grant.
pub open spec fn roles_depts(roles: Seq<Role>, dept: u64, descendants: Seq<u64>) -> Set<u64>
    decreases roles.len(),
{
    if roles.len() == 0 {
        Set::empty()
    } else {
        roles_depts(roles.drop_last(), dept, descendants) + role_depts(roles.last(), dept, descendants)
    }
}

/// Whether some role has scope `s`.
pub open spec fn has_scope(roles: Seq<Role>, s: DataScope) -> bool {
    exists|i: int| 0 <= i < roles.len() && #[trigger] roles[i].data_scope == s
}

/// Adds `x` to `v` unless it is there.
fn add_id(v: &mut Vec<u64>, x: u64)
    requires
        old(v)@.no_duplicates(),
    ensures
        final(v)@.no_duplicates(),
        id_set(final(v)@) == id_set(old(v)@).insert(x),
{
    let mut i: usize = 0;
    while i < v.len()
        invariant
            i <= v@.len(),
            v@.no_duplicates(),
            forall|j: int| 0 <= j < i ==> v@[j] != x,
        decreases v.len() - i,
    {
        if v[i] == x {
            assert(v@.contains(x));
            assert(id_set(v@) =~= id_set(v@).insert(x));
            return;
        }
        i = i + 1;
    }
    let ghost before = v@;
    v.push(x);
    proof {
        assert forall|y: u64| #[trigger] id_set(v@).contains(y) == id_set(before).insert(x).contains(y) by {
            if before.contains(y) {
                let j = choose|j: int| 0 <= j < before.len() && before[j] == y;
                assert(v@[j] == y);
            }
            if v@.contains(y) && y != x {
                let j = choose|j: int| 0 <= j < v@.len() && v@[j] == y;
                assert(j < before.len());
                assert(before[j] == y);
            }
            if y == x {
                assert(v@[before.len() as int] == x);
            }
        }
        assert(id_set(v@) =~= id_set(before).insert(x));
    }
}

/// Adds each id of `xs` to `v` unless it is there.
fn add_ids(v: &mut Vec<u64>, xs: &Vec<u64>)
    requires
        old(v)@.no_duplicates(),
    ensures
        final(v)@.no_duplicates(),
        id_set(final(v)@) == id_set(old(v)@) + id_set(xs@),
{
    let ghost start = id_set(v@);
    let mut i: usize = 0;
    while i < xs.len()
        invariant
            i <= xs@.len(),
            v@.no_duplicates(),
            id_set(v@) == start + id_set(xs@.subrange(0, i as int)),
        decreases xs.len() - i,
    {
        add_id(v, xs[i]);
        proof {
            let a = xs@.subrange(0, i as int);
            let b = xs@.subrange(0, i + 1);
            assert forall|y: u64| #[trigger] id_set(b).contains(y) == id_set(a).insert(xs@[i as int]).contains(y) by {
                if a.contains(y) {
                    let j = choose|j: int| 0 <= j < a.len() && a[j] == y;
                    assert(b[j] == y);
                }
                if b.contains(y) && y != xs@[i as int] {
                    let j = choose|j: int| 0 <= j < b.len() && b[j] == y;
                    assert(a[j] == y);
                }
                if y == xs@[i as int] {
                    assert(b[i as int] == y);
                }
            }
            assert(id_set(b) =~= id_set(a).insert(xs@[i as int]));
            assert(id_set(v@) =~= start + id_set(b));
        }
        i = i + 1;
    }
    assert(xs@.subrange(0, xs@.len() as int) == xs@);
}

/// The restriction for a user of department `dept`, whose descendant
/// departments are `descendants`, holding `roles`: none if a role has scope
/// `All`; otherwise the union of the departments the roles grant, and the
/// user's own rows if a role has scope `SelfOnly`.
pub fn resolve_scope(roles: &Vec<Role>, dept: u64, descendants: &Vec<u64>) -> (r: ScopeFilter)
    ensures
        r.unrestricted == has_scope(roles@, DataScope::All),
        r.unrestricted ==> r.dept_ids@.len() == 0 && !r.own_rows,
        !r.unrestricted ==> {
            &&& r.dept_ids@.no_duplicates()
            &&& id_set(r.dept_ids@) == roles_depts(roles@, dept, descendants@)
            &&& r.own_rows == has_scope(roles@, DataScope::SelfOnly)
        },
{
    let mut k: usize = 0;
    while k < roles.len()
        invariant
            k <= roles@.len(),
            forall|j: int| 0 <= j < k ==> roles@[j].data_scope != DataScope::All,
        decreases roles.len() - k,
    {
        if roles[k].data_scope == DataScope::All {
            return ScopeFilter { unrestricted: true, dept_ids: Vec::new(), own_rows: false };
        }
        k = k + 1;
    }
    let mut ids: Vec<u64> = Vec::new();
    let mut own = false;
    let mut i: usize = 0;
    assert(id_set(ids@) =~= Set::<u64>::empty());
    while i < roles.len()
        invariant
            i <= roles@.len(),
            ids@.no_duplicates(),
            id_set(ids@) == roles_depts(roles@.subrange(0, i as int), dept, descendants@),
            own == has_scope(roles@.subrange(0, i as int), DataScope::SelfOnly),
        decreases roles.len() - i,
    {
        let role = &roles[i];
        let ghost before = id_set(ids@);
        match role.data_scope {
            DataScope::Custom => {
                add_ids(&mut ids, &role.dept_ids);
            },
            DataScope::Dept => {
                add_id(&mut ids, dept);
                assert(before.insert(dept) =~= before + set![dept]);
            },
            DataScope::DeptAndChild => {
                add_id(&mut ids, dept);
                add_ids(&mut ids, descendants);
                assert(before.insert(dept) + id_set(descendants@) =~= before + (set![dept] + id_set(descendants@)));
            },
            DataScope::SelfOnly => {
                own = true;
                assert(before =~= before + Set::<u64>::empty());
            },
            DataScope::All => {
                assert(before =~= before + Set::<u64>::empty());
            },
        }
        proof {
            let a = roles@.subrange(0, i as int);
            let b = roles@.subrange(0, i + 1);
            assert(b.drop_last() == a);
            assert(b.last() == roles@[i as int]);
            if has_scope(b, DataScope::SelfOnly) {
                let j = choose|j: int| 0 <= j < b.len() && #[trigger] b[j].data_scope == DataScope::SelfOnly;
                if j < i {
                    assert(a[j] == b[j]);
                }
            }
            if has_scope(a, DataScope::SelfOnly) {
                let j = choose|j: int| 0 <= j < a.len() && #[trigger] a[j].data_scope == DataScope::SelfOnly;
                assert(b[j] == a[j]);
            }
            if role.data_scope == DataScope::SelfOnly {
                assert(b[i as int].data_scope == DataScope::SelfOnly);
            }
        }
        i = i + 1;
    }
    assert(roles@.subrange(0, roles@.len() as int) == roles@);
    assert(!has_scope(roles@, DataScope::All));
    ScopeFilter { unrestricted: false, dept_ids: ids, own_rows: own }
}

pub open spec fn decimals(ids: Seq<u64>) -> Seq<Seq<char>> {
    ids.map_values(|x: u64| decimal(x as nat))
}

/// The SQL condition of a restriction on the table under `alias`, for the
/// user `user_id`: empty when unrestricted; `1 = 0` when nothing is granted.
pub open spec fn scope_condition(f: ScopeFilter, alias: Seq<char>, user_id: u64) -> Seq<char> {
    let depts = alias + ".dept_id"@ + " IN ("@ + join(quoted_all(decimals(f.dept_ids@)), ","@) + ")"@;
    let own = alias + ".user_id = "@ + decimal(user_id as nat);
    if f.unrestricted {
        Seq::empty()
    } else if f.dept_ids@.len() > 0 && f.own_rows {
        "("@ + depts + " OR "@ + own + ")"@
    } else if f.dept_ids@.len() > 0 {
        depts
    } else if f.own_rows {
        own
    } else {
        "1 = 0"@
    }
}

/// The SQL condition that a query on the table under `alias` must AND into
/// its WHERE clause.
pub fn scope_condition_sql(filter: &ScopeFilter, alias: &str, user_id: u64) -> (r: String)
    ensures
        r@ == scope_condition(*filter, alias@, user_id),
{
    if filter.unrestricted {
        return String::new();
    }
    let mut values: Vec<String> = Vec::new();
    let mut i: usize = 0;
    while i < filter.dept_ids.len()
        invariant
            i <= filter.dept_ids@.len(),
            views_of(values@) == decimals(filter.dept_ids@.subrange(0, i as int)),
        decreases filter.dept_ids.len() - i,
    {
        let d = decimal_string(filter.dept_ids[i]);
        let ghost before = values@;
        values.push(d);
        proof {
            assert(views_of(values@) == views_of(before).push(d@));
            assert(decimals(filter.dept_ids@.subrange(0, i + 1)) == decimals(
                filter.dept_ids@.subrange(0, i as int),
            ).push(decimal(filter.dept_ids@[i as int] as nat)));
        }
        i = i + 1;
    }
    assert(filter.dept_ids@.subrange(0, filter.dept_ids@.len() as int) == filter.dept_ids@);
    let mut column = alias.to_owned();
    push_str(&mut column, ".dept_id");
    let depts = DatabaseUtils::build_in_condition(column.as_str(), values.as_slice());
    let mut own = alias.to_owned();
    push_str(&mut own, ".user_id = ");
    let id = decimal_string(user_id);
    push_str(&mut own, id.as_str());
    let has_depts = filter.dept_ids.len() > 0;
    if has_depts && filter.own_rows {
        let mut sql = "(".to_owned();
        push_str(&mut sql, depts.as_str());
        push_str(&mut sql, " OR ");
        push_str(&mut sql, own.as_str());
        push_str(&mut sql, ")");
        sql
    } else if has_depts {
        depts
    } else if filter.own_rows {
        own
    } else {
        "1 = 0".to_owned()
    }
}

} // verus!
