use zzyl_auth::enums::{DataScope, UserStatus};
use zzyl_auth::scope::{resolve_scope, scope_condition_sql, Role, ScopeFilter};

fn role(id: u64, data_scope: DataScope, dept_ids: Vec<u64>) -> Role {
    Role { id, data_scope, dept_ids, status: UserStatus::Normal }
}

fn sorted(v: &[u64]) -> Vec<u64> {
    let mut v = v.to_vec();
    v.sort();
    v
}

#[test]
fn department_scope_is_the_own_department() {
    let f = resolve_scope(&vec![role(1, DataScope::Dept, vec![])], 7, &vec![9, 12]);
    assert!(!f.unrestricted);
    assert_eq!(f.dept_ids, vec![7]);
    assert!(!f.own_rows);
}

#[test]
fn department_and_children_scope() {
    let f = resolve_scope(&vec![role(1, DataScope::DeptAndChild, vec![])], 7, &vec![9, 12]);
    assert!(!f.unrestricted);
    assert_eq!(sorted(&f.dept_ids), vec![7, 9, 12]);
}

#[test]
fn all_dominates_self() {
    let roles = vec![role(1, DataScope::SelfOnly, vec![]), role(2, DataScope::All, vec![])];
    let f = resolve_scope(&roles, 7, &vec![]);
    assert!(f.unrestricted);
    assert!(f.dept_ids.is_empty());
    assert!(!f.own_rows);
    assert_eq!(scope_condition_sql(&f, "d", 5), "");
}

#[test]
fn roles_combine_by_union_without_repeats() {
    let roles = vec![
        role(1, DataScope::Custom, vec![3, 7, 3]),
        role(2, DataScope::DeptAndChild, vec![]),
        role(3, DataScope::SelfOnly, vec![]),
    ];
    let f = resolve_scope(&roles, 7, &vec![9, 3]);
    assert_eq!(sorted(&f.dept_ids), vec![3, 7, 9]);
    assert!(f.own_rows);
}

#[test]
fn no_role_grants_nothing() {
    let f = resolve_scope(&vec![], 7, &vec![9]);
    assert!(!f.unrestricted);
    assert!(f.dept_ids.is_empty());
    assert!(!f.own_rows);
    assert_eq!(scope_condition_sql(&f, "d", 5), "1 = 0");
}

#[test]
fn condition_texts() {
    let depts = ScopeFilter { unrestricted: false, dept_ids: vec![7, 9, 12], own_rows: false };
    assert_eq!(scope_condition_sql(&depts, "d", 5), "d.dept_id IN ('7','9','12')");
    let own = ScopeFilter { unrestricted: false, dept_ids: vec![], own_rows: true };
    assert_eq!(scope_condition_sql(&own, "u", 5), "u.user_id = 5");
    let both = ScopeFilter { unrestricted: false, dept_ids: vec![7], own_rows: true };
    assert_eq!(scope_condition_sql(&both, "t", 1234567890), "(t.dept_id IN ('7') OR t.user_id = 1234567890)");
}
