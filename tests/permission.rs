use gaia::model::Group;
use gaia::permission::{effective_permissions, grants, grants_any, holds_admin, holds_root};

fn perms(list: &[&str]) -> Vec<String> {
    list.iter().map(|p| p.to_string()).collect()
}

fn group(id: u128, name: &str, list: &[&str]) -> Group {
    Group {
        id,
        name: name.to_string(),
        description: None,
        permissions: perms(list),
        visible: true,
        editable: true,
        locked: false,
        created_at: 0,
        updated_at: 0,
        deleted_at: None,
    }
}

#[test]
fn group_permissions_are_copied() {
    let g = group(1, "readers", &["user:read", "group:read"]);
    assert_eq!(g.permissions(), perms(&["user:read", "group:read"]));
}

#[test]
fn effective_permissions_is_union_without_duplicates() {
    let groups = vec![
        group(1, "a", &["user:read", "user:write"]),
        group(2, "b", &["user:write", "group:read", "user:read"]),
        group(3, "c", &[]),
    ];
    let eff = effective_permissions(&groups);
    assert_eq!(eff, perms(&["user:read", "user:write", "group:read"]));
}

#[test]
fn effective_permissions_of_no_groups_is_empty() {
    assert!(effective_permissions(&vec![]).is_empty());
}

#[test]
fn effective_permissions_drops_duplicates_inside_one_group() {
    let groups = vec![group(1, "a", &["x", "x", "y", "x"])];
    assert_eq!(effective_permissions(&groups), perms(&["x", "y"]));
}

#[test]
fn grants_exact_permission() {
    let held = perms(&["user:read"]);
    assert!(grants(&held, "user:read"));
    assert!(!grants(&held, "user:write"));
    assert!(!grants(&held, "user:rea"));
}

#[test]
fn grants_everything_to_root_and_admin() {
    assert!(grants(&perms(&["root"]), "anything:whatsoever"));
    assert!(grants(&perms(&["user:read", "admin"]), "group:create"));
    assert!(!grants(&perms(&["Root", "administrator"]), "group:create"));
    assert!(!grants(&vec![], "user:read"));
}

#[test]
fn root_and_admin_markers() {
    assert!(holds_root(&perms(&["root"])));
    assert!(!holds_root(&perms(&["admin"])));
    assert!(holds_admin(&perms(&["admin"])));
    assert!(holds_admin(&perms(&["root"])));
    assert!(!holds_admin(&perms(&["user:read"])));
}

#[test]
fn grants_any_of_several() {
    let held = perms(&["user:read"]);
    assert!(grants_any(&held, &["group:read", "user:read"]));
    assert!(!grants_any(&held, &["group:read", "user:write"]));
    assert!(!grants_any(&held, &[]));
    assert!(grants_any(&perms(&["admin"]), &["group:read"]));
}
