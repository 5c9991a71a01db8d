//! Roles, the named groups of users, and permissions, the named rights a
//! role grants.

use vstd::prelude::*;
use crate::text::str_eq;

verus! {

/// A named group users can be assigned to.
pub struct Role {
    pub id: i32,
    pub name: String,
}

impl Clone for Role {
    fn clone(&self) -> (r: Self)
        ensures
            r == *self,
    {
        Role { id: self.id, name: self.name.clone() }
    }
}

/// A role row as stored.
pub struct RoleRecord {
    pub id: i32,
    pub name: String,
}

/// A named right.
pub struct Permission {
    pub id: i32,
    pub name: String,
}

impl Clone for Permission {
    fn clone(&self) -> (r: Self)
        ensures
            r == *self,
    {
        Permission { id: self.id, name: self.name.clone() }
    }
}

/// A permission row as stored.
pub struct PermissionRecord {
    pub id: i32,
    pub name: String,
}

impl From<RoleRecord> for Role {
    fn from(value: RoleRecord) -> (r: Self) {
        Role { id: value.id, name: value.name }
    }
}

impl vstd::std_specs::convert::FromSpecImpl<RoleRecord> for Role {
    open spec fn obeys_from_spec() -> bool {
        true
    }

    open spec fn from_spec(value: RoleRecord) -> Role {
        Role { id: value.id, name: value.name }
    }
}

impl From<Role> for RoleRecord {
    fn from(value: Role) -> (r: Self) {
        RoleRecord { id: value.id, name: value.name }
    }
}

impl vstd::std_specs::convert::FromSpecImpl<Role> for RoleRecord {
    open spec fn obeys_from_spec() -> bool {
        true
    }

    open spec fn from_spec(value: Role) -> RoleRecord {
        RoleRecord { id: value.id, name: value.name }
    }
}

impl From<PermissionRecord> for Permission {
    fn from(value: PermissionRecord) -> (r: Self) {
        Permission { id: value.id, name: value.name }
    }
}

impl vstd::std_specs::convert::FromSpecImpl<PermissionRecord> for Permission {
    open spec fn obeys_from_spec() -> bool {
        true
    }

    open spec fn from_spec(value: PermissionRecord) -> Permission {
        Permission { id: value.id, name: value.name }
    }
}

impl From<Permission> for PermissionRecord {
    fn from(value: Permission) -> (r: Self) {
        PermissionRecord { id: value.id, name: value.name }
    }
}

impl vstd::std_specs::convert::FromSpecImpl<Permission> for PermissionRecord {
    open spec fn obeys_from_spec() -> bool {
        true
    }

    open spec fn from_spec(value: Permission) -> PermissionRecord {
        PermissionRecord { id: value.id, name: value.name }
    }
}

/// A role to be stored.
pub struct CreateRoleRecord<'a> {
    pub name: &'a str,
}

/// A permission to be stored.
pub struct CreatePermissionRecord<'a> {
    pub name: &'a str,
}

/// A change to a stored role: its row, and its new name if it changes.
pub struct UpdateRoleRecord<'a> {
    pub id: i32,
    pub name: Option<&'a str>,
}

/// A change to a stored permission: its row, and its new name if it
/// changes.
pub struct UpdatePermissionRecord<'a> {
    pub id: i32,
    pub name: Option<&'a str>,
}

impl<'a> CreateRoleRecord<'a> {
    pub fn new(name: &'a str) -> (r: CreateRoleRecord<'a>)
        ensures
            r.name == name,
    {
        CreateRoleRecord { name }
    }
}

impl<'a> CreatePermissionRecord<'a> {
    pub fn new(name: &'a str) -> (r: CreatePermissionRecord<'a>)
        ensures
            r.name == name,
    {
        CreatePermissionRecord { name }
    }
}

impl<'a> UpdateRoleRecord<'a> {
    pub fn new(id: i32) -> (r: Self)
        ensures
            r.id == id,
            r.name is None,
    {
        UpdateRoleRecord { id, name: None }
    }

    pub fn from_permission(role: &'a Role) -> (r: Self)
        ensures
            r.id == role.id,
            r.name matches Some(n) && n@ == role.name@,
    {
        UpdateRoleRecord { id: role.id, name: Some(role.name.as_str()) }
    }

    pub fn from_record(record: &'a RoleRecord) -> (r: Self)
        ensures
            r.id == record.id,
            r.name matches Some(n) && n@ == record.name@,
    {
        UpdateRoleRecord { id: record.id, name: Some(record.name.as_str()) }
    }

    pub fn with_name(self, name: &'a str) -> (r: Self)
        ensures
            r.id == self.id,
            r.name == Some(name),
    {
        UpdateRoleRecord { name: Some(name), ..self }
    }
}

impl<'a> UpdatePermissionRecord<'a> {
    pub fn new(id: i32) -> (r: Self)
        ensures
            r.id == id,
            r.name is None,
    {
        UpdatePermissionRecord { id, name: None }
    }

    pub fn from_permission(permission: &'a Permission) -> (r: Self)
        ensures
            r.id == permission.id,
            r.name matches Some(n) && n@ == permission.name@,
    {
        UpdatePermissionRecord { id: permission.id, name: Some(permission.name.as_str()) }
    }

    pub fn from_record(record: &'a PermissionRecord) -> (r: Self)
        ensures
            r.id == record.id,
            r.name matches Some(n) && n@ == record.name@,
    {
        UpdatePermissionRecord { id: record.id, name: Some(record.name.as_str()) }
    }

    pub fn with_name(self, name: &'a str) -> (r: Self)
        ensures
            r.id == self.id,
            r.name == Some(name),
    {
        UpdatePermissionRecord { name: Some(name), ..self }
    }
}

impl RoleRecord {
    pub fn create<'a>(name: &'a str) -> (r: CreateRoleRecord<'a>)
        ensures
            r.name == name,
    {
        CreateRoleRecord::new(name)
    }

    pub fn update<'a>(&'a self) -> (r: UpdateRoleRecord<'a>)
        ensures
            r.id == self.id,
            r.name matches Some(n) && n@ == self.name@,
    {
        UpdateRoleRecord::from_record(self)
    }
}

impl PermissionRecord {
    pub fn create<'a>(name: &'a str) -> (r: CreatePermissionRecord<'a>)
        ensures
            r.name == name,
    {
        CreatePermissionRecord::new(name)
    }

    pub fn update<'a>(&'a self) -> (r: UpdatePermissionRecord<'a>)
        ensures
            r.id == self.id,
            r.name matches Some(n) && n@ == self.name@,
    {
        UpdatePermissionRecord::from_record(self)
    }
}

impl Role {
    pub fn create_record<'a>(name: &'a str) -> (r: CreateRoleRecord<'a>)
        ensures
            r.name == name,
    {
        CreateRoleRecord::new(name)
    }

    pub fn update_record<'a>(&'a self) -> (r: UpdateRoleRecord<'a>)
        ensures
            r.id == self.id,
            r.name matches Some(n) && n@ == self.name@,
    {
        UpdateRoleRecord::from_permission(self)
    }
}

impl Permission {
    pub fn create_record<'a>(name: &'a str) -> (r: CreatePermissionRecord<'a>)
        ensures
            r.name == name,
    {
        CreatePermissionRecord::new(name)
    }

    pub fn update_record<'a>(&'a self) -> (r: UpdatePermissionRecord<'a>)
        ensures
            r.id == self.id,
            r.name matches Some(n) && n@ == self.name@,
    {
        UpdatePermissionRecord::from_permission(self)
    }
}

/// Whether two roles are the same role: same id and same name.
pub open spec fn same_role(a: Role, b: Role) -> bool {
    a.id == b.id && a.name@ == b.name@
}

/// Whether no two of `xs` are the same role, as in a set of roles.
pub open spec fn roles_distinct(xs: Seq<Role>) -> bool {
    forall|i: int, j: int| 0 <= i < j < xs.len() ==> !same_role(#[trigger] xs[i], #[trigger] xs[j])
}

/// Whether `xs` holds the same role as `x`.
pub open spec fn holds_role(xs: Seq<Role>, x: Role) -> bool {
    exists|j: int| 0 <= j < xs.len() && same_role(#[trigger] xs[j], x)
}

/// Whether `x` is one of `xs`.
pub open spec fn one_of_roles(xs: Seq<Role>, x: Role) -> bool {
    exists|i: int| 0 <= i < xs.len() && #[trigger] xs[i] == x
}

fn contains_role(xs: &Vec<Role>, x: &Role) -> (r: bool)
    ensures
        r == holds_role(xs@, *x),
{
    let mut i: usize = 0;
    while i < xs.len()
        invariant
            i <= xs@.len(),
            forall|j: int| 0 <= j < i ==> !same_role(#[trigger] xs@[j], *x),
        decreases xs@.len() - i,
    {
        if xs[i].id == x.id && str_eq(xs[i].name.as_str(), x.name.as_str()) {
            assert(same_role(xs@[i as int], *x));
            return true;
        }
        i = i + 1;
    }
    false
}

/// The roles of `xs`, each once: the first of each group of equal ones,
/// in their order. Every one of `xs` has its equal in the result, and
/// every one of the result is one of `xs`.
pub fn distinct_roles(xs: Vec<Role>) -> (r: Vec<Role>)
    ensures
        roles_distinct(r@),
        forall|i: int| 0 <= i < xs@.len() ==> holds_role(r@, #[trigger] xs@[i]),
        forall|j: int| 0 <= j < r@.len() ==> one_of_roles(xs@, #[trigger] r@[j]),
{
    let mut out: Vec<Role> = Vec::new();
    let mut i: usize = 0;
    while i < xs.len()
        invariant
            i <= xs@.len(),
            roles_distinct(out@),
            forall|k: int| 0 <= k < i ==> holds_role(out@, #[trigger] xs@[k]),
            forall|j: int| 0 <= j < out@.len() ==> one_of_roles(xs@, #[trigger] out@[j]),
        decreases xs@.len() - i,
    {
        let x = &xs[i];
        if !contains_role(&out, x) {
            let ghost before = out@;
            let c = x.clone();
            out.push(c);
            assert(out@ == before.push(xs@[i as int]));
            assert forall|k: int| 0 <= k < i + 1 implies holds_role(out@, #[trigger] xs@[k]) by {
                if k < i {
                    let j = choose|j: int| 0 <= j < before.len() && same_role(#[trigger] before[j], xs@[k]);
                    assert(out@[j] == before[j]);
                } else {
                    assert(same_role(out@[before.len() as int], xs@[k]));
                }
            }
            assert forall|j: int| 0 <= j < out@.len() implies one_of_roles(xs@, #[trigger] out@[j]) by {
                if j < before.len() {
                    assert(out@[j] == before[j]);
                    assert(one_of_roles(xs@, before[j]));
                } else {
                    assert(xs@[i as int] == out@[j]);
                }
            }
            assert forall|a: int, b: int| 0 <= a < b < out@.len() implies !same_role(
                #[trigger] out@[a],
                #[trigger] out@[b],
            ) by {
                if b == before.len() {
                    assert(out@[a] == before[a]);
                    if same_role(before[a], xs@[i as int]) {
                        assert(holds_role(before, xs@[i as int]));
                    }
                } else {
                    assert(out@[a] == before[a]);
                    assert(out@[b] == before[b]);
                }
            }
        } else {
            assert forall|k: int| 0 <= k < i + 1 implies holds_role(out@, #[trigger] xs@[k]) by {
                if k == i {
                    assert(holds_role(out@, *x));
                }
            }
        }
        i = i + 1;
    }
    out
}

/// Whether two permissions are the same permission: same id and same name.
pub open spec fn same_permission(a: Permission, b: Permission) -> bool {
    a.id == b.id && a.name@ == b.name@
}

/// Whether no two of `xs` are the same permission, as in a set of permissions.
pub open spec fn permissions_distinct(xs: Seq<Permission>) -> bool {
    forall|i: int, j: int| 0 <= i < j < xs.len() ==> !same_permission(#[trigger] xs[i], #[trigger] xs[j])
}

/// Whether `xs` holds the same permission as `x`.
pub open spec fn holds_permission(xs: Seq<Permission>, x: Permission) -> bool {
    exists|j: int| 0 <= j < xs.len() && same_permission(#[trigger] xs[j], x)
}

/// Whether `x` is one of `xs`.
pub open spec fn one_of_permissions(xs: Seq<Permission>, x: Permission) -> bool {
    exists|i: int| 0 <= i < xs.len() && #[trigger] xs[i] == x
}

fn contains_permission(xs: &Vec<Permission>, x: &Permission) -> (r: bool)
    ensures
        r == holds_permission(xs@, *x),
{
    let mut i: usize = 0;
    while i < xs.len()
        invariant
            i <= xs@.len(),
            forall|j: int| 0 <= j < i ==> !same_permission(#[trigger] xs@[j], *x),
        decreases xs@.len() - i,
    {
        if xs[i].id == x.id && str_eq(xs[i].name.as_str(), x.name.as_str()) {
            assert(same_permission(xs@[i as int], *x));
            return true;
        }
        i = i + 1;
    }
    false
}

/// The permissions of `xs`, each once: the first of each group of equal ones,
/// in their order. Every one of `xs` has its equal in the result, and
/// every one of the result is one of `xs`.
pub fn distinct_permissions(xs: Vec<Permission>) -> (r: Vec<Permission>)
    ensures
        permissions_distinct(r@),
        forall|i: int| 0 <= i < xs@.len() ==> holds_permission(r@, #[trigger] xs@[i]),
        forall|j: int| 0 <= j < r@.len() ==> one_of_permissions(xs@, #[trigger] r@[j]),
{
    let mut out: Vec<Permission> = Vec::new();
    let mut i: usize = 0;
    while i < xs.len()
        invariant
            i <= xs@.len(),
            permissions_distinct(out@),
            forall|k: int| 0 <= k < i ==> holds_permission(out@, #[trigger] xs@[k]),
            forall|j: int| 0 <= j < out@.len() ==> one_of_permissions(xs@, #[trigger] out@[j]),
        decreases xs@.len() - i,
    {
        let x = &xs[i];
        if !contains_permission(&out, x) {
            let ghost before = out@;
            let c = x.clone();
            out.push(c);
            assert(out@ == before.push(xs@[i as int]));
            assert forall|k: int| 0 <= k < i + 1 implies holds_permission(out@, #[trigger] xs@[k]) by {
                if k < i {
                    let j = choose|j: int| 0 <= j < before.len() && same_permission(#[trigger] before[j], xs@[k]);
                    assert(out@[j] == before[j]);
                } else {
                    assert(same_permission(out@[before.len() as int], xs@[k]));
                }
            }
            assert forall|j: int| 0 <= j < out@.len() implies one_of_permissions(xs@, #[trigger] out@[j]) by {
                if j < before.len() {
                    assert(out@[j] == before[j]);
                    assert(one_of_permissions(xs@, before[j]));
                } else {
                    assert(xs@[i as int] == out@[j]);
                }
            }
            assert forall|a: int, b: int| 0 <= a < b < out@.len() implies !same_permission(
                #[trigger] out@[a],
                #[trigger] out@[b],
            ) by {
                if b == before.len() {
                    assert(out@[a] == before[a]);
                    if same_permission(before[a], xs@[i as int]) {
                        assert(holds_permission(before, xs@[i as int]));
                    }
                } else {
                    assert(out@[a] == before[a]);
                    assert(out@[b] == before[b]);
                }
            }
        } else {
            assert forall|k: int| 0 <= k < i + 1 implies holds_permission(out@, #[trigger] xs@[k]) by {
                if k == i {
                    assert(holds_permission(out@, *x));
                }
            }
        }
        i = i + 1;
    }
    out
}

} // verus!
