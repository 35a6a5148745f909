//! Roles: what an application's role type has to offer, the roles a token
//! carries, and the capabilities of the containers they are read from.

use vstd::prelude::*;

verus! {

/// An application's own role type. Its view is what contracts compare; a role
/// is made from the name under which the provider lists it.
pub trait Role: View + Sized {
    /// The view of the role that the provider lists as `name`.
    spec fn of_name(name: Seq<char>) -> Self::V;

    /// The text by which a role with this view is shown.
    spec fn text(model: Self::V) -> Seq<char>;

    /// Makes the role that the provider lists as `name`.
    fn from_name(name: String) -> (role: Self)
        ensures
            role@ == Self::of_name(name@),
    ;

    /// Whether `self` and `other` are the same role.
    fn same(&self, other: &Self) -> (same: bool)
        ensures
            same == (self@ == other@),
    ;

    /// The text by which this role is shown.
    fn name(&self) -> (text: String)
        ensures
            text@ == Self::text(self@),
    ;
}

/// A role is its name, for applications that need no type of their own.
impl Role for String {
    open spec fn of_name(name: Seq<char>) -> Seq<char> {
        name
    }

    open spec fn text(model: Seq<char>) -> Seq<char> {
        model
    }

    fn from_name(name: String) -> (role: String) {
        name
    }

    fn same(&self, other: &String) -> (same: bool) {
        *self == *other
    }

    fn name(&self) -> (text: String) {
        self.clone()
    }
}

/// A role that a token grants: for the whole realm, or for one client.
#[derive(Debug, Clone, PartialEq)]
pub enum KeycloakRole<R: Role> {
    /// A role of the realm.
    Realm { role: R },
    /// A role of the client `client`.
    Client { client: String, role: R },
}

/// The view of a [`KeycloakRole`]: the same two cases over the role's view.
pub enum RoleModel<V> {
    Realm { role: V },
    Client { client: Seq<char>, role: V },
}

impl<V> RoleModel<V> {
    /// The role itself, whatever it is a role of.
    pub open spec fn role(self) -> V {
        match self {
            RoleModel::Realm { role } => role,
            RoleModel::Client { role, .. } => role,
        }
    }
}

impl<R: Role> View for KeycloakRole<R> {
    type V = RoleModel<R::V>;

    open spec fn view(&self) -> RoleModel<R::V> {
        match self {
            KeycloakRole::Realm { role } => RoleModel::Realm { role: role@ },
            KeycloakRole::Client { client, role } => RoleModel::Client {
                client: client@,
                role: role@,
            },
        }
    }
}

impl<R: Role> KeycloakRole<R> {
    /// The role itself as a specification value.
    pub open spec fn spec_role(&self) -> R {
        match self {
            KeycloakRole::Realm { role } => *role,
            KeycloakRole::Client { role, .. } => *role,
        }
    }

    /// The role itself, whatever it is a role of.
    pub fn role(&self) -> (role: &R)
        ensures
            *role == self.spec_role(),
            role@ == self@.role(),
    {
        match self {
            KeycloakRole::Realm { role } => role,
            KeycloakRole::Client { role, .. } => role,
        }
    }
}

/// The views of a list of roles, in the same order.
pub open spec fn role_models<R: Role>(roles: Seq<KeycloakRole<R>>) -> Seq<RoleModel<R::V>> {
    roles.map_values(|role: KeycloakRole<R>| role@)
}

/// The realm roles that the names `names` stand for, in the same order.
pub open spec fn realm_role_models<R: Role>(names: Seq<String>) -> Seq<RoleModel<R::V>> {
    names.map_values(|name: String| RoleModel::Realm { role: R::of_name(name@) })
}

/// The roles of the client `client` that the names `names` stand for, in the
/// same order.
pub open spec fn client_role_models<R: Role>(client: Seq<char>, names: Seq<String>) -> Seq<
    RoleModel<R::V>,
> {
    names.map_values(|name: String| RoleModel::Client { client, role: R::of_name(name@) })
}

/// Some role in `held` is the role `wanted`.
pub open spec fn holds_role<V>(held: Seq<RoleModel<V>>, wanted: V) -> bool {
    exists|i: int| 0 <= i < held.len() && (#[trigger] held[i]).role() == wanted
}

/// `required[at]` is the first of the required roles that `held` lacks.
pub open spec fn first_missing_at<R: Role>(
    held: Seq<RoleModel<R::V>>,
    required: Seq<R>,
    at: int,
) -> bool {
    &&& 0 <= at < required.len()
    &&& !holds_role(held, required[at]@)
    &&& forall|j: int| 0 <= j < at ==> holds_role(held, (#[trigger] required[j])@)
}

/// `held` has every role of `required`.
pub open spec fn holds_all<R: Role>(held: Seq<RoleModel<R::V>>, required: Seq<R>) -> bool {
    forall|i: int| 0 <= i < required.len() ==> holds_role(held, (#[trigger] required[i])@)
}

/// `held` has no role of `forbidden`.
pub open spec fn holds_none<R: Role>(held: Seq<RoleModel<R::V>>, forbidden: Seq<R>) -> bool {
    forall|i: int| 0 <= i < forbidden.len() ==> !holds_role(held, (#[trigger] forbidden[i])@)
}

/// A container of role names that knows how many roles it holds.
pub trait NumRoles {
    /// The number of roles in the container.
    spec fn role_count(&self) -> nat;

    /// The number of roles in the container.
    fn num_roles(&self) -> (count: usize)
        requires
            self.role_count() <= usize::MAX,
        ensures
            count == self.role_count(),
    ;
}

/// A container of role names that can add the roles it stands for to a list.
pub trait ExtractRoles<R: Role>: Sized {
    /// The roles that the container stands for, in the order in which it
    /// adds them.
    spec fn roles(&self) -> Seq<RoleModel<R::V>>;

    /// Appends the container's roles to `target`: what `target` held stays in
    /// front, and nothing is left out or merged.
    fn extract_roles(self, target: &mut Vec<KeycloakRole<R>>)
        ensures
            role_models(final(target)@) == role_models(old(target)@) + self.roles(),
    ;
}

/// Whether `held` has the role `wanted`.
pub fn has_role<R: Role>(held: &Vec<KeycloakRole<R>>, wanted: &R) -> (found: bool)
    ensures
        found == holds_role(role_models(held@), wanted@),
{
    let mut index: usize = 0;
    while index < held.len()
        invariant
            index <= held@.len(),
            forall|i: int| 0 <= i < index ==> (#[trigger] role_models(held@)[i]).role() != wanted@,
        decreases held@.len() - index,
    {
        if held[index].role().same(wanted) {
            assert(role_models(held@)[index as int].role() == wanted@);
            return true;
        }
        index += 1;
    }
    false
}

} // verus!
