//! The claims of a Keycloak token in typed form, as they come out of the
//! token's payload.

use crate::role::{
    client_role_models, realm_role_models, role_models, ExtractRoles, KeycloakRole, NumRoles, Role,
    RoleModel,
};
use vstd::prelude::*;

verus! {

/// The standard claims of a Keycloak access token, and in `extra` whatever
/// else the application reads from the payload.
#[derive(Debug, Clone)]
pub struct StandardClaims<Extra> {
    /// Expiration time (unix timestamp).
    pub exp: Option<i64>,
    /// Issued at time (unix timestamp).
    pub iat: i64,
    /// JWT ID (unique identifier for this token).
    pub jti: String,
    /// Issuer (who created and signed this token).
    pub iss: String,
    /// Audience (who or what the token is intended for).
    pub aud: Option<Vec<String>>,
    /// Subject (whom the token refers to).
    pub sub: String,
    /// Type of token.
    pub typ: String,
    /// Authorized party (the party to which this token was issued).
    pub azp: String,
    /// Roles of the realm, if the token lists any.
    pub realm_access: Option<RealmAccess>,
    /// Roles per client, if the token lists any.
    pub resource_access: Option<ResourceAccess>,
    /// Groups that the subject belongs to.
    pub groups: Option<Vec<String>>,
    /// Everything else that the application asked for.
    pub extra: Extra,
}

/// Access details.
#[derive(Debug, Clone)]
pub struct Access {
    /// A list of role names.
    pub roles: Vec<String>,
}

/// The roles that a token grants for the whole realm.
#[derive(Debug, Clone)]
pub struct RealmAccess(pub Access);

/// The roles that a token grants per client: one entry for each client, in
/// the order in which the clients are walked.
#[derive(Debug, Clone)]
pub struct ResourceAccess(pub Vec<(String, Access)>);

/// The number of role names in `entries`, all clients taken together.
pub open spec fn resource_role_count(entries: Seq<(String, Access)>) -> nat
    decreases entries.len(),
{
    if entries.len() == 0 {
        0
    } else {
        resource_role_count(entries.drop_last()) + entries.last().1.roles@.len()
    }
}

/// The client roles that `entries` stand for: client after client in the
/// order of the entries, and for each client its roles in their order.
pub open spec fn resource_role_models<R: Role>(entries: Seq<(String, Access)>) -> Seq<
    RoleModel<R::V>,
>
    decreases entries.len(),
{
    if entries.len() == 0 {
        Seq::empty()
    } else {
        resource_role_models::<R>(entries.drop_last()) + client_role_models::<R>(
            entries.last().0@,
            entries.last().1.roles@,
        )
    }
}

impl ResourceAccess {
    /// No client has two entries: the entries are a map from client name to
    /// access.
    pub open spec fn wf(&self) -> bool {
        forall|i: int, j: int|
            0 <= i < j < self.0@.len() ==> (#[trigger] self.0@[i]).0@ != (#[trigger] self.0@[j]).0@
    }

    /// No entry is one of the client `client`.
    pub open spec fn lacks(&self, client: Seq<char>) -> bool {
        forall|i: int| 0 <= i < self.0@.len() ==> (#[trigger] self.0@[i]).0@ != client
    }

    /// Access for no client at all.
    pub fn new() -> (access: ResourceAccess)
        ensures
            access.0@.len() == 0,
            access.wf(),
    {
        ResourceAccess(Vec::new())
    }

    /// Sets the access of `client`. Where the client has an entry, the entry
    /// keeps its place and the access it held is handed back; where it has
    /// none, a new entry goes to the end.
    pub fn insert(&mut self, client: String, access: Access) -> (replaced: Option<Access>)
        requires
            old(self).wf(),
        ensures
            final(self).wf(),
            replaced is None ==> old(self).lacks(client@) && final(self).0@ == old(self).0@.push(
                (client, access),
            ),
            replaced is Some ==> exists|at: int|
                0 <= at < old(self).0@.len() && (#[trigger] old(self).0@[at]).0@ == client@
                    && replaced->Some_0 == old(self).0@[at].1 && final(self).0@ == old(
                    self,
                ).0@.update(at, (old(self).0@[at].0, access)),
    {
        let mut index: usize = 0;
        while index < self.0.len()
            invariant
                index <= self.0@.len(),
                self.0@ == old(self).0@,
                old(self).wf(),
                forall|i: int| 0 <= i < index ==> (#[trigger] self.0@[i]).0@ != client@,
            decreases self.0@.len() - index,
        {
            if self.0[index].0 == client {
                let ghost before = self.0@;
                let (name, held) = self.0.remove(index);
                self.0.insert(index, (name, access));
                assert(self.0@ == before.update(index as int, (name, access)));
                assert(before[index as int].0@ == client@);
                assert(forall|i: int|
                    0 <= i < self.0@.len() ==> (#[trigger] self.0@[i]).0 == before[i].0);
                return Some(held);
            }
            index += 1;
        }
        self.0.push((client, access));
        None
    }
}

impl NumRoles for RealmAccess {
    open spec fn role_count(&self) -> nat {
        self.0.roles@.len()
    }

    fn num_roles(&self) -> (count: usize) {
        self.0.roles.len()
    }
}

impl NumRoles for ResourceAccess {
    open spec fn role_count(&self) -> nat {
        resource_role_count(self.0@)
    }

    fn num_roles(&self) -> (count: usize) {
        let mut count: usize = 0;
        let mut index: usize = 0;
        while index < self.0.len()
            invariant
                index <= self.0@.len(),
                count == resource_role_count(self.0@.subrange(0, index as int)),
                resource_role_count(self.0@) <= usize::MAX,
            decreases self.0@.len() - index,
        {
            proof {
                lemma_resource_role_count_grows(self.0@, index as int + 1);
                assert(self.0@.subrange(0, index as int + 1).drop_last() == self.0@.subrange(
                    0,
                    index as int,
                ));
            }
            count = count + self.0[index].1.roles.len();
            index += 1;
        }
        assert(self.0@.subrange(0, index as int) == self.0@);
        count
    }
}

/// The roles of the first `upto` entries are no more than those of all.
pub proof fn lemma_resource_role_count_grows(entries: Seq<(String, Access)>, upto: int)
    requires
        0 <= upto <= entries.len(),
    ensures
        resource_role_count(entries.subrange(0, upto)) <= resource_role_count(entries),
    decreases entries.len(),
{
    if upto == entries.len() {
        assert(entries.subrange(0, upto) == entries);
    } else {
        lemma_resource_role_count_grows(entries.drop_last(), upto);
        assert(entries.drop_last().subrange(0, upto) == entries.subrange(0, upto));
    }
}

/// The entries stand for as many roles as they hold role names.
pub proof fn lemma_resource_roles_are_counted<R: Role>(entries: Seq<(String, Access)>)
    ensures
        resource_role_models::<R>(entries).len() == resource_role_count(entries),
    decreases entries.len(),
{
    if entries.len() > 0 {
        lemma_resource_roles_are_counted::<R>(entries.drop_last());
    }
}

impl<R: Role> ExtractRoles<R> for RealmAccess {
    open spec fn roles(&self) -> Seq<RoleModel<R::V>> {
        realm_role_models::<R>(self.0.roles@)
    }

    fn extract_roles(self, target: &mut Vec<KeycloakRole<R>>) {
        let ghost before = role_models(target@);
        let mut index: usize = 0;
        while index < self.0.roles.len()
            invariant
                index <= self.0.roles@.len(),
                role_models(target@) == before + realm_role_models::<R>(
                    self.0.roles@.subrange(0, index as int),
                ),
            decreases self.0.roles@.len() - index,
        {
            let ghost held = target@;
            let role = R::from_name(self.0.roles[index].clone());
            target.push(KeycloakRole::Realm { role });
            index += 1;
            assert(role_models(target@) == before + realm_role_models::<R>(
                self.0.roles@.subrange(0, index as int),
            )) by {
                assert(self.0.roles@.subrange(0, index as int) == self.0.roles@.subrange(
                    0,
                    index as int - 1,
                ).push(self.0.roles@[index as int - 1]));
                assert(role_models(target@) == role_models(held).push(target@.last()@));
            }
        }
        assert(self.0.roles@.subrange(0, index as int) == self.0.roles@);
    }
}

impl<R: Role> ExtractRoles<R> for ResourceAccess {
    open spec fn roles(&self) -> Seq<RoleModel<R::V>> {
        resource_role_models::<R>(self.0@)
    }

    fn extract_roles(self, target: &mut Vec<KeycloakRole<R>>) {
        let ghost before = role_models(target@);
        let mut index: usize = 0;
        while index < self.0.len()
            invariant
                index <= self.0@.len(),
                role_models(target@) == before + resource_role_models::<R>(
                    self.0@.subrange(0, index as int),
                ),
            decreases self.0@.len() - index,
        {
            let ghost done = role_models(target@);
            let client = &self.0[index].0;
            let names = &self.0[index].1.roles;
            let mut at: usize = 0;
            while at < names.len()
                invariant
                    at <= names@.len(),
                    role_models(target@) == done + client_role_models::<R>(
                        client@,
                        names@.subrange(0, at as int),
                    ),
                decreases names@.len() - at,
            {
                let ghost held = target@;
                let role = R::from_name(names[at].clone());
                target.push(KeycloakRole::Client { client: client.clone(), role });
                at += 1;
                assert(role_models(target@) == done + client_role_models::<R>(
                    client@,
                    names@.subrange(0, at as int),
                )) by {
                    assert(names@.subrange(0, at as int) == names@.subrange(0, at as int - 1).push(
                        names@[at as int - 1],
                    ));
                    assert(role_models(target@) == role_models(held).push(target@.last()@));
                }
            }
            assert(names@.subrange(0, at as int) == names@);
            index += 1;
            assert(self.0@.subrange(0, index as int).drop_last() == self.0@.subrange(
                0,
                index as int - 1,
            ));
        }
        assert(self.0@.subrange(0, index as int) == self.0@);
    }
}

/// The profile of the user that a token speaks of.
#[derive(Debug, Clone)]
pub struct Profile {
    /// First name.
    pub given_name: Option<String>,
    /// Combined name.
    pub full_name: Option<String>,
    /// Last name.
    pub family_name: Option<String>,
    /// Username of the user.
    pub preferred_username: Option<String>,
}

/// The email address of the user that a token speaks of.
#[derive(Debug, Clone)]
pub struct Email {
    /// Email address of the user.
    pub email: Option<String>,
    /// Whether the user's email is verified.
    pub email_verified: Option<bool>,
}

/// What a token says of its user where the application asks for no more.
#[derive(Debug, Clone)]
pub struct ProfileAndEmail {
    pub profile: Option<Profile>,
    pub email: Option<Email>,
}

} // verus!
