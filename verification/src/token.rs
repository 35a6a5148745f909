//! The verified, normalized token, and the checks that a set of claims has to
//! pass on the way to it.

use crate::claims::{
    lemma_resource_roles_are_counted, resource_role_models, ProfileAndEmail, RealmAccess,
    ResourceAccess, StandardClaims,
};
use crate::decode::RawClaims;
use crate::error::AuthError;
use crate::instant::{checked_instant, UtcInstant, MAX_UNIX_SECONDS, MIN_UNIX_SECONDS};
use crate::role::{
    first_missing_at, has_role, holds_all, holds_none, holds_role, realm_role_models, role_models,
    ExtractRoles, KeycloakRole, NumRoles, Role, RoleModel,
};
use vstd::prelude::*;
use vstd::string::StringExecFns;

verus! {

/// What a token says once its claims have been checked and brought into
/// shape.
#[derive(Debug, PartialEq, Clone)]
pub struct KeycloakToken<R: Role, Extra = ProfileAndEmail> {
    /// Expiration time (UTC); the latest instant there is for a token that
    /// names none.
    pub expires_at: UtcInstant,
    /// Issued at time (UTC).
    pub issued_at: UtcInstant,
    /// JWT ID (unique identifier for this token).
    pub jwt_id: String,
    /// Issuer (who created and signed this token).
    pub issuer: String,
    /// Audience (who or what the token is intended for).
    pub audience: Option<Vec<String>>,
    /// Subject (whom the token refers to).
    pub subject: String,
    /// Authorized party (the party to which this token was issued).
    pub authorized_party: String,
    /// Roles of the user: those of the realm first, then those of each client.
    pub roles: Vec<KeycloakRole<R>>,
    /// Groups that the subject belongs to.
    pub groups: Option<Vec<String>>,
    /// Everything else that the application asked for.
    pub extra: Extra,
}

/// `timestamp` is the Unix time of a representable instant.
pub open spec fn representable(timestamp: i64) -> bool {
    MIN_UNIX_SECONDS <= timestamp <= MAX_UNIX_SECONDS
}

/// The claims' timestamps can be turned into instants: `iat`, and `exp` where
/// there is one.
pub open spec fn timestamps_representable<Extra>(raw: StandardClaims<Extra>) -> bool {
    (raw.exp is Some ==> representable(raw.exp->Some_0)) && representable(raw.iat)
}

/// When a token with the claim `exp` expires: at the start of that second, or
/// with no such claim at the latest instant there is.
pub open spec fn expiry_of(exp: Option<i64>) -> UtcInstant {
    match exp {
        Some(timestamp) => UtcInstant::at_second(timestamp),
        None => UtcInstant::spec_latest(),
    }
}

/// The roles that a token with this access has: the roles of the realm in
/// their order, then those of each client.
pub open spec fn granted_roles<R: Role>(
    realm_access: Option<RealmAccess>,
    resource_access: Option<ResourceAccess>,
) -> Seq<RoleModel<R::V>> {
    (match realm_access {
        Some(access) => realm_role_models::<R>(access.0.roles@),
        None => Seq::empty(),
    }) + (match resource_access {
        Some(access) => resource_role_models::<R>(access.0@),
        None => Seq::empty(),
    })
}

/// The start of every reason given for an `exp` that is no timestamp.
pub open spec fn expiry_reason() -> Seq<char> {
    "Could not parse 'exp' (expires_at) field as unix timestamp: "@
}

/// The start of every reason given for an `iat` that is no timestamp.
pub open spec fn issued_reason() -> Seq<char> {
    "Could not parse 'iat' (issued_at) field as unix timestamp: "@
}

/// `failure` is what [`KeycloakToken::parse`] answers to `raw`: a complaint
/// about `exp` where that is not representable, else one about `iat`.
pub open spec fn names_bad_timestamp<Extra>(failure: AuthError, raw: StandardClaims<Extra>) -> bool {
    &&& failure is InvalidToken
    &&& if raw.exp is Some && !representable(raw.exp->Some_0) {
        expiry_reason().is_prefix_of(failure->reason@)
    } else {
        issued_reason().is_prefix_of(failure->reason@)
    }
}

impl<R: Role, Extra> KeycloakToken<R, Extra> {
    /// The token is the one that the claims `raw` describe.
    pub open spec fn describes(&self, raw: StandardClaims<Extra>) -> bool {
        &&& self.expires_at == expiry_of(raw.exp)
        &&& self.issued_at == UtcInstant::at_second(raw.iat)
        &&& self.jwt_id == raw.jti
        &&& self.issuer == raw.iss
        &&& self.audience == raw.aud
        &&& self.subject == raw.sub
        &&& self.authorized_party == raw.azp
        &&& role_models(self.roles@) == granted_roles::<R>(raw.realm_access, raw.resource_access)
        &&& self.groups == raw.groups
        &&& self.extra == raw.extra
    }

    /// The token has expired by the instant `now`.
    pub open spec fn expired_at(&self, now: UtcInstant) -> bool {
        now.later_than(&self.expires_at)
    }

    /// Brings the claims `raw` into the shape of a token. Fails, naming the
    /// field, where `exp` or `iat` is no timestamp of a representable instant.
    pub fn parse(raw: StandardClaims<Extra>) -> (outcome: Result<Self, AuthError>)
        ensures
            outcome is Ok <==> timestamps_representable(raw),
            outcome is Ok ==> outcome->Ok_0.describes(raw),
            outcome is Err ==> names_bad_timestamp(outcome->Err_0, raw),
    {
        let expires_at = match raw.exp {
            None => UtcInstant::latest(),
            Some(timestamp) => match checked_instant(timestamp) {
                Ok(instant) => instant,
                Err(detail) => {
                    return Err(
                        invalid_timestamp(
                            "Could not parse 'exp' (expires_at) field as unix timestamp: ",
                            detail,
                        ),
                    );
                },
            },
        };
        let issued_at = match checked_instant(raw.iat) {
            Ok(instant) => instant,
            Err(detail) => {
                return Err(
                    invalid_timestamp(
                        "Could not parse 'iat' (issued_at) field as unix timestamp: ",
                        detail,
                    ),
                );
            },
        };
        let mut roles: Vec<KeycloakRole<R>> = Vec::new();
        assert(role_models(roles@) == Seq::<RoleModel<R::V>>::empty());
        if let Some(access) = raw.realm_access {
            access.extract_roles(&mut roles);
        }
        if let Some(access) = raw.resource_access {
            access.extract_roles(&mut roles);
        }
        Ok(
            KeycloakToken {
                expires_at,
                issued_at,
                jwt_id: raw.jti,
                issuer: raw.iss,
                audience: raw.aud,
                subject: raw.sub,
                authorized_party: raw.azp,
                roles,
                groups: raw.groups,
                extra: raw.extra,
            },
        )
    }

    /// Whether the token has expired by the instant `now`: whether `now`
    /// comes strictly after the token's time of expiry.
    pub fn is_expired_at(&self, now: &UtcInstant) -> (expired: bool)
        ensures
            expired == self.expired_at(*now),
    {
        now.is_after(&self.expires_at)
    }

    /// Whether the token has expired by now, going by the system clock: the
    /// answer is that of [`Self::is_expired_at`] for the instant that the
    /// clock shows, which is some representable instant. A token that expires
    /// at the latest instant there is never has.
    pub fn is_expired(&self) -> (expired: bool)
        ensures
            exists|now: UtcInstant| now.wf() && expired == #[trigger] self.expired_at(now),
            self.expires_at == UtcInstant::spec_latest() ==> !expired,
    {
        let now = UtcInstant::now();
        let expired = self.is_expired_at(&now);
        assert(now.wf() && expired == self.expired_at(now));
        expired
    }

    /// Fails with `TokenExpired` if the token has expired by the instant
    /// `now`.
    pub fn assert_not_expired_at(&self, now: &UtcInstant) -> (outcome: Result<(), AuthError>)
        ensures
            outcome is Ok <==> !self.expired_at(*now),
            outcome is Err ==> outcome->Err_0 is TokenExpired,
    {
        if self.is_expired_at(now) {
            Err(AuthError::TokenExpired)
        } else {
            Ok(())
        }
    }

    /// Fails with `TokenExpired` if the token has expired by now, going by
    /// the system clock: the outcome is that of
    /// [`Self::assert_not_expired_at`] for the instant that the clock shows,
    /// which is some representable instant. A token that expires at the
    /// latest instant there is always passes.
    pub fn assert_not_expired(&self) -> (outcome: Result<(), AuthError>)
        ensures
            exists|now: UtcInstant|
                now.wf() && (outcome is Ok <==> !(#[trigger] self.expired_at(now))),
            outcome is Err ==> outcome->Err_0 is TokenExpired,
            self.expires_at == UtcInstant::spec_latest() ==> outcome is Ok,
    {
        let now = UtcInstant::now();
        let outcome = self.assert_not_expired_at(&now);
        assert(now.wf() && (outcome is Ok <==> !self.expired_at(now)));
        outcome
    }

    /// Fails with `MissingExpectedRole`, naming the first of `roles` that the
    /// token lacks; succeeds if it has them all.
    pub fn expect_roles(&self, roles: &[R]) -> (outcome: Result<(), AuthError>)
        ensures
            outcome is Ok <==> holds_all(role_models(self.roles@), roles@),
            outcome is Err ==> outcome->Err_0 is MissingExpectedRole && exists|at: int|
                #[trigger] first_missing_at(role_models(self.roles@), roles@, at)
                    && outcome->Err_0->role@ == R::text(roles@[at]@),
    {
        let mut index: usize = 0;
        while index < roles.len()
            invariant
                index <= roles@.len(),
                forall|j: int|
                    0 <= j < index ==> holds_role(
                        role_models(self.roles@),
                        (#[trigger] roles@[j])@,
                    ),
            decreases roles@.len() - index,
        {
            if !has_role(&self.roles, &roles[index]) {
                assert(first_missing_at(role_models(self.roles@), roles@, index as int));
                return Err(AuthError::MissingExpectedRole { role: roles[index].name() });
            }
            index += 1;
        }
        Ok(())
    }

    /// Fails with `UnexpectedRole` if the token has any of `roles`.
    pub fn not_expect_roles(&self, roles: &[R]) -> (outcome: Result<(), AuthError>)
        ensures
            outcome is Ok <==> holds_none(role_models(self.roles@), roles@),
            outcome is Err ==> outcome->Err_0 is UnexpectedRole,
    {
        let mut index: usize = 0;
        while index < roles.len()
            invariant
                index <= roles@.len(),
                forall|j: int|
                    0 <= j < index ==> !holds_role(
                        role_models(self.roles@),
                        (#[trigger] roles@[j])@,
                    ),
            decreases roles@.len() - index,
        {
            if has_role(&self.roles, &roles[index]) {
                return Err(AuthError::UnexpectedRole);
            }
            index += 1;
        }
        Ok(())
    }
}

/// What checking claims has to end in, where the claims came out of the
/// payload as `raw` and are checked at the instant `now` against the roles
/// `required`: the first complaint in the order timestamps, expiry, roles; or
/// the token, and with it the raw claims where the caller asked to keep them.
pub open spec fn checked_at<R: Role, Extra>(
    outcome: Result<(Option<RawClaims>, KeycloakToken<R, Extra>), AuthError>,
    raw_claims: RawClaims,
    raw: StandardClaims<Extra>,
    persist_raw_claims: bool,
    required: Seq<R>,
    now: UtcInstant,
) -> bool {
    let granted = granted_roles::<R>(raw.realm_access, raw.resource_access);
    if !timestamps_representable(raw) {
        outcome is Err && names_bad_timestamp(outcome->Err_0, raw)
    } else if now.later_than(&expiry_of(raw.exp)) {
        outcome is Err && outcome->Err_0 is TokenExpired
    } else if !holds_all(granted, required) {
        &&& outcome is Err
        &&& outcome->Err_0 is MissingExpectedRole
        &&& exists|at: int| #[trigger]
            first_missing_at(granted, required, at) && outcome->Err_0->role@ == R::text(
                required[at]@,
            )
    } else {
        &&& outcome is Ok
        &&& outcome->Ok_0.1.describes(raw)
        &&& outcome->Ok_0.0 == if persist_raw_claims {
            Some(raw_claims)
        } else {
            None::<RawClaims>
        }
    }
}

/// Turns the claims of a verified token into a [`KeycloakToken`] and checks
/// it at the instant `now`. `standard_claims` is what projecting `raw_claims`
/// onto the standard claims gave: the claims, or the message of the JSON
/// error, which comes back as `JsonParse`. After that the checks come in this
/// order: the timestamps, the expiry, the roles in `required_roles`.
pub fn parse_raw_claims_at<R: Role, Extra>(
    raw_claims: RawClaims,
    standard_claims: Result<StandardClaims<Extra>, String>,
    persist_raw_claims: bool,
    required_roles: &[R],
    now: &UtcInstant,
) -> (outcome: Result<(Option<RawClaims>, KeycloakToken<R, Extra>), AuthError>)
    ensures
        standard_claims is Err ==> outcome is Err && outcome->Err_0 is JsonParse
            && outcome->Err_0->message == standard_claims->Err_0,
        standard_claims is Ok ==> checked_at(
            outcome,
            raw_claims,
            standard_claims->Ok_0,
            persist_raw_claims,
            required_roles@,
            *now,
        ),
{
    let raw = match standard_claims {
        Ok(raw) => raw,
        Err(message) => {
            return Err(AuthError::JsonParse { message });
        },
    };
    let kept = if persist_raw_claims {
        Some(raw_claims)
    } else {
        None
    };
    let token = match KeycloakToken::<R, Extra>::parse(raw) {
        Ok(token) => token,
        Err(failure) => {
            return Err(failure);
        },
    };
    match token.assert_not_expired_at(now) {
        Ok(()) => {},
        Err(failure) => {
            return Err(failure);
        },
    }
    match token.expect_roles(required_roles) {
        Ok(()) => {},
        Err(failure) => {
            return Err(failure);
        },
    }
    Ok((kept, token))
}

/// [`parse_raw_claims_at`] at the instant that the system clock shows. What
/// the clock shows is not known beforehand, so of the expiry only this is
/// promised: claims without `exp` never fail for it.
pub fn parse_raw_claims<R: Role, Extra>(
    raw_claims: RawClaims,
    standard_claims: Result<StandardClaims<Extra>, String>,
    persist_raw_claims: bool,
    required_roles: &[R],
) -> (outcome: Result<(Option<RawClaims>, KeycloakToken<R, Extra>), AuthError>)
    ensures
        standard_claims is Err ==> outcome is Err && outcome->Err_0 is JsonParse
            && outcome->Err_0->message == standard_claims->Err_0,
        standard_claims is Ok ==> exists|now: UtcInstant|
            now.wf() && #[trigger] checked_at(
                outcome,
                raw_claims,
                standard_claims->Ok_0,
                persist_raw_claims,
                required_roles@,
                now,
            ),
        standard_claims is Ok && standard_claims->Ok_0.exp is None ==> forall|any: UtcInstant|
            any.wf() ==> #[trigger] checked_at(
                outcome,
                raw_claims,
                standard_claims->Ok_0,
                persist_raw_claims,
                required_roles@,
                any,
            ),
{
    let now = UtcInstant::now();
    parse_raw_claims_at(raw_claims, standard_claims, persist_raw_claims, required_roles, &now)
}

/// The failure for a timestamp that stands for no representable instant: the
/// reason is `field`, which names the claim, followed by `detail`.
fn invalid_timestamp(field: &str, detail: String) -> (failure: AuthError)
    ensures
        failure is InvalidToken,
        failure->reason@ == field@ + detail@,
        field@.is_prefix_of(failure->reason@),
{
    let reason = String::from_str(field).concat(detail.as_str());
    assert(reason@.subrange(0, field@.len() as int) == field@);
    AuthError::InvalidToken { reason }
}

/// Across realm and clients the number of roles in the containers is
/// the number of roles granted: none is dropped and none is added. The
/// realm's roles come first, in their order, each made from its name.
pub proof fn law_every_listed_role_is_granted_once<R: Role>(
    realm_access: Option<RealmAccess>,
    resource_access: Option<ResourceAccess>,
)
    ensures
        granted_roles::<R>(realm_access, resource_access).len() == (match realm_access {
            Some(access) => access.role_count(),
            None => 0,
        }) + (match resource_access {
            Some(access) => access.role_count(),
            None => 0,
        }),
        realm_access is Some ==> forall|i: int|
            0 <= i < realm_access->Some_0.0.roles@.len() ==> #[trigger] granted_roles::<R>(
                realm_access,
                resource_access,
            )[i] == (RoleModel::Realm { role: R::of_name(realm_access->Some_0.0.roles@[i]@) }),
{
    if resource_access is Some {
        lemma_resource_roles_are_counted::<R>(resource_access->Some_0.0@);
    }
}

/// A token made from claims without `exp` has expired at no instant.
pub proof fn law_no_expiry_never_expires<R: Role, Extra>(
    token: KeycloakToken<R, Extra>,
    raw: StandardClaims<Extra>,
    now: UtcInstant,
)
    requires
        token.describes(raw),
        raw.exp is None,
        now.wf(),
    ensures
        !token.expired_at(now),
{
}

/// A token made from claims with `exp` has expired at every instant from one
/// nanosecond after the start of that second, and at none before.
pub proof fn law_expiry_is_strict<R: Role, Extra>(
    token: KeycloakToken<R, Extra>,
    raw: StandardClaims<Extra>,
    now: UtcInstant,
)
    requires
        token.describes(raw),
        raw.exp is Some,
        representable(raw.exp->Some_0),
        now.wf(),
    ensures
        token.expired_at(now) <==> now.position() > raw.exp->Some_0 * 1_000_000_000,
{
}

} // verus!
