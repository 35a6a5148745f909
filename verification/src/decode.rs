//! Decoding a raw token: its header, the validation policy, the attempts
//! against each trusted key, and the look at the issuer that tells whether
//! the token belongs to this realm.

use crate::error::{decode_error, AuthError, DecodeErrorKind};
use jsonwebtoken::{Algorithm, DecodingKey, Header};
use std::collections::HashMap;
use vstd::prelude::*;
use vstd::string::{StrSliceExecFns, StringExecFns};

verus! {

/// The claims of a token as they were decoded: claim name to JSON value.
pub type RawClaims = HashMap<String, serde_json::Value>;

/// `serde_json::Value`, opaque here: a JSON value is carried, never looked
/// into.
#[verifier::external_type_specification]
#[verifier::external_body]
pub struct ExValue(serde_json::Value);

/// `jsonwebtoken::DecodingKey`, opaque here: a key is handed on to
/// `jsonwebtoken`, never looked into.
#[verifier::external_type_specification]
#[verifier::external_body]
pub struct ExDecodingKey(DecodingKey);

/// `jsonwebtoken::Header`, opaque here: of a header only the algorithm is
/// read, through [`header_algorithm`].
#[verifier::external_type_specification]
#[verifier::external_body]
pub struct ExHeader(Header);

/// `jsonwebtoken::Algorithm`, with its variants: an enum without fields, of
/// which the variant `HS256` is named here.
#[verifier::external_type_specification]
pub struct ExAlgorithm(Algorithm);

/// Whether `jsonwebtoken::decode_header` can read a header from `token`: the
/// token has at least two dots, and what stands before the last two is
/// base64url for JSON in the shape of a JWT header.
pub uninterp spec fn header_is_readable(token: Seq<char>) -> bool;

/// The claims of `claims` whose value is a JSON string, by claim name.
pub uninterp spec fn claim_texts(claims: RawClaims) -> Map<Seq<char>, Seq<char>>;

/// The claims in the payload of `token` whose value is a JSON string, by
/// claim name. Whenever `jsonwebtoken::decode` accepts a token, the claims
/// that it hands out are the JSON of the token's payload part, whatever the
/// key, the validation and the time.
pub uninterp spec fn payload_texts(token: Seq<char>) -> Map<Seq<char>, Seq<char>>;

/// The name of the claim that holds a token's issuer.
pub open spec fn issuer_claim() -> Seq<char> {
    seq!['i', 's', 's']
}

/// What an issuer has to end with to count as an issuer of `realm`: the
/// path separator `/` and the realm's name.
pub open spec fn realm_suffix(realm: Seq<char>) -> Seq<char> {
    seq!['/'] + realm
}

/// `issuer` names `realm`: it ends with the separator and the realm's name.
pub open spec fn issuer_names_realm(issuer: Seq<char>, realm: Seq<char>) -> bool {
    realm_suffix(realm).is_suffix_of(issuer)
}

/// `texts` holds an issuer, and that issuer names `realm`.
pub open spec fn texts_name_realm(texts: Map<Seq<char>, Seq<char>>, realm: Seq<char>) -> bool {
    texts.contains_key(issuer_claim()) && issuer_names_realm(texts[issuer_claim()], realm)
}

/// How a token is to be validated once its signature has been checked.
#[derive(Debug)]
pub struct ValidationPolicy {
    /// The only algorithm that the token's header may name.
    pub algorithm: Algorithm,
    /// Whether the `aud` claim is checked at all.
    pub validate_audience: bool,
    /// The audiences of which the token has to name one, if any were set.
    pub audiences: Option<Vec<String>>,
}

impl ValidationPolicy {
    /// The policy for a token whose header names `algorithm`, verified on
    /// behalf of `expected_audiences`: with no expected audience the `aud`
    /// claim is not looked at; otherwise the token has to name one of them.
    pub fn for_audiences(algorithm: Algorithm, expected_audiences: &[String]) -> (policy:
        ValidationPolicy)
        ensures
            policy.algorithm == algorithm,
            policy.validate_audience == (expected_audiences@.len() > 0),
            expected_audiences@.len() == 0 ==> policy.audiences is None,
            expected_audiences@.len() > 0 ==> policy.audiences is Some
                && policy.audiences->Some_0@ == expected_audiences@,
    {
        if expected_audiences.len() == 0 {
            ValidationPolicy { algorithm, validate_audience: false, audiences: None }
        } else {
            ValidationPolicy {
                algorithm,
                validate_audience: true,
                audiences: Some(owned_names(expected_audiences)),
            }
        }
    }
}

/// The names of `names` as a list of its own, in the same order.
pub fn owned_names(names: &[String]) -> (owned: Vec<String>)
    ensures
        owned@ == names@,
{
    let mut owned: Vec<String> = Vec::new();
    let mut index: usize = 0;
    while index < names.len()
        invariant
            index <= names@.len(),
            owned@ == names@.subrange(0, index as int),
        decreases names@.len() - index,
    {
        owned.push(names[index].clone());
        index += 1;
    }
    assert(names@.subrange(0, index as int) == names@);
    owned
}

/// What one round of attempts against a set of `keys` keys can end in: with
/// no key, the failure that says so; with keys, the claims or a decode
/// failure.
pub open spec fn attempt_outcome_fits(keys: nat, outcome: Result<RawClaims, AuthError>) -> bool {
    if keys == 0 {
        outcome == Err::<RawClaims, AuthError>(AuthError::NoDecodingKeys)
    } else {
        outcome is Ok || outcome->Err_0 is Decode
    }
}

/// What one attempt on `token` with one key can come to: claims, which are
/// then those of the token's own payload, or a decode failure.
pub open spec fn key_attempt_fits(token: Seq<char>, attempt: Result<RawClaims, AuthError>) -> bool {
    &&& attempt is Ok ==> claim_texts(attempt->Ok_0) == payload_texts(token)
    &&& attempt is Err ==> attempt->Err_0 is Decode
}

/// `attempts` are the attempts of one round on `token` against `keys` keys,
/// one key after the other in their order: no more attempts than keys, and at
/// least one where there is a key; every attempt but the last failed on a
/// signature that did not match; and the round ended before the last key
/// only on an attempt that did not fail so.
pub open spec fn round_of(
    token: Seq<char>,
    keys: nat,
    attempts: Seq<Result<RawClaims, AuthError>>,
) -> bool {
    &&& attempts.len() <= keys
    &&& (keys > 0 ==> attempts.len() > 0)
    &&& forall|i: int| 0 <= i < attempts.len() ==> key_attempt_fits(token, #[trigger] attempts[i])
    &&& forall|i: int|
        0 <= i < attempts.len() - 1 ==> (#[trigger] attempts[i]) is Err
            && attempts[i]->Err_0.is_signature_mismatch()
    &&& (attempts.len() < keys ==> !(attempts.last() is Err
        && attempts.last()->Err_0.is_signature_mismatch()))
}

/// What a round of `attempts` ends in: the last attempt, or, where none was
/// made, the failure that says that there was no key.
pub open spec fn settled(attempts: Seq<Result<RawClaims, AuthError>>) -> Result<
    RawClaims,
    AuthError,
> {
    if attempts.len() == 0 {
        Err(AuthError::NoDecodingKeys)
    } else {
        attempts.last()
    }
}

/// What a round comes to, whatever the single attempts gave:
/// - with no key, the failure that says so;
/// - claims only from the last attempt, after a signature mismatch on every
///   key before it, and then those of the token's own payload;
/// - a signature mismatch only after every key was tried;
/// - any other failure is a decode failure, and ended the round.
pub proof fn law_round_is_settled_by_the_first_decisive_attempt(
    token: Seq<char>,
    keys: nat,
    attempts: Seq<Result<RawClaims, AuthError>>,
)
    requires
        round_of(token, keys, attempts),
    ensures
        keys == 0 <==> settled(attempts) == Err::<RawClaims, AuthError>(AuthError::NoDecodingKeys),
        attempt_outcome_fits(keys, settled(attempts)),
        settled(attempts) is Ok ==> claim_texts(settled(attempts)->Ok_0) == payload_texts(token)
            && forall|i: int|
            0 <= i < attempts.len() - 1 ==> (#[trigger] attempts[i]) is Err
                && attempts[i]->Err_0.is_signature_mismatch(),
        settled(attempts) is Err && settled(attempts)->Err_0.is_signature_mismatch()
            ==> attempts.len() == keys,
{
}

/// `outcome` is what some round of attempts on `token` against `keys` keys
/// settles on.
pub open spec fn round_settles_on(
    token: Seq<char>,
    keys: nat,
    outcome: Result<RawClaims, AuthError>,
) -> bool {
    exists|attempts: Seq<Result<RawClaims, AuthError>>| #[trigger]
        round_of(token, keys, attempts) && outcome == settled(attempts)
}

/// Whether the outcome of an attempt with one key leaves it open that
/// another key fits: only a signature that did not match does.
pub fn should_check_with_another_key(outcome: &Result<RawClaims, AuthError>) -> (again: bool)
    ensures
        again == (outcome is Err && outcome->Err_0.is_signature_mismatch()),
{
    match outcome {
        Err(AuthError::Decode { source }) => match source.kind {
            DecodeErrorKind::InvalidSignature => true,
            _ => false,
        },
        _ => false,
    }
}

/// An encoded token, as it was handed in.
pub struct RawToken<'a>(pub &'a str);

impl<'a> RawToken<'a> {
    /// Decodes the token's header without looking at the signature.
    pub fn decode_header(&self) -> (outcome: Result<Header, AuthError>)
        ensures
            outcome is Ok <==> header_is_readable(self.0@),
            outcome is Err ==> outcome->Err_0 is DecodeHeader,
    {
        match read_header(self.0) {
            Ok(header) => Ok(header),
            Err(error) => Err(AuthError::DecodeHeader { source: decode_error(&error) }),
        }
    }

    /// One attempt: decodes the token and validates it under `policy` with
    /// `key`. Claims that come out are those of the token's own payload; a
    /// failure is a decode failure. Whether the attempt succeeds is up to the
    /// signature, the policy and the time.
    pub fn decode_with_key(&self, key: &DecodingKey, policy: &ValidationPolicy) -> (outcome:
        Result<RawClaims, AuthError>)
        ensures
            outcome is Ok ==> claim_texts(outcome->Ok_0) == payload_texts(self.0@),
            outcome is Err ==> outcome->Err_0 is Decode,
    {
        match verify_with_key(self.0, key, policy) {
            Ok(claims) => Ok(claims),
            Err(error) => Err(AuthError::Decode { source: decode_error(&error) }),
        }
    }

    /// Tries the keys in the order given until one of them verifies the token
    /// or an attempt fails for a reason other than a signature that does not
    /// match. Gives the claims of the first success, else the last failure,
    /// else, with no key at all, `NoDecodingKeys`. Claims that come out are
    /// those of the token's own payload.
    pub fn decode_and_validate(
        &self,
        header: &Header,
        expected_audiences: &[String],
        decoding_keys: &[DecodingKey],
    ) -> (outcome: Result<RawClaims, AuthError>)
        ensures
            attempt_outcome_fits(decoding_keys@.len(), outcome),
            outcome is Ok ==> claim_texts(outcome->Ok_0) == payload_texts(self.0@),
            round_settles_on(self.0@, decoding_keys@.len(), outcome),
    {
        let policy = ValidationPolicy::for_audiences(header_algorithm(header), expected_audiences);
        let mut outcome: Result<RawClaims, AuthError> = Err(AuthError::NoDecodingKeys);
        let ghost mut attempts: Seq<Result<RawClaims, AuthError>> = Seq::empty();
        let mut index: usize = 0;
        while index < decoding_keys.len()
            invariant_except_break
                index <= decoding_keys@.len(),
                attempts.len() == index,
                outcome == settled(attempts),
                forall|i: int|
                    0 <= i < attempts.len() ==> key_attempt_fits(self.0@, #[trigger] attempts[i]),
                forall|i: int|
                    0 <= i < attempts.len() ==> (#[trigger] attempts[i]) is Err
                        && attempts[i]->Err_0.is_signature_mismatch(),
            ensures
                round_of(self.0@, decoding_keys@.len(), attempts),
                outcome == settled(attempts),
            decreases decoding_keys@.len() - index,
        {
            outcome = self.decode_with_key(&decoding_keys[index], &policy);
            proof {
                attempts = attempts.push(outcome);
            }
            index += 1;
            if !should_check_with_another_key(&outcome) {
                break;
            }
        }
        outcome
    }
}

/// Whether `issuer` ends with the path separator `/` followed by `realm`, as
/// the issuer `https://host/realms/demo` does for the realm `demo`.
pub fn issuer_in_realm(issuer: &str, realm: &str) -> (named: bool)
    ensures
        named == issuer_names_realm(issuer@, realm@),
{
    let suffix = String::from_str("/").concat(realm);
    proof {
        reveal_strlit("/");
        assert("/"@ =~= seq!['/']);
    }
    ends_with(issuer, suffix.as_str())
}

/// Whether `claims` hold an issuer, as a JSON string, that names `realm`.
pub fn claims_name_realm(claims: &RawClaims, realm: &str) -> (named: bool)
    ensures
        named == texts_name_realm(claim_texts(*claims), realm@),
{
    proof {
        reveal_strlit("iss");
        assert("iss"@ =~= issuer_claim());
    }
    match text_claim(claims, "iss") {
        Some(issuer) => issuer_in_realm(issuer.as_str(), realm),
        None => false,
    }
}

/// What a look at a token without a check of its signature says of `realm`,
/// where `peeked` is what the look gave: the claims, or nothing where the
/// token could not be read. A look that gave nothing names no realm; claims
/// name the realm that their issuer names.
pub fn peek_names_realm(peeked: Option<&RawClaims>, realm: &str) -> (named: bool)
    ensures
        named == (peeked is Some && texts_name_realm(claim_texts(*peeked->Some_0), realm@)),
{
    match peeked {
        Some(claims) => claims_name_realm(claims, realm),
        None => false,
    }
}

/// Whether the token names `realm` as the place it was issued. The token is
/// decoded with `key` under the baseline algorithm `HS256` and without a look
/// at its signature, only to read the issuer. With no key, or when that
/// decode fails, or when the issuer is absent, is no string or does not end
/// with the realm, the answer is `false`: it is `true` only for a token
/// whose own payload holds an issuer that names the realm.
pub fn contains_realm(key: Option<&DecodingKey>, token: &str, realm: String) -> (named: bool)
    ensures
        key is None ==> !named,
        named ==> texts_name_realm(payload_texts(token@), realm@),
{
    match key {
        None => false,
        Some(key) => match decode_unverified(token, key, Algorithm::HS256) {
            Ok(claims) => peek_names_realm(Some(&claims), realm.as_str()),
            Err(_) => peek_names_realm(None, realm.as_str()),
        },
    }
}

/// Calls `jsonwebtoken::decode_header`.
///
/// Trusted: the call looks at the token alone, so whether it succeeds is a
/// fact about the token, named [`header_is_readable`].
#[verifier::external_body]
fn read_header(token: &str) -> (outcome: Result<Header, jsonwebtoken::errors::Error>)
    ensures
        outcome is Ok <==> header_is_readable(token@),
{
    jsonwebtoken::decode_header(token)
}

/// Reads the field `alg` of a `jsonwebtoken::Header`.
///
/// Trusted: nothing is claimed of the result.
#[verifier::external_body]
fn header_algorithm(header: &Header) -> Algorithm {
    header.alg
}

/// Calls `jsonwebtoken::decode` with a `jsonwebtoken::Validation` that is
/// `Validation::new(policy.algorithm)` with `validate_aud` and `aud` set from
/// the policy, and hands out the claims.
///
/// Trusted: whether the call succeeds is not claimed, as it depends on the
/// clock: `jsonwebtoken` compares the `exp` claim with the current time, and
/// gives up where the system clock stands before the year 1970. Where it
/// succeeds, the claims are the JSON of the token's payload part, so their
/// texts are those named [`payload_texts`].
#[verifier::external_body]
fn verify_with_key(token: &str, key: &DecodingKey, policy: &ValidationPolicy) -> (outcome: Result<
    RawClaims,
    jsonwebtoken::errors::Error,
>)
    ensures
        outcome is Ok ==> claim_texts(outcome->Ok_0) == payload_texts(token@),
{
    let mut validation = jsonwebtoken::Validation::new(policy.algorithm);
    validation.validate_aud = policy.validate_audience;
    validation.aud = policy.audiences.as_ref().map(|list| list.iter().cloned().collect());
    jsonwebtoken::decode::<RawClaims>(token, key, &validation).map(|data| data.claims)
}

/// Calls `jsonwebtoken::decode` with `Validation::new(algorithm)` after
/// `insecure_disable_signature_validation`, and hands out the claims.
///
/// Trusted: whether the call succeeds is not claimed, as it depends on the
/// clock as that of [`verify_with_key`] does. Where it succeeds, the claims
/// are the JSON of the token's payload part, so their texts are those named
/// [`payload_texts`].
#[verifier::external_body]
fn decode_unverified(token: &str, key: &DecodingKey, algorithm: Algorithm) -> (outcome: Result<
    RawClaims,
    jsonwebtoken::errors::Error,
>)
    ensures
        outcome is Ok ==> claim_texts(outcome->Ok_0) == payload_texts(token@),
{
    let mut validation = jsonwebtoken::Validation::new(algorithm);
    validation.insecure_disable_signature_validation();
    jsonwebtoken::decode::<RawClaims>(token, key, &validation).map(|data| data.claims)
}

/// Looks `name` up with `HashMap::get` and reads the value found with
/// `serde_json::Value::as_str`.
///
/// Trusted: the result is the text of the claim `name` where the claims hold
/// a JSON string under that name, and `None` where they hold none.
#[verifier::external_body]
fn text_claim(claims: &RawClaims, name: &str) -> (text: Option<String>)
    ensures
        text is Some <==> claim_texts(*claims).contains_key(name@),
        text is Some ==> text->Some_0@ == claim_texts(*claims)[name@],
{
    claims.get(name).and_then(|value| value.as_str()).map(|text| text.to_owned())
}

/// Whether `text` ends with `suffix`, character by character.
fn ends_with(text: &str, suffix: &str) -> (found: bool)
    ensures
        found == suffix@.is_suffix_of(text@),
{
    let text_len = text.unicode_len();
    let suffix_len = suffix.unicode_len();
    if suffix_len > text_len {
        return false;
    }
    let start = text_len - suffix_len;
    let mut index: usize = 0;
    while index < suffix_len
        invariant
            index <= suffix_len,
            text_len == text@.len(),
            suffix_len == suffix@.len(),
            start + suffix_len == text_len,
            forall|i: int| 0 <= i < index ==> text@[start + i] == suffix@[i],
        decreases suffix_len - index,
    {
        if text.get_char(start + index) != suffix.get_char(index) {
            assert(text@.subrange(start as int, text_len as int)[index as int]
                != suffix@[index as int]);
            return false;
        }
        index += 1;
    }
    assert(suffix@ =~= text@.subrange(start as int, text_len as int));
    true
}

} // verus!
