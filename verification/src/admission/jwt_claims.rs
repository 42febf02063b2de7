//! The claims of a token: when and for whom it is valid, and what it permits.
use crate::admission::jwks_refresh::lists_text;
use crate::admission::jwt::{JwtValidationFailure, JwtValidationFailureReason};
use crate::config::{
    Nanos, RuntimeAuthPolicy, RuntimeJwtAuth, RuntimeUpstreamPolicy, WallTime, SECOND,
};
use crate::json::{FieldView, ItemView, JsonDocument, JsonField, JsonItem, JsonView};
use crate::text::{clone_list, list_contains, split_whitespace, texts, words};
use vstd::hash_set::StringHashSet;
use vstd::prelude::*;

verus! {

/// The issuers of which one is expected.
pub open spec fn expected_issuers(jwt: RuntimeJwtAuth) -> Seq<Seq<char>> {
    match jwt.issuer {
        Some(issuer) => seq![issuer@],
        None => texts(jwt.issuers@),
    }
}

/// The audiences of which one is expected.
pub open spec fn expected_audiences(jwt: RuntimeJwtAuth) -> Seq<Seq<char>> {
    match jwt.audience {
        Some(audience) => seq![audience@],
        None => texts(jwt.audiences@),
    }
}

/// The claims name an expected issuer, or none is expected.
pub open spec fn issuer_accepted(jwt: RuntimeJwtAuth, claims: JsonView) -> bool {
    expected_issuers(jwt).len() == 0 || (claims.get_str("iss"@) matches Some(issuer)
        && expected_issuers(jwt).contains(issuer))
}

/// An item of the list is one of the expected texts.
pub open spec fn item_among(items: Seq<ItemView>, expected: Seq<Seq<char>>) -> bool {
    exists|i: int|
        0 <= i < items.len() && ((#[trigger] items[i]).text matches Some(text) && expected.contains(
            text,
        ))
}

/// The claims name an expected audience, alone or in a list, or none is expected.
pub open spec fn audience_accepted(jwt: RuntimeJwtAuth, claims: JsonView) -> bool {
    let expected = expected_audiences(jwt);
    expected.len() == 0 || match claims.get("aud"@) {
        Some(FieldView::Text(audience)) => expected.contains(audience),
        Some(FieldView::List(items)) => item_among(items, expected),
        _ => false,
    }
}

/// What is wrong with a token's registered claims, the first of several.
pub open spec fn claims_objection(jwt: RuntimeJwtAuth, claims: JsonView, now: WallTime) -> Option<
    JwtValidationFailureReason,
> {
    match now {
        WallTime::BeforeEpoch => Some(JwtValidationFailureReason::MalformedClaims),
        WallTime::SinceEpoch { secs } => {
            let skew = jwt.clock_skew as int / SECOND as int;
            match claims.get_u64("exp"@) {
                None => Some(JwtValidationFailureReason::MissingExpiration),
                Some(exp) => if later_than(secs as int, exp + skew) {
                    Some(JwtValidationFailureReason::TokenExpired)
                } else if in_future(claims.get_u64("nbf"@), secs + skew) {
                    Some(JwtValidationFailureReason::TokenNotYetValid)
                } else if in_future(claims.get_u64("iat"@), secs + skew) {
                    Some(JwtValidationFailureReason::TokenIssuedInFuture)
                } else if !issuer_accepted(jwt, claims) {
                    Some(JwtValidationFailureReason::IssuerMismatch)
                } else if !audience_accepted(jwt, claims) {
                    Some(JwtValidationFailureReason::AudienceMismatch)
                } else {
                    None
                },
            }
        },
    }
}

pub open spec fn later_than(time: int, limit: int) -> bool {
    time > limit
}

/// A point in time, where the claims give it, comes after `limit`.
pub open spec fn in_future(time: Option<u64>, limit: int) -> bool {
    match time {
        Some(time) => later_than(time as int, limit),
        None => false,
    }
}

pub fn jwt_expected_issuers(jwt: &RuntimeJwtAuth) -> (r: Vec<String>)
    ensures
        texts(r@) == expected_issuers(*jwt),
{
    match &jwt.issuer {
        Some(issuer) => {
            let mut r: Vec<String> = Vec::new();
            r.push(issuer.clone());
            assert(texts(r@) =~= seq![issuer@]);
            r
        },
        None => clone_list(&jwt.issuers),
    }
}

pub fn jwt_expected_audiences(jwt: &RuntimeJwtAuth) -> (r: Vec<String>)
    ensures
        texts(r@) == expected_audiences(*jwt),
{
    match &jwt.audience {
        Some(audience) => {
            let mut r: Vec<String> = Vec::new();
            r.push(audience.clone());
            assert(texts(r@) =~= seq![audience@]);
            r
        },
        None => clone_list(&jwt.audiences),
    }
}

pub fn jwt_issuer_matches(jwt: &RuntimeJwtAuth, claims: &JsonDocument) -> (r: bool)
    ensures
        r == issuer_accepted(*jwt, claims@),
{
    let expected = jwt_expected_issuers(jwt);
    assert(texts(expected@).len() == expected@.len());
    if expected.len() == 0 {
        return true;
    }
    match claims.get_str("iss") {
        Some(issuer) => list_contains(&expected, issuer),
        None => false,
    }
}

fn any_item_among(items: &Vec<JsonItem>, expected: &Vec<String>) -> (r: bool)
    ensures
        r == item_among(
            items@.map_values(|item: JsonItem| item@),
            texts(expected@),
        ),
{
    let ghost views = items@.map_values(|item: JsonItem| item@);
    let mut i: usize = 0;
    while i < items.len()
        invariant
            i <= items.len(),
            views == items@.map_values(|item: JsonItem| item@),
            forall|k: int|
                0 <= k < i ==> !((#[trigger] views[k]).text matches Some(text) && texts(
                    expected@,
                ).contains(text)),
        decreases items.len() - i,
    {
        assert(views[i as int] == items@[i as int]@);
        if let Some(text) = &items[i].text {
            if list_contains(expected, text.as_str()) {
                return true;
            }
        }
        i = i + 1;
    }
    false
}

pub fn jwt_audience_matches(jwt: &RuntimeJwtAuth, claims: &JsonDocument) -> (r: bool)
    ensures
        r == audience_accepted(*jwt, claims@),
{
    let expected = jwt_expected_audiences(jwt);
    assert(texts(expected@).len() == expected@.len());
    if expected.len() == 0 {
        return true;
    }
    match claims.get("aud") {
        Some(JsonField::Text(audience)) => list_contains(&expected, audience.as_str()),
        Some(JsonField::List(items)) => any_item_among(items, &expected),
        _ => false,
    }
}

pub fn validate_jwt_registered_claims(
    jwt: &RuntimeJwtAuth,
    claims: &JsonDocument,
    now: WallTime,
) -> (r: Result<(), JwtValidationFailure>)
    ensures
        match r {
            Ok(_) => claims_objection(*jwt, claims@, now) is None,
            Err(failure) => claims_objection(*jwt, claims@, now) == Some(failure.reason),
        },
{
    let now_secs: u64 = match now {
        WallTime::SinceEpoch { secs } => secs,
        WallTime::BeforeEpoch => {
            return Err(JwtValidationFailure::new(JwtValidationFailureReason::MalformedClaims));
        },
    };
    let clock_skew_secs: Nanos = jwt.clock_skew / SECOND;
    let exp: u64 = match claims.get_u64("exp") {
        Some(exp) => exp,
        None => {
            return Err(JwtValidationFailure::new(JwtValidationFailureReason::MissingExpiration));
        },
    };
    if now_secs as u128 > (exp as u128).saturating_add(clock_skew_secs) {
        return Err(JwtValidationFailure::new(JwtValidationFailureReason::TokenExpired));
    }
    let latest: u128 = (now_secs as u128).saturating_add(clock_skew_secs);
    if let Some(nbf) = claims.get_u64("nbf") {
        if latest < nbf as u128 {
            return Err(JwtValidationFailure::new(JwtValidationFailureReason::TokenNotYetValid));
        }
    }
    if let Some(iat) = claims.get_u64("iat") {
        if latest < iat as u128 {
            return Err(JwtValidationFailure::new(JwtValidationFailureReason::TokenIssuedInFuture));
        }
    }
    if !jwt_issuer_matches(jwt, claims) {
        return Err(JwtValidationFailure::new(JwtValidationFailureReason::IssuerMismatch));
    }
    if !jwt_audience_matches(jwt, claims) {
        return Err(JwtValidationFailure::new(JwtValidationFailureReason::AudienceMismatch));
    }
    Ok(())
}

/// The texts that a claim lists: the words of a string, or the strings of a list that are not
/// empty.
pub open spec fn claim_texts(claim: Option<FieldView>) -> Set<Seq<char>> {
    match claim {
        Some(FieldView::Text(text)) => Set::new(|word: Seq<char>| words(text).contains(word)),
        Some(FieldView::List(items)) => Set::new(
            |text: Seq<char>| text.len() > 0 && lists_text(items, text),
        ),
        _ => Set::empty(),
    }
}

/// The texts that either of two claims lists.
pub open spec fn claim_values(claims: JsonView, first: Seq<char>, second: Seq<char>) -> Set<
    Seq<char>,
> {
    claim_texts(claims.get(first)).union(claim_texts(claims.get(second)))
}

fn insert_claim_texts(values: &mut StringHashSet, claim: Option<&JsonField>)
    ensures
        final(values)@ == old(values)@.union(
            claim_texts(
                match claim {
                    Some(field) => Some(field@),
                    None => None,
                },
            ),
        ),
{
    match claim {
        Some(JsonField::Text(text)) => {
            let list = split_whitespace(text.as_str());
            let ghost all = words(text@);
            let mut i: usize = 0;
            assert(values@ =~= old(values)@.union(
                Set::new(|word: Seq<char>| all.take(0).contains(word)),
            ));
            while i < list.len()
                invariant
                    i <= list.len(),
                    all == texts(list@),
                    values@ == old(values)@.union(
                        Set::new(|word: Seq<char>| all.take(i as int).contains(word)),
                    ),
                decreases list.len() - i,
            {
                let word = list[i].clone();
                let ghost before = values@;
                values.insert(word);
                i = i + 1;
                proof {
                    let next = all.take(i as int);
                    assert(next =~= all.take(i - 1).push(word@));
                    assert forall|w: Seq<char>| #[trigger]
                        next.contains(w) <==> all.take(i - 1).contains(w) || w == word@ by {
                        if next.contains(w) {
                            let k = choose|k: int| 0 <= k < next.len() && next[k] == w;
                            if k < i - 1 {
                                assert(all.take(i - 1)[k] == w);
                            }
                        }
                        if all.take(i - 1).contains(w) {
                            let prefix = all.take(i - 1);
                            let k = choose|k: int| 0 <= k < prefix.len() && prefix[k] == w;
                            assert(next[k] == w);
                        }
                        if w == word@ {
                            assert(next[i - 1] == w);
                        }
                    }
                    assert(values@ =~= old(values)@.union(
                        Set::new(|word: Seq<char>| next.contains(word)),
                    ));
                }
            }
            assert(all.take(i as int) =~= all);
        },
        Some(JsonField::List(items)) => {
            let ghost views = items@.map_values(|item: JsonItem| item@);
            let mut i: usize = 0;
            assert(values@ =~= old(values)@.union(claim_texts(Some(FieldView::List(views.take(0))))));
            while i < items.len()
                invariant
                    i <= items.len(),
                    views == items@.map_values(|item: JsonItem| item@),
                    values@ == old(values)@.union(
                        claim_texts(Some(FieldView::List(views.take(i as int)))),
                    ),
                decreases items.len() - i,
            {
                let ghost before = values@;
                assert(views[i as int] == items@[i as int]@);
                if let Some(text) = &items[i].text {
                    if !text.as_str().is_empty() {
                        values.insert(text.clone());
                    }
                }
                i = i + 1;
                proof {
                    let prefix = views.take(i - 1);
                    let next = views.take(i as int);
                    assert forall|t: Seq<char>| #[trigger]
                        lists_text(next, t)
                            <==> lists_text(prefix, t) || views[i
                            - 1].text == Some(t) by {
                        if lists_text(next, t) {
                            let k = choose|k: int|
                                0 <= k < next.len() && (#[trigger] next[k]).text == Some(t);
                            if k < i - 1 {
                                assert(prefix[k].text == Some(t));
                            }
                        }
                        if lists_text(prefix, t) {
                            let k = choose|k: int|
                                0 <= k < prefix.len() && (#[trigger] prefix[k]).text == Some(t);
                            assert(next[k].text == Some(t));
                        }
                        if views[i - 1].text == Some(t) {
                            assert(next[i - 1].text == Some(t));
                        }
                    }
                    assert(values@ =~= old(values)@.union(
                        claim_texts(Some(FieldView::List(next))),
                    ));
                }
            }
            assert(views.take(i as int) =~= views);
        },
        _ => {
            assert(values@ =~= old(values)@.union(Set::empty()));
        },
    }
}

pub fn jwt_string_claim_values(claims: &JsonDocument, first: &str, second: &str) -> (r:
    StringHashSet)
    ensures
        r@ == claim_values(claims@, first@, second@),
{
    let mut values = StringHashSet::new();
    insert_claim_texts(&mut values, claims.get(first));
    insert_claim_texts(&mut values, claims.get(second));
    assert(values@ =~= claim_values(claims@, first@, second@));
    values
}

/// Every required text is among the values.
pub open spec fn all_among(required: Seq<String>, values: Set<Seq<char>>) -> bool {
    forall|i: int| 0 <= i < required.len() ==> values.contains((#[trigger] required[i])@)
}

fn contains_all(values: &StringHashSet, required: &Vec<String>) -> (r: bool)
    ensures
        r == all_among(required@, values@),
{
    let mut i: usize = 0;
    while i < required.len()
        invariant
            i <= required.len(),
            forall|k: int| 0 <= k < i ==> values@.contains((#[trigger] required@[k])@),
        decreases required.len() - i,
    {
        if !values.contains(required[i].as_str()) {
            assert(!values@.contains(required@[i as int]@));
            return false;
        }
        i = i + 1;
    }
    true
}

/// The claims carry every scope and every role that a policy requires.
pub open spec fn rbac_satisfied(auth: RuntimeAuthPolicy, claims: JsonView) -> bool {
    &&& all_among(auth.required_scopes@, claim_values(claims, "scope"@, "scp"@))
    &&& all_among(auth.required_roles@, claim_values(claims, "roles"@, "role"@))
}

pub fn jwt_claims_satisfy_rbac(
    policy: &RuntimeUpstreamPolicy,
    claims: &JsonDocument,
) -> (r: bool)
    ensures
        r == rbac_satisfied(policy.upstream_auth, claims@),
{
    let scopes = jwt_string_claim_values(claims, "scope", "scp");
    let roles = jwt_string_claim_values(claims, "roles", "role");
    contains_all(&scopes, &policy.upstream_auth.required_scopes) && contains_all(
        &roles,
        &policy.upstream_auth.required_roles,
    )
}

} // verus!
