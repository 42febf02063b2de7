//! Which credentials let a request through, whatever the policy and the request.
use crate::admission::jwks_cache::EntryView;
use crate::admission::jwt::{
    algorithm_label, compact_parts, der_integer, der_magnitude, der_signature, jose_header,
    JwtValidationFailureReason, ParsedView, RequestView,
};
use crate::admission::jwt_claims::{claims_objection, rbac_satisfied};
use crate::admission::jwt_validation::{
    failure_observation, readable_header, resolved_key, validation, PendingView, StepView,
};
use crate::admission::key_resolution::KeyView;
use crate::admission::key_resolver::lookup;
use crate::admission::laws::law_algorithms_are_known_by_name;
use crate::admission::policy::{
    api_key_accepted, local_auth, local_auth_end, AuthChallengeKind, DecisionView, LocalAuthView,
};
use crate::config::{JwtAlgorithm, Nanos, RuntimeAuthPolicy, RuntimeJwtAuth, WallTime, SECOND};
use crate::crypto::{base64url_bytes, hmac_sha256_tag, sha256_digest};
use crate::headers::{bearer_token, header_value, RequestHeaders};
use crate::json::{json_document, member, FieldView, JsonView};
use crate::number::{lemma_leading_zero, number_value, without_leading_zeros};
use crate::status::StatusCode;
use crate::text::{
    is_white, lemma_span_is, opt, same_ignoring_ascii_case, split_on, trimmed, white,
};
use crate::text_laws::{
    all_white, has_firm_ends, law_a_text_is_cut_at_its_separators,
    law_trimming_cuts_the_white_ends, law_words_are_the_longest_firm_stretches, word_at,
};
use vstd::prelude::*;

verus! {

/// Entry `i` is the first of that name, in whatever case the name is written.
pub open spec fn first_named(
    entries: Seq<(String, Option<String>)>,
    name: Seq<char>,
    i: int,
) -> bool {
    &&& 0 <= i < entries.len()
    &&& same_ignoring_ascii_case(entries[i].0@, name)
    &&& forall|j: int| 0 <= j < i ==> !same_ignoring_ascii_case((#[trigger] entries[j]).0@, name)
}

/// A header is the first entry of its name, in whatever case the name is written; there is none
/// where no entry has the name.
pub proof fn law_a_header_is_its_first_entry(
    entries: Seq<(String, Option<String>)>,
    name: Seq<char>,
)
    ensures
        forall|i: int| #[trigger]
            first_named(entries, name, i) ==> header_value(entries, name) == opt(entries[i].1),
        (forall|i: int|
            0 <= i < entries.len() ==> !same_ignoring_ascii_case((#[trigger] entries[i]).0@, name))
            ==> header_value(entries, name) is None,
    decreases entries.len(),
{
    if entries.len() > 0 {
        let rest = entries.drop_first();
        law_a_header_is_its_first_entry(rest, name);
        assert forall|i: int| #[trigger] first_named(entries, name, i) implies header_value(
            entries,
            name,
        ) == opt(entries[i].1) by {
            if i > 0 {
                assert(!same_ignoring_ascii_case(entries[0].0@, name));
                assert forall|j: int| 0 <= j < i - 1 implies !same_ignoring_ascii_case(
                    (#[trigger] rest[j]).0@,
                    name,
                ) by {
                    assert(rest[j] == entries[j + 1]);
                }
                assert(rest[i - 1] == entries[i]);
                assert(first_named(rest, name, i - 1));
            }
        }
        if forall|i: int|
            0 <= i < entries.len() ==> !same_ignoring_ascii_case((#[trigger] entries[i]).0@, name) {
            assert(!same_ignoring_ascii_case(entries[0].0@, name));
            assert forall|j: int| 0 <= j < rest.len() implies !same_ignoring_ascii_case(
                (#[trigger] rest[j]).0@,
                name,
            ) by {
                assert(rest[j] == entries[j + 1]);
            }
        }
    }
}

/// Every configured key lets a request through: a request whose key header, without the white space
/// around it, is exactly a key of the list is authorized, whichever key of the list it is.
pub proof fn law_every_configured_key_is_accepted(
    auth: RuntimeAuthPolicy,
    headers: &RequestHeaders,
    at: int,
    left: Seq<char>,
    right: Seq<char>,
    i: int,
)
    requires
        auth.api_key matches Some(api_key) && {
            &&& first_named(headers.entries@, api_key.header_name@, at)
            &&& 0 <= i < api_key.keys@.len()
            &&& api_key.keys@[i]@.len() > 0
            &&& has_firm_ends(api_key.keys@[i]@)
            &&& headers.entries@[at].1 matches Some(value) && value@ == left + api_key.keys@[i]@
                + right
        },
        all_white(left),
        all_white(right),
    ensures
        api_key_accepted(auth, Some(headers)),
{
    let api_key = auth.api_key->0;
    law_a_header_is_its_first_entry(headers.entries@, api_key.header_name@);
    law_trimming_cuts_the_white_ends(left, api_key.keys@[i]@, right);
    assert(crate::text::texts(api_key.keys@)[i] == api_key.keys@[i]@);
}

/// Nothing but a configured key lets a request through where keys are configured: not another
/// value, not an empty one, and not a request without the header.
pub proof fn law_only_configured_keys_are_accepted(
    auth: RuntimeAuthPolicy,
    headers: Option<&RequestHeaders>,
)
    requires
        auth.api_key is Some,
    ensures
        api_key_accepted(auth, headers) <==> {
            &&& headers matches Some(headers)
            &&& header_value(headers.entries@, auth.api_key->0.header_name@) matches Some(provided)
            &&& trimmed(provided).len() > 0
            &&& exists|i: int|
                0 <= i < auth.api_key->0.keys@.len() && (#[trigger] auth.api_key->0.keys@[i])@
                    == trimmed(provided)
        },
{
    let keys = auth.api_key->0.keys@;
    match headers {
        None => {},
        Some(headers) => match header_value(headers.entries@, auth.api_key->0.header_name@) {
            None => {},
            Some(provided) => {
                let value = trimmed(provided);
                if crate::text::texts(keys).contains(value) {
                    let i = choose|i: int|
                        0 <= i < crate::text::texts(keys).len() && crate::text::texts(keys)[i]
                            == value;
                    assert(keys[i]@ == value);
                }
                if exists|i: int| 0 <= i < keys.len() && (#[trigger] keys[i])@ == value {
                    let i = choose|i: int| 0 <= i < keys.len() && (#[trigger] keys[i])@ == value;
                    assert(crate::text::texts(keys)[i] == value);
                }
            },
        },
    }
}

/// A policy without keys asks for none, and a request that lacks a configured key is refused for
/// that, before any token is looked at.
pub proof fn law_keys_are_asked_for_first(
    auth: RuntimeAuthPolicy,
    headers: Option<&RequestHeaders>,
    cache: Map<Seq<char>, EntryView>,
    now: Nanos,
    wall: WallTime,
)
    ensures
        auth.api_key is None ==> api_key_accepted(auth, headers),
        auth.api_key is None && auth.jwt is None ==> local_auth(
            auth,
            headers,
            cache,
            now,
            wall,
        ).outcome == LocalAuthView::Decided(DecisionView::AdmitReady),
        !api_key_accepted(auth, headers) ==> {
            let report = local_auth(auth, headers, cache, now, wall);
            &&& report.cache == cache && report.refresh is None && report.observation is None
            &&& report.outcome matches LocalAuthView::Decided(DecisionView::Unauthorized {
                challenge,
                status,
                body,
            }) && challenge == AuthChallengeKind::ApiKey && status == StatusCode::Unauthorized && body
                == "unauthorized\n"@
        },
{
}

/// The token of an authorization header is what stands behind the scheme, without the white space
/// between and around them; the scheme's letters may be of either case.
pub proof fn law_a_bearer_token_stands_behind_its_scheme(
    left: Seq<char>,
    scheme: Seq<char>,
    between: Seq<char>,
    token: Seq<char>,
    right: Seq<char>,
)
    requires
        all_white(left),
        all_white(between),
        all_white(right),
        between.len() > 0,
        token.len() > 0,
        has_firm_ends(token),
        scheme.len() > 0,
        forall|i: int| 0 <= i < scheme.len() ==> !is_white(#[trigger] scheme[i]),
    ensures
        same_ignoring_ascii_case(scheme, "bearer"@) ==> bearer_token(
            left + (scheme + between + token) + right,
        ) == Some(token),
        !same_ignoring_ascii_case(scheme, "bearer"@) ==> bearer_token(
            left + (scheme + between + token) + right,
        ) is None,
        bearer_token(left + scheme + right) is None,
{
    let value = scheme + between + token;
    assert(value[0] == scheme[0]);
    assert(value[value.len() - 1] == token[token.len() - 1]);
    law_trimming_cuts_the_white_ends(left, value, right);
    let n = scheme.len() as int;
    assert forall|i: int| 0 <= i < n implies !white()(#[trigger] value[i]) by {
        assert(value[i] == scheme[i]);
    }
    assert(value[n] == between[0]);
    lemma_span_is(value, white(), n);
    assert(value.take(n) =~= scheme);
    assert(value.skip(n) =~= between + token);
    law_trimming_cuts_the_white_ends(between, token, Seq::empty());
    law_trimming_cuts_the_white_ends(left, scheme, right);
    assert forall|i: int| 0 <= i < n implies !white()(#[trigger] scheme[i]) by {}
    lemma_span_is(scheme, white(), n);
}

/// A member of an object is the first of its name.
pub proof fn law_a_member_is_found_by_name(
    fields: Seq<(Seq<char>, FieldView)>,
    name: Seq<char>,
    i: int,
)
    requires
        forall|j: int| 0 <= j < i && j < fields.len() ==> (#[trigger] fields[j]).0 != name,
    ensures
        0 <= i < fields.len() && fields[i].0 == name ==> member(fields, name) == Some(fields[i].1),
        i >= fields.len() ==> member(fields, name) is None,
    decreases fields.len(),
{
    if fields.len() > 0 && i > 0 {
        let rest = fields.drop_first();
        assert(fields[0].0 != name);
        assert forall|j: int| 0 <= j < i - 1 && j < rest.len() implies (#[trigger] rest[j]).0
            != name by {
            assert(rest[j] == fields[j + 1]);
        }
        law_a_member_is_found_by_name(rest, name, i - 1);
        if i < fields.len() {
            assert(rest[i - 1] == fields[i]);
        }
    }
}

/// One of the claims holds this value: a text among its words, or a list among its texts.
pub open spec fn claim_holds(claims: JsonView, name: Seq<char>, value: Seq<char>) -> bool {
    match claims.get(name) {
        Some(FieldView::Text(text)) => exists|i: int, j: int| #[trigger]
            word_at(text, i, j) && text.subrange(i, j) == value,
        Some(FieldView::List(items)) => value.len() > 0 && exists|i: int|
            0 <= i < items.len() && (#[trigger] items[i]).text == Some(value),
        _ => false,
    }
}

/// The claims list every scope and every role that the policy requires: a scope in `scope` or
/// `scp`, a role in `roles` or `role`.
pub open spec fn lists_what_is_required(auth: RuntimeAuthPolicy, claims: JsonView) -> bool {
    &&& forall|i: int|
        0 <= i < auth.required_scopes@.len() ==> claim_holds(
            claims,
            "scope"@,
            (#[trigger] auth.required_scopes@[i])@,
        ) || claim_holds(claims, "scp"@, auth.required_scopes@[i]@)
    &&& forall|i: int|
        0 <= i < auth.required_roles@.len() ==> claim_holds(
            claims,
            "roles"@,
            (#[trigger] auth.required_roles@[i])@,
        ) || claim_holds(claims, "role"@, auth.required_roles@[i]@)
}

/// The claims satisfy a policy exactly where they list every scope and every role that it requires.
pub proof fn law_required_scopes_and_roles_are_listed(auth: RuntimeAuthPolicy, claims: JsonView)
    ensures
        rbac_satisfied(auth, claims) <==> lists_what_is_required(auth, claims),
{
    let scopes = auth.required_scopes@;
    let roles = auth.required_roles@;
    assert forall|i: int| 0 <= i < scopes.len() implies (
    crate::admission::jwt_claims::claim_values(claims, "scope"@, "scp"@).contains(
        (#[trigger] scopes[i])@,
    ) <==> claim_holds(claims, "scope"@, scopes[i]@) || claim_holds(
        claims,
        "scp"@,
        scopes[i]@,
    )) by {
        lemma_claim_holds(claims, "scope"@, scopes[i]@);
        lemma_claim_holds(claims, "scp"@, scopes[i]@);
    }
    assert forall|i: int| 0 <= i < roles.len() implies (
    crate::admission::jwt_claims::claim_values(claims, "roles"@, "role"@).contains(
        (#[trigger] roles[i])@,
    ) <==> claim_holds(claims, "roles"@, roles[i]@) || claim_holds(
        claims,
        "role"@,
        roles[i]@,
    )) by {
        lemma_claim_holds(claims, "roles"@, roles[i]@);
        lemma_claim_holds(claims, "role"@, roles[i]@);
    }
}

proof fn lemma_claim_holds(claims: JsonView, name: Seq<char>, value: Seq<char>)
    ensures
        crate::admission::jwt_claims::claim_texts(claims.get(name)).contains(value) <==> claim_holds(
            claims,
            name,
            value,
        ),
{
    if let Some(FieldView::Text(text)) = claims.get(name) {
        law_words_are_the_longest_firm_stretches(text, value);
    }
}

/// Claims are in order at a time exactly where they have not expired, are valid already, were not
/// issued in the future, and name an expected issuer and an expected audience, where any is
/// expected; a single configured issuer or audience stands before a list of them.
pub open spec fn in_order(jwt: RuntimeJwtAuth, claims: JsonView, secs: u64) -> bool {
    let skew = jwt.clock_skew / SECOND;
    let expected = |text: Seq<char>, one: Option<String>, list: Seq<String>|
        match one {
            Some(one) => text == one@,
            None => exists|i: int| 0 <= i < list.len() && (#[trigger] list[i])@ == text,
        };
    let any_issuer = jwt.issuer is None && jwt.issuers@.len() == 0;
    let any_audience = jwt.audience is None && jwt.audiences@.len() == 0;
    &&& claims.get_u64("exp"@) matches Some(exp) && secs <= exp + skew
    &&& claims.get_u64("nbf"@) matches Some(nbf) ==> nbf <= secs + skew
    &&& claims.get_u64("iat"@) matches Some(iat) ==> iat <= secs + skew
    &&& any_issuer || (claims.get_str("iss"@) matches Some(issuer) && expected(
        issuer,
        jwt.issuer,
        jwt.issuers@,
    ))
    &&& any_audience || match claims.get("aud"@) {
        Some(FieldView::Text(audience)) => expected(audience, jwt.audience, jwt.audiences@),
        Some(FieldView::List(items)) => exists|i: int|
            0 <= i < items.len() && ((#[trigger] items[i]).text matches Some(audience) && expected(
                audience,
                jwt.audience,
                jwt.audiences@,
            )),
        _ => false,
    }
}

/// No objection is raised to claims exactly where they are in order; before the epoch none are.
pub proof fn law_claims_in_order_meet_no_objection(
    jwt: RuntimeJwtAuth,
    claims: JsonView,
    secs: u64,
)
    ensures
        claims_objection(jwt, claims, WallTime::SinceEpoch { secs }) is None <==> in_order(
            jwt,
            claims,
            secs,
        ),
        claims_objection(jwt, claims, WallTime::BeforeEpoch) == Some(
            JwtValidationFailureReason::MalformedClaims,
        ),
{
    lemma_expected(jwt.issuer, jwt.issuers@);
    lemma_expected(jwt.audience, jwt.audiences@);
    let skew = jwt.clock_skew / SECOND;
    let issuers = crate::admission::jwt_claims::expected_issuers(jwt);
    let audiences = crate::admission::jwt_claims::expected_audiences(jwt);
    let wanted = |text: Seq<char>, one: Option<String>, list: Seq<String>|
        match one {
            Some(one) => text == one@,
            None => exists|i: int| 0 <= i < list.len() && (#[trigger] list[i])@ == text,
        };
    assert forall|text: Seq<char>| #[trigger] issuers.contains(text) <==> wanted(
        text,
        jwt.issuer,
        jwt.issuers@,
    ) by {
        if jwt.issuer is Some {
            assert(issuers[0] == jwt.issuer->0@);
        }
    }
    assert forall|text: Seq<char>| #[trigger] audiences.contains(text) <==> wanted(
        text,
        jwt.audience,
        jwt.audiences@,
    ) by {
        if jwt.audience is Some {
            assert(audiences[0] == jwt.audience->0@);
        }
    }
}

proof fn lemma_expected(one: Option<String>, list: Seq<String>)
    ensures
        forall|text: Seq<char>| #[trigger]
            crate::text::texts(list).contains(text) <==> exists|i: int|
                0 <= i < list.len() && (#[trigger] list[i])@ == text,
{
    assert forall|text: Seq<char>| #[trigger] crate::text::texts(list).contains(text) <==> exists|
        i: int,
    |
        0 <= i < list.len() && (#[trigger] list[i])@ == text by {
        if crate::text::texts(list).contains(text) {
            let i = choose|i: int|
                0 <= i < crate::text::texts(list).len() && crate::text::texts(list)[i] == text;
            assert(list[i]@ == text);
        }
        if exists|i: int| 0 <= i < list.len() && (#[trigger] list[i])@ == text {
            let i = choose|i: int| 0 <= i < list.len() && (#[trigger] list[i])@ == text;
            assert(crate::text::texts(list)[i] == text);
        }
    }
}

/// The time is objected to before the issuer, and the issuer before the audience; each objection
/// is raised for its own fault.
pub proof fn law_each_objection_has_its_fault(
    jwt: RuntimeJwtAuth,
    claims: JsonView,
    secs: u64,
)
    ensures
        ({
            let objection = claims_objection(jwt, claims, WallTime::SinceEpoch { secs });
            let skew = jwt.clock_skew / SECOND;
            let late = claims.get_u64("exp"@) matches Some(exp) && secs > exp + skew;
            let early = claims.get_u64("nbf"@) matches Some(nbf) && nbf > secs + skew;
            let ahead = claims.get_u64("iat"@) matches Some(iat) && iat > secs + skew;
            &&& objection == Some(JwtValidationFailureReason::MissingExpiration)
                <==> claims.get_u64("exp"@) is None
            &&& objection == Some(JwtValidationFailureReason::TokenExpired) <==> late
            &&& objection == Some(JwtValidationFailureReason::TokenNotYetValid)
                <==> claims.get_u64("exp"@) is Some && !late && early
            &&& objection == Some(JwtValidationFailureReason::TokenIssuedInFuture)
                <==> claims.get_u64("exp"@) is Some && !late && !early && ahead
            &&& objection == Some(JwtValidationFailureReason::IssuerMismatch) ==> jwt.issuer is Some
                || jwt.issuers@.len() > 0
            &&& objection == Some(JwtValidationFailureReason::AudienceMismatch)
                ==> jwt.audience is Some || jwt.audiences@.len() > 0
            &&& objection is Some && claims.get_u64("exp"@) is Some && !late && !early && !ahead ==> (
            objection == Some(JwtValidationFailureReason::IssuerMismatch) || objection == Some(
                JwtValidationFailureReason::AudienceMismatch,
            ))
        }),
{
}

/// Under a policy with a section on tokens, a request is let in after the check of its signature
/// exactly where the signature is valid, the claims are readable and in order, and they list every
/// scope and every role that the policy requires. Any other request is asked for a token, and told
/// of as a failure unless only a scope or a role was missing.
pub proof fn law_a_checked_token_needs_its_scopes(
    auth: RuntimeAuthPolicy,
    token: Seq<char>,
    pending: PendingView,
    signature_valid: bool,
    wall: WallTime,
)
    requires
        auth.jwt is Some,
    ensures
        ({
            let jwt = auth.jwt->0;
            let end = local_auth_end(auth, token, pending, signature_valid, wall);
            let good = signature_valid && (json_document(pending.payload_bytes) matches Ok(claims)
                && wall matches WallTime::SinceEpoch { secs } && in_order(jwt, claims, secs));
            &&& end.0 == DecisionView::AdmitReady <==> good && lists_what_is_required(
                auth,
                json_document(pending.payload_bytes)->Ok_0,
            )
            &&& end.0 != DecisionView::AdmitReady ==> (end.0 matches DecisionView::Unauthorized {
                challenge,
                status,
                body,
            } && challenge == AuthChallengeKind::Bearer && status == StatusCode::Unauthorized && body
                == "unauthorized\n"@)
            &&& end.1 is None <==> good
            &&& end.1 matches Some(observation) ==> !signature_valid ==> observation.failure.reason
                == JwtValidationFailureReason::SignatureInvalid
        }),
{
    let jwt = auth.jwt->0;
    if let Ok(claims) = json_document(pending.payload_bytes) {
        law_required_scopes_and_roles_are_listed(auth, claims);
        if let WallTime::SinceEpoch { secs } = wall {
            law_claims_in_order_meet_no_objection(jwt, claims, secs);
        } else {
            law_claims_in_order_meet_no_objection(jwt, claims, 0);
        }
    }
}

/// Under a policy with a section on tokens, a request whose token is settled at once is let in
/// exactly where its token is accepted and lists every scope and every role that the policy
/// requires; a request without a token, or with a rejected one, is asked for one.
pub proof fn law_a_settled_token_needs_its_scopes(
    auth: RuntimeAuthPolicy,
    headers: &RequestHeaders,
    cache: Map<Seq<char>, EntryView>,
    now: Nanos,
    wall: WallTime,
)
    requires
        auth.jwt is Some,
        api_key_accepted(auth, Some(headers)),
    ensures
        ({
            let report = local_auth(auth, Some(headers), cache, now, wall);
            let refused = |outcome: LocalAuthView|
                outcome matches LocalAuthView::Decided(DecisionView::Unauthorized {
                    challenge,
                    status,
                    body,
                }) && challenge == AuthChallengeKind::Bearer && status == StatusCode::Unauthorized
                    && body == "unauthorized\n"@;
            let token = match header_value(headers.entries@, "authorization"@) {
                Some(raw) => bearer_token(raw),
                None => None,
            };
            match token {
                None => refused(report.outcome) && report.cache == cache && report.refresh is None,
                Some(token) => {
                    let validated = validation(token, auth.jwt->0, cache, now, wall);
                    &&& report.cache == validated.cache && report.refresh == validated.refresh
                    &&& match validated.step {
                        StepView::Rejected(reason) => refused(report.outcome) && (
                        report.observation matches Some(observation) && observation.failure.reason
                            == reason),
                        StepView::Validated { claims, .. } => report.observation is None && if
                            lists_what_is_required(auth, claims) {
                            report.outcome == LocalAuthView::Decided(DecisionView::AdmitReady)
                        } else {
                            refused(report.outcome)
                        },
                        StepView::CheckSignature(pending) => report.observation is None
                            && report.outcome == (LocalAuthView::CheckSignature { token, pending }),
                    }
                },
            }
        }),
{
    if let Some(raw) = header_value(headers.entries@, "authorization"@) {
        if let Some(token) = bearer_token(raw) {
            if let StepView::Validated { claims, .. } = validation(
                token,
                auth.jwt->0,
                cache,
                now,
                wall,
            ).step {
                law_required_scopes_and_roles_are_listed(auth, claims);
            }
        }
    }
}

/// A token is three parts with a dot between each two; which part cannot be read decides the
/// reason for its rejection, and a token of two parts or of four is none.
pub proof fn law_a_token_has_three_parts(
    a: Seq<char>,
    b: Seq<char>,
    c: Seq<char>,
    d: Seq<char>,
)
    requires
        !a.contains('.'),
        !b.contains('.'),
        !c.contains('.'),
        !d.contains('.'),
    ensures
        ({
            let token = a.push('.') + (b.push('.') + c);
            match (base64url_bytes(a), base64url_bytes(b), base64url_bytes(c)) {
                (Some(header), Some(payload), Some(signature)) => compact_parts(token) == Ok::<
                    ParsedView,
                    JwtValidationFailureReason,
                >(
                    ParsedView {
                        header_b64: a,
                        payload_b64: b,
                        header_bytes: header,
                        payload_bytes: payload,
                        signature,
                    },
                ),
                (None, _, _) => compact_parts(token) == Err::<
                    ParsedView,
                    JwtValidationFailureReason,
                >(JwtValidationFailureReason::MalformedHeader),
                (Some(_), None, _) => compact_parts(token) == Err::<
                    ParsedView,
                    JwtValidationFailureReason,
                >(JwtValidationFailureReason::MalformedClaims),
                (Some(_), Some(_), None) => compact_parts(token) == Err::<
                    ParsedView,
                    JwtValidationFailureReason,
                >(JwtValidationFailureReason::MalformedToken),
            }
        }),
        compact_parts(a) == Err::<ParsedView, JwtValidationFailureReason>(
            JwtValidationFailureReason::MalformedToken,
        ),
        compact_parts(a.push('.') + b) == Err::<ParsedView, JwtValidationFailureReason>(
            JwtValidationFailureReason::MalformedToken,
        ),
        compact_parts(a.push('.') + (b.push('.') + (c.push('.') + d))) == Err::<
            ParsedView,
            JwtValidationFailureReason,
        >(JwtValidationFailureReason::MalformedToken),
{
    law_a_text_is_cut_at_its_separators(d, d, '.');
    law_a_text_is_cut_at_its_separators(c, d, '.');
    law_a_text_is_cut_at_its_separators(b, c, '.');
    law_a_text_is_cut_at_its_separators(b, c.push('.') + d, '.');
    law_a_text_is_cut_at_its_separators(a, b, '.');
    law_a_text_is_cut_at_its_separators(a, b.push('.') + c, '.');
    law_a_text_is_cut_at_its_separators(a, b.push('.') + (c.push('.') + d), '.');
    let parts = split_on(a.push('.') + (b.push('.') + c), '.');
    assert(parts =~= seq![a, b, c]);
}

/// A header names its algorithm and, where it has one, its key id; one without an algorithm, or
/// with one that is not known, is rejected for that.
pub proof fn law_a_header_names_its_algorithm(bytes: Seq<u8>, algorithm: JwtAlgorithm)
    ensures
        match json_document(bytes) {
            Err(_) => jose_header(bytes) == Err::<
                crate::admission::jwt::HeaderView,
                JwtValidationFailureReason,
            >(JwtValidationFailureReason::MalformedHeader),
            Ok(document) => {
                &&& document.get_str("alg"@) is None ==> jose_header(bytes) == Err::<
                    crate::admission::jwt::HeaderView,
                    JwtValidationFailureReason,
                >(JwtValidationFailureReason::MissingAlgorithm)
                &&& document.get_str("alg"@) == Some(algorithm_label(algorithm)) <==> (jose_header(
                    bytes,
                ) matches Ok(header) && header.algorithm == algorithm)
                &&& jose_header(bytes) matches Ok(header) ==> header.kid == document.get_str("kid"@)
                &&& document.get_str("alg"@) is Some && jose_header(bytes) is Err ==> jose_header(
                    bytes,
                ) == Err::<crate::admission::jwt::HeaderView, JwtValidationFailureReason>(
                    JwtValidationFailureReason::UnsupportedAlgorithm,
                )
            },
        },
{
    if let Ok(document) = json_document(bytes) {
        if let Some(name) = document.get_str("alg"@) {
            law_algorithms_are_known_by_name(name, algorithm);
        }
    }
}

/// A token is judged by its own header. One whose algorithm the policy does not list is rejected
/// before any key is looked for. One under the shared secret is accepted exactly where it carries
/// the secret's tag over its first two parts and its claims are readable and in order; one under a
/// public key is passed on, with that key, for its signature to be checked.
pub proof fn law_a_token_is_judged_by_its_header(
    a: Seq<char>,
    b: Seq<char>,
    c: Seq<char>,
    jwt: RuntimeJwtAuth,
    cache: Map<Seq<char>, EntryView>,
    now: Nanos,
    secs: u64,
)
    requires
        !a.contains('.'),
        !b.contains('.'),
        !c.contains('.'),
        base64url_bytes(a) is Some,
        base64url_bytes(b) is Some,
        base64url_bytes(c) is Some,
        jose_header(base64url_bytes(a)->0) is Ok,
    ensures
        ({
            let token = a.push('.') + (b.push('.') + c);
            let wall = WallTime::SinceEpoch { secs };
            let validated = validation(token, jwt, cache, now, wall);
            let header = jose_header(base64url_bytes(a)->0)->Ok_0;
            let payload = base64url_bytes(b)->0;
            let signature = base64url_bytes(c)->0;
            let signed = vstd::utf8::encode_utf8(a.push('.') + b);
            let tag = hmac_sha256_tag(vstd::utf8::encode_utf8(jwt.secret@), signed);
            let found = lookup(jwt, header.algorithm, header.kid, cache, now, wall);
            if !jwt.allowed_algorithms@.contains(header.algorithm) {
                validated.step == StepView::Rejected(
                    JwtValidationFailureReason::AlgorithmNotAllowed,
                ) && validated.cache == cache && validated.refresh is None
            } else {
                &&& validated.cache == found.cache && validated.refresh == found.refresh
                &&& match (resolved_key(found.resolution), header.algorithm) {
                    (Err(reason), _) => validated.step == StepView::Rejected(reason),
                    (Ok(_), JwtAlgorithm::Hs256) => {
                        &&& signature != tag ==> validated.step == StepView::Rejected(
                            JwtValidationFailureReason::SignatureInvalid,
                        )
                        &&& validated.step is Validated <==> signature == tag && (json_document(
                            payload,
                        ) matches Ok(claims) && in_order(jwt, claims, secs))
                        &&& validated.step matches StepView::Validated { algorithm, claims }
                            ==> algorithm == header.algorithm && json_document(payload) == Ok::<
                            JsonView,
                            Seq<char>,
                        >(claims)
                    },
                    (Ok(KeyView::Rsa(key)), JwtAlgorithm::Rs256) => validated.step
                        == StepView::CheckSignature(
                        PendingView {
                            algorithm: JwtAlgorithm::Rs256,
                            request: RequestView::Rs256 { key, message: signed, signature },
                            payload_bytes: payload,
                        },
                    ),
                    (Ok(KeyView::EcP256(key)), JwtAlgorithm::Es256) => if signature.len() == 64 {
                        validated.step == StepView::CheckSignature(
                            PendingView {
                                algorithm: JwtAlgorithm::Es256,
                                request: RequestView::Es256 {
                                    key,
                                    digest: sha256_digest(signed),
                                    der_signature: der_signature(signature),
                                },
                                payload_bytes: payload,
                            },
                        )
                    } else {
                        validated.step == StepView::Rejected(
                            JwtValidationFailureReason::SignatureInvalid,
                        )
                    },
                    _ => validated.step == StepView::Rejected(
                        JwtValidationFailureReason::InvalidKeyType,
                    ),
                }
            }
        }),
{
    let wall = WallTime::SinceEpoch { secs };
    law_a_token_has_three_parts(a, b, c, c);
    reveal_strlit(".");
    assert(a + "."@ + b =~= a.push('.') + b);
    let header = jose_header(base64url_bytes(a)->0)->Ok_0;
    if let Ok(claims) = json_document(base64url_bytes(b)->0) {
        law_claims_in_order_meet_no_objection(jwt, claims, secs);
    }
    if header.algorithm == JwtAlgorithm::Hs256 {
        let found = lookup(jwt, header.algorithm, header.kid, cache, now, wall);
        assert(resolved_key(found.resolution) is Ok ==> resolved_key(found.resolution)->Ok_0
            == KeyView::Secret(jwt.secret@));
    }
}

/// A rejection for its algorithm tells which algorithm the token named, and a rejection for an
/// unknown key id tells which remote source lacks it; other rejections tell neither.
pub proof fn law_a_rejection_tells_its_cause(
    jwt: RuntimeJwtAuth,
    token: Seq<char>,
    reason: JwtValidationFailureReason,
)
    ensures
        ({
            let told = failure_observation(jwt, readable_header(token), reason);
            let on_algorithm = reason == JwtValidationFailureReason::AlgorithmNotAllowed || reason
                == JwtValidationFailureReason::UnsupportedAlgorithm || reason
                == JwtValidationFailureReason::MissingAlgorithm;
            &&& told.failure.reason == reason
            &&& told.reason == reason.label()
            &&& told.rejected_algorithm is Some <==> on_algorithm
            &&& on_algorithm && (readable_header(token) matches Some(header)) ==> told.rejected_algorithm
                == Some(algorithm_label(readable_header(token)->0.algorithm))
            &&& on_algorithm && readable_header(token) is None ==> told.rejected_algorithm == Some(
                "unknown"@,
            )
            &&& told.unknown_kid_source is Some <==> reason
                == JwtValidationFailureReason::MissingVerificationKey && jwt.jwks_url is Some && (
            readable_header(token) matches Some(header) && header.kid is Some)
            &&& told.unknown_kid_source matches Some(source) ==> source
                == crate::admission::jwks_source::identity_of(jwt.jwks_url->0@)
        }),
{
}

proof fn lemma_shortened(bytes: Seq<u8>)
    ensures
        number_value(without_leading_zeros(bytes)) == number_value(bytes),
        without_leading_zeros(bytes).len() <= bytes.len(),
        without_leading_zeros(bytes).len() > 0 ==> without_leading_zeros(bytes)[0] != 0,
    decreases bytes.len(),
{
    if bytes.len() > 0 && bytes[0] == 0 {
        lemma_shortened(bytes.drop_first());
        lemma_leading_zero(bytes);
    }
}

/// A number keeps its value in the encoding that the key library reads, is not taken for a negative
/// one there, and has no byte that could be left out; its length stands before it.
pub proof fn law_encoded_numbers_keep_their_value(bytes: Seq<u8>)
    requires
        bytes.len() <= 32,
    ensures
        number_value(der_magnitude(bytes)) == number_value(bytes),
        1 <= der_magnitude(bytes).len() <= 33,
        der_magnitude(bytes)[0] < 0x80,
        der_magnitude(bytes).len() > 1 && der_magnitude(bytes)[0] == 0 ==> der_magnitude(bytes)[1]
            >= 0x80,
        der_integer(bytes).len() == der_magnitude(bytes).len() + 2,
        der_integer(bytes)[0] == 2,
        der_integer(bytes)[1] == der_magnitude(bytes).len(),
        der_integer(bytes).skip(2) == der_magnitude(bytes),
{
    lemma_shortened(bytes);
    let short = without_leading_zeros(bytes);
    let padded = seq![0u8] + short;
    lemma_leading_zero(padded);
    assert(padded.drop_first() =~= short);
    assert(der_integer(bytes).skip(2) =~= der_magnitude(bytes));
}

/// A signature of two numbers is encoded as the first and then the second, behind their length.
pub proof fn law_encoded_signatures_hold_both_numbers(signature: Seq<u8>)
    requires
        signature.len() == 64,
    ensures
        ({
            let r = der_integer(signature.subrange(0, 32));
            let s = der_integer(signature.subrange(32, 64));
            &&& der_signature(signature).len() == r.len() + s.len() + 2
            &&& der_signature(signature)[0] == 0x30
            &&& der_signature(signature)[1] == r.len() + s.len()
            &&& der_signature(signature).skip(2) == r + s
        }),
{
    assert(signature.take(32) =~= signature.subrange(0, 32));
    assert(signature.skip(32) =~= signature.subrange(32, 64));
    law_encoded_numbers_keep_their_value(signature.subrange(0, 32));
    law_encoded_numbers_keep_their_value(signature.subrange(32, 64));
    let r = der_integer(signature.subrange(0, 32));
    let s = der_integer(signature.subrange(32, 64));
    assert(der_signature(signature).skip(2) =~= r + s);
}

/// A policy without a section on tokens asks for none: with its key, or where it has none, a request
/// is let in, and leaves the cache as it was.
pub proof fn law_no_token_is_asked_for_without_a_policy(
    auth: RuntimeAuthPolicy,
    headers: Option<&RequestHeaders>,
    cache: Map<Seq<char>, EntryView>,
    now: Nanos,
    wall: WallTime,
    token: Seq<char>,
    pending: PendingView,
    valid: bool,
)
    requires
        auth.jwt is None,
    ensures
        api_key_accepted(auth, headers) ==> {
            let report = local_auth(auth, headers, cache, now, wall);
            report.outcome == LocalAuthView::Decided(DecisionView::AdmitReady) && report.cache
                == cache && report.refresh is None && report.observation is None
        },
        local_auth_end(auth, token, pending, valid, wall).0 == DecisionView::AdmitReady,
{
}

} // verus!
