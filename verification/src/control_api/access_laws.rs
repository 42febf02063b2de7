//! Who may do what over the operators' interface, whatever the policy and the request.
use crate::admission::credential_laws::{first_named, law_a_header_is_its_first_entry};
use crate::control_api::auth::{
    authentication, authorization, gate, role_suffices, token_match, AuthErrorView,
    AuthenticationView, ControlApiRequest, GateDecisionView, ThrottleAction,
};
use crate::control_api::certificate::{CertificateView, NameView};
use crate::control_api::identity::{
    attribute_role, attribute_roles, certificate_identity, dns_names, dual_actor, effective_roles,
    first_text, highest_role, identity_of, mtls_actor, role_named, uri_names, AdminAuthnMechanism,
    AdminRole, ContextView, IdentityView, MtlsView, TokenView,
};
use crate::control_api::route::{
    required_role, route_of, ControlApiPaths, ControlApiRoute, Method,
};
use crate::control_api::security::{
    cidr_parts, configured_network, configured_networks, configured_tokens,
    law_network_covers_its_address, leading_bits_v4, leading_bits_v6, network_of, ConfiguredCidr,
    ControlApiAuthorizationPolicy, ControlApiBearerToken, ControlApiBearerTokenEntry,
    ControlApiBearerTokenSource,
    ControlApiClientAuthMode, ControlApiSecurityPolicy, IpAddress,
};
use crate::headers::{bearer_token, has_header};
use crate::status::StatusCode;
use crate::text::{
    ascii_lowercase, decimal, is_char, lemma_span_is, opt, same_ignoring_ascii_case,
    unsigned_value,
};
use crate::text_laws::{
    all_white, has_firm_ends, law_a_written_number_reads_back, law_case_is_that_of_letters,
    law_trimming_cuts_the_white_ends,
};
use vstd::arithmetic::power2::{lemma2_to64, lemma2_to64_rest, pow2};
use vstd::prelude::*;

verus! {

/// How much a role may do.
pub open spec fn standing(role: AdminRole) -> int {
    match role {
        AdminRole::Viewer => 0,
        AdminRole::Operator => 1,
        AdminRole::Admin => 2,
    }
}

/// Some role of an identity is at least this one.
pub open spec fn stands_at(identity: IdentityView, role: AdminRole) -> bool {
    exists|i: int|
        0 <= i < identity.roles.len() && standing(#[trigger] identity.roles[i]) >= standing(role)
}

/// To see the runtime takes the role for reading, to change anything the role for changing, and to
/// restart the role for restarting; the two status routes take the role for reading where they are
/// protected, and none where they are not.
pub proof fn law_routes_ask_for_their_roles(
    path: Seq<char>,
    paths: ControlApiPaths,
    policy: ControlApiAuthorizationPolicy,
)
    ensures
        route_of(Method::Post, path, paths) matches Some(route) ==> required_role(route, policy)
            == Some(
            if route == ControlApiRoute::Restart {
                policy.restart_role
            } else {
                policy.runtime_mutate_role
            },
        ),
        route_of(Method::Get, path, paths) matches Some(route) ==> required_role(route, policy)
            == if (route == ControlApiRoute::Health && !policy.protect_health) || (route
            == ControlApiRoute::Ready && !policy.protect_ready) {
            None
        } else {
            Some(policy.runtime_read_role)
        },
        required_role(ControlApiRoute::RuntimeActivate, policy) == Some(policy.runtime_mutate_role),
        required_role(ControlApiRoute::RuntimeRollback, policy) == Some(policy.runtime_mutate_role),
        required_role(ControlApiRoute::ReloadRuntime, policy) == Some(policy.runtime_mutate_role),
        required_role(ControlApiRoute::ReloadCerts, policy) == Some(policy.runtime_mutate_role),
        required_role(ControlApiRoute::RuntimeValidate, policy) == Some(policy.runtime_mutate_role),
        required_role(ControlApiRoute::RuntimePreview, policy) == Some(policy.runtime_mutate_role),
        required_role(ControlApiRoute::Restart, policy) == Some(policy.restart_role),
        required_role(ControlApiRoute::Runtime, policy) == Some(policy.runtime_read_role),
        required_role(ControlApiRoute::RuntimeHistory, policy) == Some(policy.runtime_read_role),
        forall|generation: u64|
            #[trigger] required_role(ControlApiRoute::RuntimeHistoryGeneration(generation), policy)
                == Some(policy.runtime_read_role),
{
}

/// No request that changes anything passes without an identity that has the role for changing, or
/// the role for restarting where it restarts; and no request that reads the runtime passes without
/// one that has the role for reading.
pub proof fn law_changes_need_the_role_for_changing(
    request: ControlApiRequest,
    security: ControlApiSecurityPolicy,
    paths: ControlApiPaths,
    active_generation: Option<u64>,
    throttled: bool,
)
    ensures
        gate(request, security, paths, active_generation, throttled).decision matches
            GateDecisionView::Passed { route, identity } ==> {
            &&& route_of(request.method, request.path@, paths) == Some(route)
            &&& request.method == Method::Post && route != ControlApiRoute::Restart ==> (
            identity matches Some(identity) && stands_at(
                identity,
                security.authorization.runtime_mutate_role,
            ))
            &&& request.method == Method::Post && route == ControlApiRoute::Restart ==> (
            identity matches Some(identity) && stands_at(
                identity,
                security.authorization.restart_role,
            ))
            &&& request.method == Method::Get && route != ControlApiRoute::Health && route
                != ControlApiRoute::Ready ==> (identity matches Some(identity) && stands_at(
                identity,
                security.authorization.runtime_read_role,
            ))
            &&& route == ControlApiRoute::RuntimeActivate || route
                == ControlApiRoute::RuntimeRollback ==> (identity matches Some(identity)
                && stands_at(identity, security.authorization.runtime_mutate_role))
        },
{
    if let GateDecisionView::Passed { route, identity } = gate(
        request,
        security,
        paths,
        active_generation,
        throttled,
    ).decision {
        if let Some(role) = required_role(route, security.authorization) {
            let who = identity->0;
            assert(role_suffices(who.roles, role));
            let i = choose|i: int|
                0 <= i < who.roles.len() && (#[trigger] who.roles[i]).rank() >= role.rank();
            assert(standing(who.roles[i]) >= standing(role));
            assert(stands_at(who, role));
        }
    }
}

/// A request that comes from where it may, is not held off and proves an identity with a role that
/// is high enough passes, as that identity, and the sender's failures are forgotten.
pub proof fn law_sufficient_roles_pass(
    request: ControlApiRequest,
    security: ControlApiSecurityPolicy,
    active_generation: Option<u64>,
    throttled: bool,
    route: ControlApiRoute,
    identity: IdentityView,
)
    requires
        security.ip_allowlist.matcher is None || (request.context is Some
            && security.ip_allowlist.admits(request.source_ip)),
        !throttled,
        required_role(route, security.authorization) is Some,
        authentication(request.headers.entries@, request.context_view(), security)
            == AuthenticationView::Authenticated(identity),
    ensures
        ({
            let outcome = authorization(request, security, active_generation, throttled, route);
            let role = required_role(route, security.authorization)->0;
            &&& stands_at(identity, role) ==> outcome.decision == Ok::<
                Option<IdentityView>,
                AuthErrorView,
            >(Some(identity))
            &&& !stands_at(identity, role) ==> (outcome.decision matches Err(error) && error.status
                == StatusCode::Forbidden && error.reason == "insufficient_role"@)
            &&& outcome.throttle == match request.context {
                Some(context) => ThrottleAction::RecordSuccess(context.peer_addr.ip),
                None => ThrottleAction::Nothing,
            }
        }),
{
    let role = required_role(route, security.authorization)->0;
    if stands_at(identity, role) {
        let i = choose|i: int|
            0 <= i < identity.roles.len() && standing(#[trigger] identity.roles[i]) >= standing(
                role,
            );
        assert(identity.roles[i].rank() >= role.rank());
        assert(role_suffices(identity.roles, role));
    }
    if role_suffices(identity.roles, role) {
        let i = choose|i: int|
            0 <= i < identity.roles.len() && (#[trigger] identity.roles[i]).rank() >= role.rank();
        assert(standing(identity.roles[i]) >= standing(role));
    }
}

/// Each refusal says why: an address that is not on the list or not known, a sender that is held
/// off, or credentials that are missing or wrong.
pub proof fn law_each_refusal_says_why(
    request: ControlApiRequest,
    security: ControlApiSecurityPolicy,
    active_generation: Option<u64>,
    throttled: bool,
    route: ControlApiRoute,
)
    ensures
        ({
            let outcome = authorization(request, security, active_generation, throttled, route);
            let listed = security.ip_allowlist.matcher is Some;
            let away = listed && request.context is Some && !security.ip_allowlist.admits(
                request.source_ip,
            );
            let unknown = listed && request.context is None;
            let asked = required_role(route, security.authorization) is Some && !away && !unknown;
            let held = asked && request.context is Some && throttled;
            let found = authentication(
                request.headers.entries@,
                request.context_view(),
                security,
            );
            let refused = |status: StatusCode, reason: Seq<char>|
                outcome.decision matches Err(error) && error.status == status && error.reason
                    == reason && error.required_role == match required_role(
                    route,
                    security.authorization,
                ) {
                    Some(AdminRole::Viewer) => Some("viewer"@),
                    Some(AdminRole::Operator) => Some("operator"@),
                    Some(AdminRole::Admin) => Some("admin"@),
                    None => None,
                };
            &&& away ==> refused(StatusCode::Forbidden, "source_ip_not_allowed"@)
            &&& unknown ==> refused(StatusCode::Forbidden, "missing_peer_context"@)
            &&& held ==> refused(StatusCode::TooManyRequests, "authentication_throttled"@)
            &&& asked && !held && found is Missing ==> refused(
                StatusCode::Unauthorized,
                "missing_authentication"@,
            )
            &&& asked && !held ==> (found matches AuthenticationView::Invalid(reason) ==> refused(
                StatusCode::Unauthorized,
                reason,
            ))
            &&& asked && !held && !(found is Authenticated) && request.context is Some ==> (
            outcome.throttle matches ThrottleAction::RecordFailure(ip) && ip
                == request.context->0.peer_addr.ip)
            &&& !asked && !away && !unknown ==> outcome.decision == Ok::<
                Option<IdentityView>,
                AuthErrorView,
            >(None)
            &&& away || unknown || held || !asked ==> outcome.throttle == ThrottleAction::Nothing
        }),
{
}

/// Each configured path to read leads to its own route, where no earlier one is configured for the
/// same path.
pub proof fn law_paths_to_read_lead_to_their_routes(path: Seq<char>, paths: ControlApiPaths)
    ensures
        ({
            let route = route_of(Method::Get, path, paths);
            let health = path == paths.health_path@;
            let ready = path == paths.ready_path@;
            let runtime = path == paths.runtime_path@;
            let history = path == paths.runtime_history_path@;
            &&& health <==> route == Some(ControlApiRoute::Health)
            &&& ready && !health <==> route == Some(ControlApiRoute::Ready)
            &&& runtime && !health && !ready <==> route == Some(ControlApiRoute::Runtime)
            &&& history && !health && !ready && !runtime <==> route == Some(
                ControlApiRoute::RuntimeHistory,
            )
            &&& !health && !ready && !runtime && !history ==> (route is None || route matches Some(
                ControlApiRoute::RuntimeHistoryGeneration(generation),
            ))
        }),
{
}

/// Each configured path to change something leads to its own route, where no earlier one is
/// configured for the same path, and other paths lead nowhere.
pub proof fn law_paths_to_change_lead_to_their_routes(path: Seq<char>, paths: ControlApiPaths)
    ensures
        ({
            let route = route_of(Method::Post, path, paths);
            let certs = path == paths.reload_certs_path@;
            let validate = path == paths.runtime_validate_path@;
            let preview = path == paths.runtime_preview_path@;
            let activate = path == paths.runtime_activate_path@;
            let rollback = path == paths.runtime_rollback_path@;
            let reload = path == paths.reload_path@;
            let restart = path == paths.restart_path@;
            let plan = validate || preview;
            let change = activate || rollback;
            &&& certs <==> route == Some(ControlApiRoute::ReloadCerts)
            &&& validate && !certs <==> route == Some(ControlApiRoute::RuntimeValidate)
            &&& preview && !certs && !validate <==> route == Some(ControlApiRoute::RuntimePreview)
            &&& activate && !certs && !plan <==> route == Some(ControlApiRoute::RuntimeActivate)
            &&& rollback && !certs && !plan && !activate <==> route == Some(
                ControlApiRoute::RuntimeRollback,
            )
            &&& reload && !certs && !plan && !change <==> route == Some(
                ControlApiRoute::ReloadRuntime,
            )
            &&& restart && !certs && !plan && !change && !reload <==> route == Some(
                ControlApiRoute::Restart,
            )
            &&& route is None <==> !certs && !plan && !change && !reload && !restart
        }),
{
}

/// The path of a generation is the configured prefix with the generation's number behind it.
pub proof fn law_a_generation_is_asked_for_by_number(paths: ControlApiPaths, generation: u64)
    ensures
        ({
            let path = paths.runtime_history_entry_prefix@ + decimal(generation as nat);
            path != paths.health_path@ && path != paths.ready_path@ && path != paths.runtime_path@
                && path != paths.runtime_history_path@ ==> route_of(Method::Get, path, paths)
                == Some(ControlApiRoute::RuntimeHistoryGeneration(generation))
        }),
        forall|path: Seq<char>|
            #![trigger route_of(Method::Get, path, paths)]
            route_of(Method::Get, path, paths) == Some(
                ControlApiRoute::RuntimeHistoryGeneration(generation),
            ) ==> paths.runtime_history_entry_prefix@.is_prefix_of(path) && unsigned_value(
                path.skip(paths.runtime_history_entry_prefix@.len() as int),
            ) == Some(generation as nat),
{
    let prefix = paths.runtime_history_entry_prefix@;
    let path = prefix + decimal(generation as nat);
    law_a_written_number_reads_back(generation as nat);
    assert(path.skip(prefix.len() as int) =~= decimal(generation as nat));
    assert(prefix.is_prefix_of(path));
}

/// A token stands for the role and the name of the last entry that has it, wherever that entry
/// stands in the list.
pub proof fn law_a_token_stands_for_its_entry(
    provided: Seq<char>,
    entries: Seq<ControlApiBearerTokenEntry>,
    i: int,
)
    requires
        0 <= i < entries.len(),
        entries[i].token@ == provided,
        forall|j: int| i < j < entries.len() ==> (#[trigger] entries[j]).token@ != provided,
    ensures
        token_match(provided, entries) == Some(
            TokenView { actor_id: opt(entries[i].actor_id), role: entries[i].role },
        ),
    decreases entries.len(),
{
    let last = entries.len() - 1;
    if i < last {
        assert(entries[last].token@ != provided);
        let before = entries.drop_last();
        assert forall|j: int| i < j < before.len() implies (#[trigger] before[j]).token@
            != provided by {
            assert(before[j] == entries[j]);
        }
        assert(before[i] == entries[i]);
        law_a_token_stands_for_its_entry(provided, before, i);
    }
}

/// Every configured token is known, with its role and its name; the one that stands alone is an
/// administrator's.
pub proof fn law_every_configured_token_is_known(
    single: Option<String>,
    tokens: Seq<ControlApiBearerToken>,
    i: int,
)
    ensures
        ({
            let known = configured_tokens(single, tokens);
            let first: int = if single is Some {
                1
            } else {
                0
            };
            &&& known.len() == tokens.len() + first
            &&& single matches Some(token) ==> known[0].token == token@ && known[0].role
                == AdminRole::Admin && known[0].actor_id == Some("legacy_auth_token"@)
                && known[0].source == ControlApiBearerTokenSource::LegacyAuthToken
            &&& 0 <= i < tokens.len() ==> known[first + i].token == tokens[i].token@
                && known[first + i].role == tokens[i].role && known[first + i].actor_id == opt(
                tokens[i].actor_id,
            ) && known[first + i].source == ControlApiBearerTokenSource::StaticTokenList
        }),
{
}

/// Credentials are judged by what was sent: where a certificate is required, none is nothing; a
/// request without the header leaves the certificate; and a header that holds no token is wrong,
/// whatever the certificate.
pub proof fn law_credentials_are_what_was_sent(
    headers: Seq<(String, Option<String>)>,
    context: Option<ContextView>,
    security: ControlApiSecurityPolicy,
    at: int,
)
    ensures
        ({
            let found = authentication(headers, context, security);
            let certificate = context matches Some(context) && context.mtls_identity is Some;
            let barred = security.client_auth.mode == ControlApiClientAuthMode::Required
                && !certificate;
            let kind = match security.identity_source {
                Some(source) => Some(source.kind@),
                None => None,
            };
            let silent = forall|i: int|
                0 <= i < headers.len() ==> !same_ignoring_ascii_case(
                    (#[trigger] headers[i]).0@,
                    "authorization"@,
                );
            &&& barred ==> found is Missing
            &&& !barred && silent && !certificate ==> found is Missing
            &&& !barred && silent && certificate ==> (found matches AuthenticationView::Authenticated(
                identity,
            ) && identity_of(context, None, kind) == Some(identity))
            &&& !barred && first_named(headers, "authorization"@, at) ==> match headers[at].1 {
                None => found == AuthenticationView::Invalid("invalid_authorization_header"@),
                Some(raw) => bearer_token(raw@) is None ==> found == AuthenticationView::Invalid(
                    "invalid_bearer_token"@,
                ),
            }
        }),
{
    let name = "authorization"@;
    law_a_header_is_its_first_entry(headers, name);
    if first_named(headers, name, at) {
        assert(same_ignoring_ascii_case(headers[at].0@, name));
        assert(has_header(headers, name));
    }
}

/// A token that was sent proves what the last entry that has it says; one that no entry has is
/// wrong, and no certificate makes it good.
pub proof fn law_a_sent_token_proves_its_entry(
    headers: Seq<(String, Option<String>)>,
    context: Option<ContextView>,
    security: ControlApiSecurityPolicy,
    at: int,
    provided: Seq<char>,
    i: int,
)
    requires
        security.client_auth.mode == ControlApiClientAuthMode::Required ==> (context matches Some(
            context,
        ) && context.mtls_identity is Some),
        first_named(headers, "authorization"@, at),
        headers[at].1 matches Some(raw) && bearer_token(raw@) == Some(provided),
        forall|j: int|
            i < j < security.bearer_tokens@.len() ==> (#[trigger] security.bearer_tokens@[j]).token@
                != provided,
        i >= -1,
    ensures
        ({
            let found = authentication(headers, context, security);
            let tokens = security.bearer_tokens@;
            let kind = match security.identity_source {
                Some(source) => Some(source.kind@),
                None => None,
            };
            &&& i == -1 ==> found == AuthenticationView::Invalid("invalid_bearer_token"@)
            &&& 0 <= i < tokens.len() && tokens[i].token@ == provided ==> (
            found matches AuthenticationView::Authenticated(identity) && identity_of(
                context,
                Some(TokenView { actor_id: opt(tokens[i].actor_id), role: tokens[i].role }),
                kind,
            ) == Some(identity))
        }),
{
    let name = "authorization"@;
    let tokens = security.bearer_tokens@;
    law_a_header_is_its_first_entry(headers, name);
    assert(same_ignoring_ascii_case(headers[at].0@, name));
    assert(has_header(headers, name));
    if i == -1 {
        crate::control_api::laws::law_known_tokens_match(provided, tokens);
    } else if i < tokens.len() && tokens[i].token@ == provided {
        law_a_token_stands_for_its_entry(provided, tokens, i);
    }
}

/// An identity has the mechanisms that proved it, the address it came from and the names of its
/// certificate. A token without a certificate gives exactly its name and its role, a certificate
/// without a token the name that the policy picks; and nothing proves nothing.
pub proof fn law_an_identity_is_what_was_proved(
    context: Option<ContextView>,
    token: Option<TokenView>,
    kind: Option<Seq<char>>,
)
    ensures
        ({
            let mtls = match context {
                Some(context) => context.mtls_identity,
                None => None,
            };
            let found = identity_of(context, token, kind);
            &&& found is None <==> token is None && mtls is None
            &&& found matches Some(identity) ==> {
                &&& identity.authn_mechanisms.contains(AdminAuthnMechanism::BearerToken)
                    <==> token is Some
                &&& identity.authn_mechanisms.contains(AdminAuthnMechanism::MutualTls)
                    <==> mtls is Some
                &&& identity.peer_addr == match context {
                    Some(context) => Some(context.peer_addr),
                    None => None,
                }
                &&& mtls matches Some(mtls) ==> identity.mtls_subject == mtls.subject
                    && identity.mtls_san == mtls.san_dns + mtls.san_uri
                &&& mtls is None ==> identity.mtls_subject is None && identity.mtls_san.len() == 0
                &&& token matches Some(token) ==> (mtls is None ==> identity.actor_id
                    == token.actor_id && identity.roles == seq![token.role])
                &&& mtls matches Some(mtls) ==> (token is None ==> identity.actor_id == mtls_actor(
                    mtls,
                    kind,
                ))
            }
        }),
{
    let mtls = match context {
        Some(context) => context.mtls_identity,
        None => None,
    };
    if let Some(identity) = identity_of(context, token, kind) {
        if token is Some {
            assert(identity.authn_mechanisms[0] == AdminAuthnMechanism::BearerToken);
        }
        if mtls is Some {
            let k = identity.authn_mechanisms.len() - 1;
            assert(identity.authn_mechanisms[k] == AdminAuthnMechanism::MutualTls);
        }
    }
}

/// The name that a policy picks from a certificate: its common name, the first of its DNS names or
/// of its URIs, or its subject, as the kind says; and for want of a known kind the common name,
/// else the subject.
pub proof fn law_a_certificate_gives_the_picked_name(
    mtls: MtlsView,
    left: Seq<char>,
    kind: Seq<char>,
    right: Seq<char>,
)
    requires
        all_white(left),
        all_white(right),
        has_firm_ends(kind),
    ensures
        ({
            let picked = mtls_actor(mtls, Some(left + kind + right));
            let plain = if mtls.common_name is Some {
                mtls.common_name
            } else {
                mtls.subject
            };
            let cn = same_ignoring_ascii_case(kind, "mtls_subject_cn"@);
            let dns = same_ignoring_ascii_case(kind, "mtls_san_dns"@);
            let uri = same_ignoring_ascii_case(kind, "mtls_san_uri"@);
            let subject = same_ignoring_ascii_case(kind, "mtls_subject"@);
            &&& cn ==> picked == mtls.common_name
            &&& dns ==> picked == if mtls.san_dns.len() > 0 {
                Some(mtls.san_dns[0])
            } else {
                None
            }
            &&& uri ==> picked == if mtls.san_uri.len() > 0 {
                Some(mtls.san_uri[0])
            } else {
                None
            }
            &&& subject ==> picked == mtls.subject
            &&& !cn && !dns && !uri && !subject ==> picked == plain
            &&& mtls_actor(mtls, None) == plain
        }),
{
    law_trimming_cuts_the_white_ends(left, kind, right);
    reveal_strlit("mtls_subject_cn");
    reveal_strlit("mtls_san_dns");
    reveal_strlit("mtls_san_uri");
    reveal_strlit("mtls_subject");
    law_case_is_that_of_letters(kind, "mtls_subject_cn"@);
    law_case_is_that_of_letters(kind, "mtls_san_dns"@);
    law_case_is_that_of_letters(kind, "mtls_san_uri"@);
    law_case_is_that_of_letters(kind, "mtls_subject"@);
    assert(ascii_lowercase("mtls_subject_cn"@) =~= "mtls_subject_cn"@);
    assert(ascii_lowercase("mtls_san_dns"@) =~= "mtls_san_dns"@);
    assert(ascii_lowercase("mtls_san_uri"@) =~= "mtls_san_uri"@);
    assert(ascii_lowercase("mtls_subject"@) =~= "mtls_subject"@);
    assert("mtls_san_dns"@[9] == 'd' && "mtls_san_uri"@[9] == 'u' && "mtls_subject"@[9] == 'e');
}

/// Beside a certificate a token's name is kept exactly where the certificate has the same name; a
/// token without a name leaves the certificate's.
pub proof fn law_a_borne_out_name_is_kept(
    token: Seq<char>,
    own: Option<Seq<char>>,
    mtls: MtlsView,
)
    requires
        own matches Some(name) ==> mtls.subject == Some(name) || mtls.common_name == Some(name)
            || mtls.san_dns.contains(name) || mtls.san_uri.contains(name),
    ensures
        dual_actor(Some(token), own, Some(mtls)) == if mtls.subject == Some(token)
            || mtls.common_name == Some(token) || mtls.san_dns.contains(token)
            || mtls.san_uri.contains(token) {
            Some(token)
        } else {
            None
        },
        dual_actor(None, own, Some(mtls)) == own,
        dual_actor(Some(token), None, None) == Some(token),
{
}

proof fn lemma_best(roles: Seq<AdminRole>)
    ensures
        highest_role(roles) is None <==> roles.len() == 0,
        highest_role(roles) matches Some(best) ==> roles.contains(best) && forall|i: int|
            0 <= i < roles.len() ==> standing(#[trigger] roles[i]) <= standing(best),
    decreases roles.len(),
{
    if roles.len() > 0 {
        let before = roles.drop_last();
        lemma_best(before);
        let best = highest_role(roles)->0;
        if best == roles.last() {
            assert(roles[roles.len() - 1] == best);
        } else {
            let k = choose|k: int| 0 <= k < before.len() && before[k] == best;
            assert(roles[k] == best);
        }
        assert forall|i: int| 0 <= i < roles.len() implies standing(#[trigger] roles[i])
            <= standing(best) by {
            if i < before.len() {
                assert(before[i] == roles[i]);
            }
        }
    }
}

/// A token and a certificate together give exactly the role that both allow: no higher than the
/// token's or than every one of the certificate's, and no lower than the lesser of the token's and
/// the highest of the certificate's. A certificate that names no role leaves the token's.
pub proof fn law_two_proofs_give_what_both_allow(token: TokenView, mtls: MtlsView, i: int)
    ensures
        ({
            let roles = effective_roles(Some(token), Some(mtls));
            &&& roles.len() == 1
            &&& mtls.roles.len() == 0 ==> roles[0] == token.role
            &&& 0 <= i < mtls.roles.len() ==> standing(roles[0]) >= if standing(mtls.roles[i])
                < standing(token.role) {
                standing(mtls.roles[i])
            } else {
                standing(token.role)
            }
            &&& roles[0] == token.role || mtls.roles.contains(roles[0])
            &&& standing(roles[0]) <= standing(token.role)
        }),
        effective_roles(None, None).len() == 0,
{
    lemma_best(mtls.roles);
}

/// The role that a text names, in whatever case and with white space around it.
pub proof fn law_roles_are_known_by_name(left: Seq<char>, name: Seq<char>, right: Seq<char>)
    requires
        all_white(left),
        all_white(right),
        has_firm_ends(name),
    ensures
        ({
            let role = role_named(left + name + right);
            &&& role == Some(AdminRole::Viewer) <==> same_ignoring_ascii_case(name, "viewer"@)
            &&& role == Some(AdminRole::Operator) <==> same_ignoring_ascii_case(name, "operator"@)
            &&& role == Some(AdminRole::Admin) <==> same_ignoring_ascii_case(name, "admin"@)
        }),
{
    law_trimming_cuts_the_white_ends(left, name, right);
    reveal_strlit("viewer");
    reveal_strlit("operator");
    reveal_strlit("admin");
    law_case_is_that_of_letters(name, "viewer"@);
    law_case_is_that_of_letters(name, "operator"@);
    law_case_is_that_of_letters(name, "admin"@);
    assert(ascii_lowercase("viewer"@) =~= "viewer"@);
    assert(ascii_lowercase("operator"@) =~= "operator"@);
    assert(ascii_lowercase("admin"@) =~= "admin"@);
    assert("viewer"@.len() == 6 && "operator"@.len() == 8 && "admin"@.len() == 5);
}

/// A certificate's identity has its subject, the first common name that is a text, its DNS names
/// and its URIs, and a role exactly for each attribute of the configured kind that names one.
pub proof fn law_an_identity_is_read_off_its_certificate(
    certificate: CertificateView,
    requested: Option<Seq<char>>,
    name: Seq<char>,
    role: AdminRole,
)
    ensures
        ({
            let read = certificate_identity(certificate, requested);
            &&& read.subject == Some(certificate.subject)
            &&& forall|i: int|
                0 <= i < certificate.common_names.len() && (#[trigger] certificate.common_names[i])
                    is Some && (forall|j: int|
                    0 <= j < i ==> (#[trigger] certificate.common_names[j]) is None)
                    ==> read.common_name == certificate.common_names[i]
            &&& (forall|i: int|
                0 <= i < certificate.common_names.len() ==> (#[trigger] certificate.common_names[i])
                    is None) ==> read.common_name is None
            &&& read.san_dns.contains(name) <==> certificate.alternative_names.contains(
                NameView::Dns(name),
            )
            &&& read.san_uri.contains(name) <==> certificate.alternative_names.contains(
                NameView::Uri(name),
            )
            &&& requested is None ==> read.roles.len() == 0
            &&& requested matches Some(requested) ==> (read.roles.contains(role) <==> exists|i: int|
                0 <= i < certificate.attributes.len() && gives_role(
                    #[trigger] certificate.attributes[i],
                    requested,
                    role,
                ))
        }),
{
    lemma_first_text(certificate.common_names);
    lemma_alternative_names(certificate.alternative_names, name);
    if let Some(requested) = requested {
        lemma_attribute_roles(certificate.attributes, requested, role);
    }
}

/// An attribute is of the requested kind, by its number or by the short name of a common name, an
/// organisation or a unit, and its value names the role.
pub open spec fn gives_role(
    attribute: (Seq<char>, Option<Seq<char>>),
    requested: Seq<char>,
    role: AdminRole,
) -> bool {
    &&& {
        ||| same_ignoring_ascii_case(attribute.0, requested)
        ||| same_ignoring_ascii_case(requested, "cn"@) && attribute.0 == "2.5.4.3"@
        ||| same_ignoring_ascii_case(requested, "o"@) && attribute.0 == "2.5.4.10"@
        ||| same_ignoring_ascii_case(requested, "ou"@) && attribute.0 == "2.5.4.11"@
    }
    &&& attribute.1 matches Some(value) && role_named(value) == Some(role)
}

proof fn lemma_gives_role(
    attribute: (Seq<char>, Option<Seq<char>>),
    requested: Seq<char>,
    role: AdminRole,
)
    ensures
        attribute_role(attribute, requested) == Some(role) <==> gives_role(
            attribute,
            requested,
            role,
        ),
{
    reveal_strlit("cn");
    reveal_strlit("o");
    reveal_strlit("ou");
    law_case_is_that_of_letters(requested, "cn"@);
    law_case_is_that_of_letters(requested, "o"@);
    law_case_is_that_of_letters(requested, "ou"@);
    assert(ascii_lowercase("cn"@) =~= "cn"@);
    assert(ascii_lowercase("o"@) =~= "o"@);
    assert(ascii_lowercase("ou"@) =~= "ou"@);
    assert("cn"@[0] == 'c' && "ou"@[0] == 'o' && "o"@.len() == 1);
}

proof fn lemma_attribute_roles(
    attributes: Seq<(Seq<char>, Option<Seq<char>>)>,
    requested: Seq<char>,
    role: AdminRole,
)
    ensures
        attribute_roles(attributes, requested).contains(role) <==> exists|i: int|
            0 <= i < attributes.len() && gives_role(#[trigger] attributes[i], requested, role),
    decreases attributes.len(),
{
    if attributes.len() > 0 {
        let before = attributes.drop_last();
        let last = attributes.len() - 1;
        lemma_attribute_roles(before, requested, role);
        lemma_gives_role(attributes[last], requested, role);
        let sofar = attribute_roles(before, requested);
        let all = attribute_roles(attributes, requested);
        if all.contains(role) {
            let k = choose|k: int| 0 <= k < all.len() && all[k] == role;
            if k < sofar.len() {
                assert(sofar[k] == role);
                let i = choose|i: int|
                    0 <= i < before.len() && gives_role(#[trigger] before[i], requested, role);
                assert(gives_role(attributes[i], requested, role));
            } else {
                assert(gives_role(attributes[last], requested, role));
            }
        }
        if exists|i: int|
            0 <= i < attributes.len() && gives_role(#[trigger] attributes[i], requested, role) {
            let i = choose|i: int|
                0 <= i < attributes.len() && gives_role(#[trigger] attributes[i], requested, role);
            if i < last {
                assert(gives_role(before[i], requested, role));
                let k = choose|k: int| 0 <= k < sofar.len() && sofar[k] == role;
                assert(all[k] == role);
            } else {
                assert(all[all.len() - 1] == role);
            }
        }
    }
}

proof fn lemma_first_text(names: Seq<Option<Seq<char>>>)
    ensures
        forall|i: int|
            0 <= i < names.len() && (#[trigger] names[i]) is Some && (forall|j: int|
                0 <= j < i ==> (#[trigger] names[j]) is None) ==> first_text(names) == names[i],
        (forall|i: int| 0 <= i < names.len() ==> (#[trigger] names[i]) is None) ==> first_text(
            names,
        ) is None,
    decreases names.len(),
{
    if names.len() > 0 {
        let rest = names.drop_first();
        lemma_first_text(rest);
        assert forall|i: int|
            0 <= i < names.len() && (#[trigger] names[i]) is Some && (forall|j: int|
                0 <= j < i ==> (#[trigger] names[j]) is None) implies first_text(names)
            == names[i] by {
            if i > 0 {
                assert(names[0] is None);
                assert(rest[i - 1] == names[i]);
                assert forall|j: int| 0 <= j < i - 1 implies (#[trigger] rest[j]) is None by {
                    assert(rest[j] == names[j + 1]);
                }
            }
        }
        if forall|i: int| 0 <= i < names.len() ==> (#[trigger] names[i]) is None {
            assert(names[0] is None);
            assert forall|j: int| 0 <= j < rest.len() implies (#[trigger] rest[j]) is None by {
                assert(rest[j] == names[j + 1]);
            }
        }
    }
}

proof fn lemma_alternative_names(names: Seq<NameView>, name: Seq<char>)
    ensures
        dns_names(names).contains(name) <==> names.contains(NameView::Dns(name)),
        uri_names(names).contains(name) <==> names.contains(NameView::Uri(name)),
    decreases names.len(),
{
    if names.len() > 0 {
        let before = names.drop_last();
        lemma_alternative_names(before, name);
        let last = names.last();
        assert(names =~= before.push(last));
        assert forall|wanted: NameView| names.contains(wanted) <==> before.contains(wanted) || last
            == wanted by {
            if before.contains(wanted) {
                let k = choose|k: int| 0 <= k < before.len() && before[k] == wanted;
                assert(names[k] == wanted);
            }
            if last == wanted {
                assert(names[names.len() - 1] == wanted);
            }
            if names.contains(wanted) && last != wanted {
                let k = choose|k: int| 0 <= k < names.len() && names[k] == wanted;
                assert(before[k] == wanted);
            }
        }
        let dns = dns_names(before);
        let uri = uri_names(before);
        if let NameView::Dns(text) = last {
            assert(dns.push(text)[dns.len() as int] == text);
            assert(dns.push(text).contains(name) <==> dns.contains(name) || text == name) by {
                if dns.contains(name) {
                    let k = choose|k: int| 0 <= k < dns.len() && dns[k] == name;
                    assert(dns.push(text)[k] == name);
                }
                if dns.push(text).contains(name) && text != name {
                    let k = choose|k: int| 0 <= k < dns.push(text).len() && dns.push(text)[k] == name;
                    assert(dns[k] == name);
                }
            }
        }
        if let NameView::Uri(text) = last {
            assert(uri.push(text)[uri.len() as int] == text);
            assert(uri.push(text).contains(name) <==> uri.contains(name) || text == name) by {
                if uri.contains(name) {
                    let k = choose|k: int| 0 <= k < uri.len() && uri[k] == name;
                    assert(uri.push(text)[k] == name);
                }
                if uri.push(text).contains(name) && text != name {
                    let k = choose|k: int| 0 <= k < uri.push(text).len() && uri.push(text)[k] == name;
                    assert(uri[k] == name);
                }
            }
        }
    }
}

/// A network in CIDR notation is an address and the length of its prefix with a slash between them,
/// and white space around either counts for nothing.
pub proof fn law_a_network_is_written_with_a_slash(address: Seq<char>, prefix_len: nat)
    requires
        address.len() > 0,
        has_firm_ends(address),
        !address.contains('/'),
    ensures
        cidr_parts(address.push('/') + decimal(prefix_len)) == if prefix_len <= 255 {
            Some((address, prefix_len as u8))
        } else {
            None
        },
        cidr_parts(address) is None,
{
    let digits = decimal(prefix_len);
    let text = address.push('/') + digits;
    law_a_written_number_reads_back(prefix_len);
    let n = address.len() as int;
    assert(digits.len() > 0 && crate::text::all_digits(digits)) by {
        if digits.len() > 0 && digits[0] == '+' {
            assert(false) by {
                lemma_decimal_has_no_sign(prefix_len);
            }
        }
    }
    assert(crate::text::is_digit(digits[0]));
    assert(crate::text::is_digit(digits[digits.len() - 1]));
    assert(text[0] == address[0]);
    assert(text[text.len() - 1] == digits[digits.len() - 1]);
    law_trimming_cuts_the_white_ends(Seq::empty(), text, Seq::empty());
    assert(Seq::<char>::empty() + text + Seq::<char>::empty() =~= text);
    law_trimming_cuts_the_white_ends(Seq::empty(), address, Seq::empty());
    assert(Seq::<char>::empty() + address + Seq::<char>::empty() =~= address);
    law_trimming_cuts_the_white_ends(Seq::empty(), digits, Seq::empty());
    assert(Seq::<char>::empty() + digits + Seq::<char>::empty() =~= digits);
    assert forall|i: int| 0 <= i < n implies !is_char('/')(#[trigger] text[i]) by {
        assert(address.contains(address[i]));
        assert(text[i] == address[i]);
    }
    assert(text[n] == '/');
    lemma_span_is(text, is_char('/'), n);
    assert(text.take(n) =~= address);
    assert(text.skip(n + 1) =~= digits);
    assert forall|i: int| 0 <= i < n implies !is_char('/')(#[trigger] address[i]) by {
        assert(address.contains(address[i]));
    }
    lemma_span_is(address, is_char('/'), n);
}

proof fn lemma_decimal_has_no_sign(n: nat)
    ensures
        decimal(n).len() > 0,
        decimal(n)[0] != '+',
    decreases n,
{
    if n >= 10 {
        lemma_decimal_has_no_sign(n / 10);
        assert(decimal(n)[0] == decimal(n / 10)[0]);
    }
}

/// A network covers an address exactly where both are of one family and agree in their leading
/// bits, as many as the prefix is long; there is no network with a longer prefix than an address
/// has bits.
pub proof fn law_a_network_covers_what_agrees(a: u32, b: u32, x: u128, y: u128, prefix_len: u8)
    ensures
        network_of(IpAddress::V4(a), prefix_len) is Some <==> prefix_len <= 32,
        network_of(IpAddress::V6(x), prefix_len) is Some <==> prefix_len <= 128,
        network_of(IpAddress::V4(a), prefix_len) matches Some(network) ==> {
            &&& !network.covers(IpAddress::V6(y))
            &&& network.covers(IpAddress::V4(b)) <==> a as nat / pow2((32 - prefix_len) as nat)
                == b as nat / pow2((32 - prefix_len) as nat)
        },
        network_of(IpAddress::V6(x), prefix_len) matches Some(network) ==> {
            &&& !network.covers(IpAddress::V4(b))
            &&& network.covers(IpAddress::V6(y)) <==> x as nat / pow2((128 - prefix_len) as nat)
                == y as nat / pow2((128 - prefix_len) as nat)
        },
{
    if prefix_len <= 32 {
        law_network_covers_its_address(IpAddress::V4(a), prefix_len, IpAddress::V4(b));
        lemma_leading_v4(a, prefix_len);
        lemma_leading_v4(b, prefix_len);
    }
    if prefix_len <= 128 {
        law_network_covers_its_address(IpAddress::V6(x), prefix_len, IpAddress::V6(y));
        lemma_leading_v6(x, prefix_len);
        lemma_leading_v6(y, prefix_len);
    }
}

proof fn lemma_leading_v4(a: u32, prefix_len: u8)
    requires
        prefix_len <= 32,
    ensures
        leading_bits_v4(a, prefix_len) as nat == a as nat / pow2((32 - prefix_len) as nat),
{
    lemma2_to64();
    if prefix_len == 0 {
        assert(a as nat / 0x1_0000_0000 == 0);
    } else {
        vstd::bits::lemma_u32_shr_is_div(a, (32 - prefix_len) as u32);
    }
}

proof fn lemma_leading_v6(a: u128, prefix_len: u8)
    requires
        prefix_len <= 128,
    ensures
        leading_bits_v6(a, prefix_len) as nat == a as nat / pow2((128 - prefix_len) as nat),
{
    if prefix_len == 0 {
        lemma2_to64();
        lemma2_to64_rest();
        vstd::arithmetic::power2::lemma_pow2_adds(64, 64);
        assert(pow2(128) == 0x1_0000_0000_0000_0000 * 0x1_0000_0000_0000_0000);
        assert(a as nat / pow2(128) == 0) by {
            vstd::arithmetic::div_mod::lemma_basic_div(a as int, pow2(128) as int);
        }
    } else {
        vstd::bits::lemma_u128_shr_is_div(a, (128 - prefix_len) as u128);
    }
}

/// Every network of a list that can be read is consulted, and no other: an address is covered by
/// the list exactly where it is covered by some network of it.
pub proof fn law_every_listed_network_counts(cidrs: Seq<ConfiguredCidr>, ip: IpAddress)
    ensures
        (exists|i: int|
            0 <= i < configured_networks(cidrs).len() && (
            #[trigger] configured_networks(cidrs)[i]).covers(ip)) <==> (exists|i: int|
            0 <= i < cidrs.len() && (configured_network(#[trigger] cidrs[i]) matches Some(network)
                && network.covers(ip))),
        configured_networks(cidrs).len() <= cidrs.len(),
    decreases cidrs.len(),
{
    if cidrs.len() > 0 {
        let before = cidrs.drop_last();
        let last = cidrs.len() - 1;
        law_every_listed_network_counts(before, ip);
        let sofar = configured_networks(before);
        let all = configured_networks(cidrs);
        if exists|i: int| 0 <= i < all.len() && (#[trigger] all[i]).covers(ip) {
            let i = choose|i: int| 0 <= i < all.len() && (#[trigger] all[i]).covers(ip);
            if i < sofar.len() {
                assert(sofar[i].covers(ip));
                let k = choose|k: int|
                    0 <= k < before.len() && (configured_network(#[trigger] before[k]) matches Some(
                        network,
                    ) && network.covers(ip));
                assert(cidrs[k] == before[k]);
            } else {
                assert(configured_network(cidrs[last]) is Some);
            }
        }
        if exists|i: int|
            0 <= i < cidrs.len() && (configured_network(#[trigger] cidrs[i]) matches Some(network)
                && network.covers(ip)) {
            let i = choose|i: int|
                0 <= i < cidrs.len() && (configured_network(#[trigger] cidrs[i]) matches Some(
                    network,
                ) && network.covers(ip));
            if i < last {
                assert(before[i] == cidrs[i]);
                let k = choose|k: int| 0 <= k < sofar.len() && (#[trigger] sofar[k]).covers(ip);
                assert(all[k].covers(ip));
            } else {
                assert(all[all.len() - 1].covers(ip));
            }
        }
    }
}

/// A request without a route is not found, whoever sends it, and any other one is refused exactly
/// as its route's authorization says.
pub proof fn law_only_routes_are_found(
    request: ControlApiRequest,
    security: ControlApiSecurityPolicy,
    paths: ControlApiPaths,
    active_generation: Option<u64>,
    throttled: bool,
)
    ensures
        ({
            let passed = gate(request, security, paths, active_generation, throttled);
            &&& passed.decision == GateDecisionView::NotFound <==> route_of(
                request.method,
                request.path@,
                paths,
            ) is None
            &&& route_of(request.method, request.path@, paths) is None ==> passed.records.len() == 0
                && passed.throttle == ThrottleAction::Nothing
            &&& route_of(request.method, request.path@, paths) matches Some(route) ==> {
                let outcome = authorization(request, security, active_generation, throttled, route);
                &&& passed.records == outcome.records && passed.throttle == outcome.throttle
                &&& match outcome.decision {
                    Ok(identity) => passed.decision == (GateDecisionView::Passed {
                        route,
                        identity,
                    }),
                    Err(error) => passed.decision == GateDecisionView::Refused(error),
                }
            }
        }),
{
}

} // verus!
