//! Who an operator is: bearer tokens, client certificates, and what the two say together.
use crate::control_api::certificate::{
    certificate_of, name_views, opt_texts, parse_certificate, AlternativeName, Certificate,
    CertificateView, NameView,
};
use crate::control_api::security::IpAddress;
use crate::listener::QUICListener;
use crate::text::{
    ascii_lowercase, clone_list, eq_ignore_ascii_case, opt, same_ignoring_ascii_case, same_text,
    texts, to_ascii_lowercase, trim, trimmed,
};
use vstd::hash_set::StringHashSet;
use vstd::prelude::*;

verus! {

/// What an operator may do, each role more than the one before.
#[derive(Debug, Clone, Copy, PartialEq, Eq, Structural)]
pub enum AdminRole {
    Viewer,
    Operator,
    Admin,
}

impl AdminRole {
    /// The role's place in the order.
    pub open spec fn rank(self) -> int {
        match self {
            AdminRole::Viewer => 0,
            AdminRole::Operator => 1,
            AdminRole::Admin => 2,
        }
    }

    /// The role permits what `required` permits.
    pub fn at_least(self, required: AdminRole) -> (r: bool)
        ensures
            r == (self.rank() >= required.rank()),
    {
        match (self, required) {
            (_, AdminRole::Viewer) => true,
            (AdminRole::Viewer, _) => false,
            (_, AdminRole::Operator) => true,
            (AdminRole::Operator, _) => false,
            (AdminRole::Admin, AdminRole::Admin) => true,
        }
    }

    pub fn most_privileged(roles: &Vec<AdminRole>) -> (r: Option<AdminRole>)
        ensures
            r == highest_role(roles@),
    {
        let mut best: Option<AdminRole> = None;
        let mut i: usize = 0;
        while i < roles.len()
            invariant
                i <= roles.len(),
                best == highest_role(roles@.take(i as int)),
            decreases roles.len() - i,
        {
            assert(roles@.take(i + 1).drop_last() =~= roles@.take(i as int));
            best = match best {
                Some(current) => if roles[i].at_least(current) {
                    Some(roles[i])
                } else {
                    Some(current)
                },
                None => Some(roles[i]),
            };
            i = i + 1;
        }
        assert(roles@.take(i as int) =~= roles@);
        best
    }

    pub fn least_privileged(left: AdminRole, right: AdminRole) -> (r: AdminRole)
        ensures
            r == lower_role(left, right),
    {
        if right.at_least(left) { left } else { right }
    }
}

/// The lower of two roles.
pub open spec fn lower_role(left: AdminRole, right: AdminRole) -> AdminRole {
    if left.rank() <= right.rank() {
        left
    } else {
        right
    }
}

/// The highest of some roles.
pub open spec fn highest_role(roles: Seq<AdminRole>) -> Option<AdminRole>
    decreases roles.len(),
{
    if roles.len() == 0 {
        None
    } else {
        match highest_role(roles.drop_last()) {
            None => Some(roles.last()),
            Some(best) => Some(
                if roles.last().rank() >= best.rank() {
                    roles.last()
                } else {
                    best
                },
            ),
        }
    }
}

#[derive(Debug, Clone, Copy, PartialEq, Eq, Structural)]
pub enum AdminAuthnMechanism {
    BearerToken,
    MutualTls,
}

/// The other end of a connection: its address, and the address with its port as text.
#[derive(Debug)]
pub struct PeerAddr {
    pub ip: IpAddress,
    pub text: String,
}

impl Clone for PeerAddr {
    fn clone(&self) -> (r: Self)
        ensures
            r == *self,
    {
        PeerAddr { ip: self.ip, text: self.text.clone() }
    }
}

/// What a client certificate says of its holder.
#[derive(Debug)]
pub struct AdminMtlsIdentity {
    pub subject: Option<String>,
    pub common_name: Option<String>,
    pub san_dns: Vec<String>,
    pub san_uri: Vec<String>,
    pub roles: Vec<AdminRole>,
}

pub struct MtlsView {
    pub subject: Option<Seq<char>>,
    pub common_name: Option<Seq<char>>,
    pub san_dns: Seq<Seq<char>>,
    pub san_uri: Seq<Seq<char>>,
    pub roles: Seq<AdminRole>,
}

impl View for AdminMtlsIdentity {
    type V = MtlsView;

    open spec fn view(&self) -> MtlsView {
        MtlsView {
            subject: opt(self.subject),
            common_name: opt(self.common_name),
            san_dns: texts(self.san_dns@),
            san_uri: texts(self.san_uri@),
            roles: self.roles@,
        }
    }
}

/// The view of an optional certificate identity.
pub open spec fn opt_mtls(identity: Option<AdminMtlsIdentity>) -> Option<MtlsView> {
    match identity {
        Some(identity) => Some(identity@),
        None => None,
    }
}

/// The view of an optional borrowed certificate identity.
pub open spec fn opt_mtls_ref(identity: Option<&AdminMtlsIdentity>) -> Option<MtlsView> {
    match identity {
        Some(identity) => Some(identity@),
        None => None,
    }
}

/// What is known of a request's connection and its place in a trace.
#[derive(Debug)]
pub struct ControlApiRequestContext {
    pub peer_addr: PeerAddr,
    pub mtls_identity: Option<AdminMtlsIdentity>,
    pub listener: Option<String>,
    pub request_id: Option<String>,
    pub trace_id: Option<String>,
    pub span_id: Option<String>,
}

pub struct ContextView {
    pub peer_addr: PeerAddr,
    pub mtls_identity: Option<MtlsView>,
    pub listener: Option<Seq<char>>,
    pub request_id: Option<Seq<char>>,
    pub trace_id: Option<Seq<char>>,
    pub span_id: Option<Seq<char>>,
}

impl View for ControlApiRequestContext {
    type V = ContextView;

    open spec fn view(&self) -> ContextView {
        ContextView {
            peer_addr: self.peer_addr,
            mtls_identity: opt_mtls(self.mtls_identity),
            listener: opt(self.listener),
            request_id: opt(self.request_id),
            trace_id: opt(self.trace_id),
            span_id: opt(self.span_id),
        }
    }
}

/// The view of an optional context.
pub open spec fn opt_context(context: Option<&ControlApiRequestContext>) -> Option<ContextView> {
    match context {
        Some(context) => Some(context@),
        None => None,
    }
}

/// An operator who proved who they are.
#[derive(Debug)]
pub struct AdminIdentity {
    pub actor_id: Option<String>,
    pub authn_mechanisms: Vec<AdminAuthnMechanism>,
    pub roles: Vec<AdminRole>,
    pub peer_addr: Option<PeerAddr>,
    pub mtls_subject: Option<String>,
    pub mtls_san: Vec<String>,
}

pub struct IdentityView {
    pub actor_id: Option<Seq<char>>,
    pub authn_mechanisms: Seq<AdminAuthnMechanism>,
    pub roles: Seq<AdminRole>,
    pub peer_addr: Option<PeerAddr>,
    pub mtls_subject: Option<Seq<char>>,
    pub mtls_san: Seq<Seq<char>>,
}

impl View for AdminIdentity {
    type V = IdentityView;

    open spec fn view(&self) -> IdentityView {
        IdentityView {
            actor_id: opt(self.actor_id),
            authn_mechanisms: self.authn_mechanisms@,
            roles: self.roles@,
            peer_addr: self.peer_addr,
            mtls_subject: opt(self.mtls_subject),
            mtls_san: texts(self.mtls_san@),
        }
    }
}

/// The view of an optional identity.
pub open spec fn opt_identity(identity: Option<&AdminIdentity>) -> Option<IdentityView> {
    match identity {
        Some(identity) => Some(identity@),
        None => None,
    }
}

/// The entry that a bearer token matches.
#[derive(Debug)]
pub struct AdminTokenMatch {
    pub actor_id: Option<String>,
    pub role: AdminRole,
}

pub struct TokenView {
    pub actor_id: Option<Seq<char>>,
    pub role: AdminRole,
}

impl View for AdminTokenMatch {
    type V = TokenView;

    open spec fn view(&self) -> TokenView {
        TokenView { actor_id: opt(self.actor_id), role: self.role }
    }
}

/// The view of an optional match.
pub open spec fn opt_token(token: Option<AdminTokenMatch>) -> Option<TokenView> {
    match token {
        Some(token) => Some(token@),
        None => None,
    }
}

/// How operators are told apart by their certificates.
#[derive(Debug)]
pub struct ControlApiIdentitySourcePolicy {
    pub kind: String,
    pub role_attribute: Option<String>,
}

/// The names under which a certificate's holder may be known.
pub open spec fn principals(mtls: MtlsView) -> Set<Seq<char>> {
    Set::new(
        |name: Seq<char>|
            mtls.subject == Some(name) || mtls.common_name == Some(name) || mtls.san_dns.contains(
                name,
            ) || mtls.san_uri.contains(name),
    )
}

fn insert_all(set: &mut StringHashSet, list: &Vec<String>)
    ensures
        final(set)@ == old(set)@.union(Set::new(|name: Seq<char>| texts(list@).contains(name))),
{
    let ghost all = texts(list@);
    let mut i: usize = 0;
    assert(set@ =~= old(set)@.union(Set::new(|name: Seq<char>| all.take(0).contains(name))));
    while i < list.len()
        invariant
            i <= list.len(),
            all == texts(list@),
            set@ == old(set)@.union(
                Set::new(|name: Seq<char>| all.take(i as int).contains(name)),
            ),
        decreases list.len() - i,
    {
        let ghost prefix = all.take(i as int);
        let ghost next = all.take(i + 1);
        let ghost item = list@[i as int]@;
        set.insert(list[i].clone());
        proof {
            assert(next =~= prefix.push(item));
            assert forall|name: Seq<char>| #[trigger]
                next.contains(name) <==> prefix.contains(name) || name == item by {
                if next.contains(name) {
                    let k = choose|k: int| 0 <= k < next.len() && next[k] == name;
                    if k < prefix.len() {
                        assert(prefix[k] == name);
                    }
                }
                if prefix.contains(name) {
                    let k = choose|k: int| 0 <= k < prefix.len() && prefix[k] == name;
                    assert(next[k] == name);
                }
                if name == item {
                    assert(next[i as int] == name);
                }
            }
            assert(set@ =~= old(set)@.union(Set::new(|name: Seq<char>| next.contains(name))));
        }
        i = i + 1;
    }
    assert(all.take(i as int) =~= all);
}

/// The common name that counts: the first that is text.
pub open spec fn first_text(names: Seq<Option<Seq<char>>>) -> Option<Seq<char>>
    decreases names.len(),
{
    if names.len() == 0 {
        None
    } else if names[0] is Some {
        names[0]
    } else {
        first_text(names.drop_first())
    }
}

/// The DNS names among some alternative names.
pub open spec fn dns_names(names: Seq<NameView>) -> Seq<Seq<char>>
    decreases names.len(),
{
    if names.len() == 0 {
        Seq::empty()
    } else {
        match names.last() {
            NameView::Dns(name) => dns_names(names.drop_last()).push(name),
            _ => dns_names(names.drop_last()),
        }
    }
}

/// The URIs among some alternative names.
pub open spec fn uri_names(names: Seq<NameView>) -> Seq<Seq<char>>
    decreases names.len(),
{
    if names.len() == 0 {
        Seq::empty()
    } else {
        match names.last() {
            NameView::Uri(name) => uri_names(names.drop_last()).push(name),
            _ => uri_names(names.drop_last()),
        }
    }
}

/// The object identifier is the one that a short attribute name stands for.
pub open spec fn attribute_alias(actual: Seq<char>, requested: Seq<char>) -> bool {
    let name = ascii_lowercase(requested);
    if name == "cn"@ {
        actual == "2.5.4.3"@
    } else if name == "o"@ {
        actual == "2.5.4.10"@
    } else if name == "ou"@ {
        actual == "2.5.4.11"@
    } else {
        false
    }
}

/// The role that a text names.
pub open spec fn role_named(value: Seq<char>) -> Option<AdminRole> {
    let name = ascii_lowercase(trimmed(value));
    if name == "viewer"@ {
        Some(AdminRole::Viewer)
    } else if name == "operator"@ {
        Some(AdminRole::Operator)
    } else if name == "admin"@ {
        Some(AdminRole::Admin)
    } else {
        None
    }
}

/// The role that an attribute gives, where it is the one asked for.
pub open spec fn attribute_role(
    attribute: (Seq<char>, Option<Seq<char>>),
    requested: Seq<char>,
) -> Option<AdminRole> {
    if same_ignoring_ascii_case(attribute.0, requested) || attribute_alias(attribute.0, requested) {
        match attribute.1 {
            Some(value) => role_named(value),
            None => None,
        }
    } else {
        None
    }
}

/// The roles that a subject's attributes give, in their order.
pub open spec fn attribute_roles(
    attributes: Seq<(Seq<char>, Option<Seq<char>>)>,
    requested: Seq<char>,
) -> Seq<AdminRole>
    decreases attributes.len(),
{
    if attributes.len() == 0 {
        Seq::empty()
    } else {
        let sofar = attribute_roles(attributes.drop_last(), requested);
        match attribute_role(attributes.last(), requested) {
            Some(role) => sofar.push(role),
            None => sofar,
        }
    }
}

/// The view of an identity source's role attribute.
pub open spec fn role_attribute(source: Option<&ControlApiIdentitySourcePolicy>) -> Option<
    Seq<char>,
> {
    match source {
        Some(source) => opt(source.role_attribute),
        None => None,
    }
}

/// The view of an identity source's kind.
pub open spec fn source_kind(source: Option<&ControlApiIdentitySourcePolicy>) -> Option<Seq<char>> {
    match source {
        Some(source) => Some(source.kind@),
        None => None,
    }
}

/// The identity that a certificate gives.
pub open spec fn certificate_identity(
    certificate: CertificateView,
    attribute: Option<Seq<char>>,
) -> MtlsView {
    MtlsView {
        subject: Some(certificate.subject),
        common_name: first_text(certificate.common_names),
        san_dns: dns_names(certificate.alternative_names),
        san_uri: uri_names(certificate.alternative_names),
        roles: match attribute {
            Some(requested) => attribute_roles(certificate.attributes, requested),
            None => Seq::empty(),
        },
    }
}

/// The name under which a certificate's holder acts.
pub open spec fn mtls_actor(mtls: MtlsView, kind: Option<Seq<char>>) -> Option<Seq<char>> {
    let fallback = if mtls.common_name is Some {
        mtls.common_name
    } else {
        mtls.subject
    };
    match kind {
        None => fallback,
        Some(kind) => {
            let name = ascii_lowercase(trimmed(kind));
            if name == "mtls_subject_cn"@ {
                mtls.common_name
            } else if name == "mtls_san_dns"@ {
                first_item(mtls.san_dns)
            } else if name == "mtls_san_uri"@ {
                first_item(mtls.san_uri)
            } else if name == "mtls_subject"@ {
                mtls.subject
            } else {
                fallback
            }
        },
    }
}

pub open spec fn first_item(list: Seq<Seq<char>>) -> Option<Seq<char>> {
    if list.len() > 0 {
        Some(list[0])
    } else {
        None
    }
}

/// The name under which an operator acts who brings a token, a certificate, or both: a token's name
/// counts beside a certificate only where the certificate bears it out.
pub open spec fn dual_actor(
    token_actor: Option<Seq<char>>,
    mtls_actor: Option<Seq<char>>,
    mtls: Option<MtlsView>,
) -> Option<Seq<char>> {
    match (token_actor, mtls_actor, mtls) {
        (Some(token), Some(own), Some(mtls)) => if token == own || principals(mtls).contains(
            token,
        ) {
            Some(token)
        } else {
            None
        },
        (Some(token), Some(own), None) => if token == own {
            Some(token)
        } else {
            None
        },
        (Some(token), None, Some(mtls)) => if principals(mtls).contains(token) {
            Some(token)
        } else {
            None
        },
        (Some(token), None, None) => Some(token),
        (None, own, _) => own,
    }
}

/// Some roles, each once, the lowest first.
pub open spec fn ascending(roles: Seq<AdminRole>) -> Seq<AdminRole> {
    let viewer = if roles.contains(AdminRole::Viewer) {
        seq![AdminRole::Viewer]
    } else {
        seq![]
    };
    let operator = if roles.contains(AdminRole::Operator) {
        seq![AdminRole::Operator]
    } else {
        seq![]
    };
    let admin = if roles.contains(AdminRole::Admin) {
        seq![AdminRole::Admin]
    } else {
        seq![]
    };
    viewer + operator + admin
}

/// The roles of an operator. One who brings both a token and a certificate has the lower of what
/// the token gives and the highest that the certificate gives, where it gives any.
pub open spec fn effective_roles(
    token: Option<TokenView>,
    mtls: Option<MtlsView>,
) -> Seq<AdminRole> {
    match (token, mtls) {
        (Some(token), Some(mtls)) => match highest_role(mtls.roles) {
            Some(highest) => seq![lower_role(token.role, highest)],
            None => seq![token.role],
        },
        (Some(token), None) => seq![token.role],
        (None, Some(mtls)) => ascending(mtls.roles),
        (None, None) => Seq::empty(),
    }
}

/// The ways in which an operator proved who they are.
pub open spec fn mechanisms_of(token: bool, mtls: bool) -> Seq<AdminAuthnMechanism> {
    let first = if token {
        seq![AdminAuthnMechanism::BearerToken]
    } else {
        seq![]
    };
    let second = if mtls {
        seq![AdminAuthnMechanism::MutualTls]
    } else {
        seq![]
    };
    first + second
}

/// The identity that a token and a connection's certificate give together; nothing where there is
/// neither.
pub open spec fn identity_of(
    context: Option<ContextView>,
    token: Option<TokenView>,
    kind: Option<Seq<char>>,
) -> Option<IdentityView> {
    let mtls = match context {
        Some(context) => context.mtls_identity,
        None => None,
    };
    if token is None && mtls is None {
        None
    } else {
        Some(
            IdentityView {
                actor_id: dual_actor(
                    match token {
                        Some(token) => token.actor_id,
                        None => None,
                    },
                    match mtls {
                        Some(mtls) => mtls_actor(mtls, kind),
                        None => None,
                    },
                    mtls,
                ),
                authn_mechanisms: mechanisms_of(token is Some, mtls is Some),
                roles: effective_roles(token, mtls),
                peer_addr: match context {
                    Some(context) => Some(context.peer_addr),
                    None => None,
                },
                mtls_subject: match mtls {
                    Some(mtls) => mtls.subject,
                    None => None,
                },
                mtls_san: match mtls {
                    Some(mtls) => mtls.san_dns + mtls.san_uri,
                    None => Seq::empty(),
                },
            },
        )
    }
}

fn contains_role(roles: &Vec<AdminRole>, wanted: AdminRole) -> (r: bool)
    ensures
        r == roles@.contains(wanted),
{
    let mut i: usize = 0;
    while i < roles.len()
        invariant
            i <= roles.len(),
            forall|k: int| 0 <= k < i ==> roles@[k] != wanted,
        decreases roles.len() - i,
    {
        if roles[i] == wanted {
            return true;
        }
        i = i + 1;
    }
    false
}

fn sort_roles(roles: &Vec<AdminRole>) -> (r: Vec<AdminRole>)
    ensures
        r@ == ascending(roles@),
{
    let mut r: Vec<AdminRole> = Vec::new();
    if contains_role(roles, AdminRole::Viewer) {
        r.push(AdminRole::Viewer);
    }
    if contains_role(roles, AdminRole::Operator) {
        r.push(AdminRole::Operator);
    }
    if contains_role(roles, AdminRole::Admin) {
        r.push(AdminRole::Admin);
    }
    assert(r@ =~= ascending(roles@));
    r
}

fn first_of_list(list: &Vec<String>) -> (r: Option<String>)
    ensures
        opt(r) == first_item(texts(list@)),
{
    assert(texts(list@).len() == list@.len());
    if list.len() > 0 {
        assert(texts(list@)[0] == list@[0]@);
        Some(list[0].clone())
    } else {
        None
    }
}

impl QUICListener {
    pub fn mtls_identity_principals(mtls: &AdminMtlsIdentity) -> (r: StringHashSet)
        ensures
            r@ == principals(mtls@),
    {
        let mut set = StringHashSet::new();
        if let Some(subject) = &mtls.subject {
            set.insert(subject.clone());
        }
        if let Some(common_name) = &mtls.common_name {
            set.insert(common_name.clone());
        }
        insert_all(&mut set, &mtls.san_dns);
        insert_all(&mut set, &mtls.san_uri);
        assert(set@ =~= principals(mtls@));
        set
    }

    pub fn token_actor_matches_mtls_identity(token_actor_id: &str, mtls: &AdminMtlsIdentity) -> (r:
        bool)
        ensures
            r == principals(mtls@).contains(token_actor_id@),
    {
        let names = Self::mtls_identity_principals(mtls);
        names.contains(token_actor_id)
    }

    pub fn reconcile_dual_auth_actor_id(
        token_actor_id: Option<String>,
        mtls_actor_id: Option<String>,
        mtls_identity: Option<&AdminMtlsIdentity>,
    ) -> (r: Option<String>)
        ensures
            opt(r) == dual_actor(
                opt(token_actor_id),
                opt(mtls_actor_id),
                opt_mtls_ref(mtls_identity),
            ),
    {
        let token = match token_actor_id {
            Some(token) => token,
            None => {
                return mtls_actor_id;
            },
        };
        let confirmed = match (&mtls_actor_id, mtls_identity) {
            (Some(own), Some(mtls)) => same_text(token.as_str(), own.as_str())
                || Self::token_actor_matches_mtls_identity(token.as_str(), mtls),
            (Some(own), None) => same_text(token.as_str(), own.as_str()),
            (None, Some(mtls)) => Self::token_actor_matches_mtls_identity(token.as_str(), mtls),
            (None, None) => true,
        };
        if confirmed {
            Some(token)
        } else {
            None
        }
    }

    pub fn matches_admin_subject_attribute_alias(actual: &str, requested: &str) -> (r: bool)
        ensures
            r == attribute_alias(actual@, requested@),
    {
        let name = to_ascii_lowercase(requested);
        if same_text(name.as_str(), "cn") {
            same_text(actual, "2.5.4.3")
        } else if same_text(name.as_str(), "o") {
            same_text(actual, "2.5.4.10")
        } else if same_text(name.as_str(), "ou") {
            same_text(actual, "2.5.4.11")
        } else {
            false
        }
    }

    pub fn parse_admin_role(value: &str) -> (r: Option<AdminRole>)
        ensures
            r == role_named(value@),
    {
        let name = to_ascii_lowercase(trim(value));
        if same_text(name.as_str(), "viewer") {
            Some(AdminRole::Viewer)
        } else if same_text(name.as_str(), "operator") {
            Some(AdminRole::Operator)
        } else if same_text(name.as_str(), "admin") {
            Some(AdminRole::Admin)
        } else {
            None
        }
    }

    pub fn extract_admin_roles_from_subject_attribute(
        certificate: &Certificate,
        attribute: &str,
    ) -> (r: Vec<AdminRole>)
        ensures
            r@ == attribute_roles(certificate@.attributes, attribute@),
    {
        let ghost all = certificate@.attributes;
        let mut roles: Vec<AdminRole> = Vec::new();
        let mut i: usize = 0;
        while i < certificate.attributes.len()
            invariant
                i <= certificate.attributes.len(),
                all == certificate@.attributes,
                roles@ == attribute_roles(all.take(i as int), attribute@),
            decreases certificate.attributes.len() - i,
        {
            assert(all.take(i + 1).drop_last() =~= all.take(i as int));
            assert(all[i as int] == (
                certificate.attributes@[i as int].0@,
                opt(certificate.attributes@[i as int].1),
            ));
            let name = certificate.attributes[i].0.as_str();
            let matches = eq_ignore_ascii_case(name, attribute)
                || Self::matches_admin_subject_attribute_alias(name, attribute);
            if matches {
                if let Some(value) = &certificate.attributes[i].1 {
                    if let Some(role) = Self::parse_admin_role(value.as_str()) {
                        roles.push(role);
                    }
                }
            }
            i = i + 1;
        }
        assert(all.take(i as int) =~= all);
        roles
    }

    /// The identity that a parsed certificate gives.
    pub fn admin_mtls_identity(
        certificate: &Certificate,
        identity_source: Option<&ControlApiIdentitySourcePolicy>,
    ) -> (r: AdminMtlsIdentity)
        ensures
            r@ == certificate_identity(certificate@, role_attribute(identity_source)),
    {
        let common_name = first_common_name(&certificate.common_names);
        let san_dns = collect_names(&certificate.alternative_names, true);
        let san_uri = collect_names(&certificate.alternative_names, false);
        let roles: Vec<AdminRole> = match identity_source {
            Some(source) => match &source.role_attribute {
                Some(attribute) => Self::extract_admin_roles_from_subject_attribute(
                    certificate,
                    attribute.as_str(),
                ),
                None => Vec::new(),
            },
            None => Vec::new(),
        };
        let r = AdminMtlsIdentity {
            subject: Some(certificate.subject.clone()),
            common_name,
            san_dns,
            san_uri,
            roles,
        };
        assert(r@.roles =~= certificate_identity(
            certificate@,
            role_attribute(identity_source),
        ).roles);
        r
    }

    pub fn parse_admin_mtls_identity(
        cert_der: &[u8],
        identity_source: Option<&ControlApiIdentitySourcePolicy>,
    ) -> (r: Option<AdminMtlsIdentity>)
        ensures
            opt_mtls(r) == match certificate_of(cert_der@) {
                Some(certificate) => Some(
                    certificate_identity(certificate, role_attribute(identity_source)),
                ),
                None => None,
            },
    {
        match parse_certificate(cert_der) {
            Some(certificate) => Some(Self::admin_mtls_identity(&certificate, identity_source)),
            None => None,
        }
    }

    pub fn actor_id_from_mtls_identity(
        mtls: &AdminMtlsIdentity,
        identity_source: Option<&ControlApiIdentitySourcePolicy>,
    ) -> (r: Option<String>)
        ensures
            opt(r) == mtls_actor(mtls@, source_kind(identity_source)),
    {
        if let Some(source) = identity_source {
            let kind = to_ascii_lowercase(trim(source.kind.as_str()));
            if same_text(kind.as_str(), "mtls_subject_cn") {
                return mtls.common_name.clone();
            }
            if same_text(kind.as_str(), "mtls_san_dns") {
                return first_of_list(&mtls.san_dns);
            }
            if same_text(kind.as_str(), "mtls_san_uri") {
                return first_of_list(&mtls.san_uri);
            }
            if same_text(kind.as_str(), "mtls_subject") {
                return mtls.subject.clone();
            }
        }
        if mtls.common_name.is_some() {
            mtls.common_name.clone()
        } else {
            mtls.subject.clone()
        }
    }

    pub fn build_admin_identity(
        request_ctx: Option<&ControlApiRequestContext>,
        token_match: Option<AdminTokenMatch>,
        identity_source: Option<&ControlApiIdentitySourcePolicy>,
    ) -> (r: Option<AdminIdentity>)
        ensures
            (match r {
                Some(identity) => Some(identity@),
                None => None,
            }) == identity_of(
                opt_context(request_ctx),
                opt_token(token_match),
                source_kind(identity_source),
            ),
    {
        let ghost token_view = opt_token(token_match);
        let mtls_identity: Option<&AdminMtlsIdentity> = match request_ctx {
            Some(context) => match &context.mtls_identity {
                Some(mtls) => Some(mtls),
                None => None,
            },
            None => None,
        };
        let ghost mtls_view = opt_mtls_ref(mtls_identity);
        if token_match.is_none() && mtls_identity.is_none() {
            return None;
        }
        let mut mechanisms: Vec<AdminAuthnMechanism> = Vec::new();
        let mut token_actor_id: Option<String> = None;
        let mut token_role: Option<AdminRole> = None;
        if let Some(token) = token_match {
            mechanisms.push(AdminAuthnMechanism::BearerToken);
            token_role = Some(token.role);
            token_actor_id = token.actor_id;
        }
        let mut mtls_actor_id: Option<String> = None;
        let mut mtls_subject: Option<String> = None;
        let mut mtls_san: Vec<String> = Vec::new();
        let mut roles: Vec<AdminRole> = Vec::new();
        if let Some(mtls) = mtls_identity {
            mechanisms.push(AdminAuthnMechanism::MutualTls);
            mtls_actor_id = Self::actor_id_from_mtls_identity(mtls, identity_source);
            mtls_subject = mtls.subject.clone();
            mtls_san = joined(&mtls.san_dns, &mtls.san_uri);
            match (token_role, AdminRole::most_privileged(&mtls.roles)) {
                (Some(role), Some(highest)) => {
                    roles.push(AdminRole::least_privileged(role, highest));
                },
                (Some(role), None) => {
                    roles.push(role);
                },
                (None, _) => {
                    roles = sort_roles(&mtls.roles);
                },
            }
        } else if let Some(role) = token_role {
            roles.push(role);
        }
        assert(mechanisms@ =~= mechanisms_of(token_view is Some, mtls_view is Some));
        assert(roles@ =~= effective_roles(token_view, mtls_view));
        assert(texts(mtls_san@) =~= match mtls_view {
            Some(mtls) => mtls.san_dns + mtls.san_uri,
            None => Seq::empty(),
        });
        let actor_id = Self::reconcile_dual_auth_actor_id(
            token_actor_id,
            mtls_actor_id,
            mtls_identity,
        );
        let peer_addr = match request_ctx {
            Some(context) => Some(context.peer_addr.clone()),
            None => None,
        };
        Some(
            AdminIdentity {
                actor_id,
                authn_mechanisms: mechanisms,
                roles,
                peer_addr,
                mtls_subject,
                mtls_san,
            },
        )
    }
}

/// Two lists, one behind the other.
fn joined(first: &Vec<String>, second: &Vec<String>) -> (r: Vec<String>)
    ensures
        r@ == first@ + second@,
{
    let mut r = clone_list(first);
    let mut i: usize = 0;
    assert(first@ + second@.take(0) =~= first@);
    while i < second.len()
        invariant
            i <= second.len(),
            r@ == first@ + second@.take(i as int),
        decreases second.len() - i,
    {
        r.push(second[i].clone());
        i = i + 1;
        assert(first@ + second@.take(i as int) =~= (first@ + second@.take(i - 1)).push(
            second@[i - 1],
        ));
    }
    assert(second@.take(i as int) =~= second@);
    r
}

fn first_common_name(names: &Vec<Option<String>>) -> (r: Option<String>)
    ensures
        opt(r) == first_text(opt_texts(names@)),
{
    let ghost all = opt_texts(names@);
    let mut i: usize = 0;
    assert(all.skip(0) =~= all);
    while i < names.len()
        invariant
            i <= names.len(),
            all == opt_texts(names@),
            first_text(all) == first_text(all.skip(i as int)),
        decreases names.len() - i,
    {
        assert(all.skip(i as int)[0] == opt(names@[i as int]));
        if names[i].is_some() {
            return names[i].clone();
        }
        assert(all.skip(i as int).drop_first() =~= all.skip(i + 1));
        i = i + 1;
    }
    None
}

fn collect_names(names: &Vec<AlternativeName>, dns: bool) -> (r: Vec<String>)
    ensures
        texts(r@) == if dns {
            dns_names(name_views(names@))
        } else {
            uri_names(name_views(names@))
        },
{
    let ghost all = name_views(names@);
    let mut r: Vec<String> = Vec::new();
    let mut i: usize = 0;
    assert(texts(r@) =~= Seq::<Seq<char>>::empty());
    while i < names.len()
        invariant
            i <= names.len(),
            all == name_views(names@),
            texts(r@) == if dns {
                dns_names(all.take(i as int))
            } else {
                uri_names(all.take(i as int))
            },
        decreases names.len() - i,
    {
        assert(all.take(i + 1).drop_last() =~= all.take(i as int));
        assert(all[i as int] == names@[i as int]@);
        let ghost before = r@;
        match &names[i] {
            AlternativeName::Dns(name) => {
                if dns {
                    r.push(name.clone());
                    assert(texts(r@) =~= texts(before).push(name@));
                }
            },
            AlternativeName::Uri(name) => {
                if !dns {
                    r.push(name.clone());
                    assert(texts(r@) =~= texts(before).push(name@));
                }
            },
            AlternativeName::Other => {},
        }
        i = i + 1;
    }
    assert(all.take(i as int) =~= all);
    r
}

} // verus!
