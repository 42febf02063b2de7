//! Secret material, as operators are shown it: where it comes from and when it was loaded, never
//! what it is.
use crate::control_api::render::redaction::{is_present, option_is_present};
use crate::text::{as_deref, opt, owned, same_option};
use vstd::prelude::*;

verus! {

/// A loaded secret.
#[derive(Debug)]
pub struct SecretMetadata {
    pub source_kind: String,
    pub loaded_at_unix_ms: u64,
}

/// How connections to an upstream are secured.
#[derive(Debug)]
pub struct UpstreamTlsPolicy {
    pub name: String,
    pub verify_certificates: bool,
    pub strict_sni: bool,
    pub ca_file: Option<String>,
    pub ca_dir: Option<String>,
    pub client_certificate: Option<SecretMetadata>,
    pub client_key: Option<SecretMetadata>,
    pub client_certificate_not_after_unix_seconds: Option<i64>,
}

/// A provider of secrets that reads files.
#[derive(Debug)]
pub struct SecretProviderConfig {
    pub provider: String,
    pub base_dir: Option<String>,
}

#[derive(Debug)]
pub struct ControlApiSecretMaterialPayload {
    pub scope: String,
    pub source_kind: String,
    pub last_loaded_at_unix_ms: u64,
    pub last_reload_status: &'static str,
    pub expiry_not_after_unix_seconds: Option<i64>,
}

pub struct MaterialView {
    pub scope: Seq<char>,
    pub source_kind: Seq<char>,
    pub last_loaded_at_unix_ms: u64,
    pub last_reload_status: Seq<char>,
    pub expiry_not_after_unix_seconds: Option<i64>,
}

impl View for ControlApiSecretMaterialPayload {
    type V = MaterialView;

    open spec fn view(&self) -> MaterialView {
        MaterialView {
            scope: self.scope@,
            source_kind: self.source_kind@,
            last_loaded_at_unix_ms: self.last_loaded_at_unix_ms,
            last_reload_status: self.last_reload_status@,
            expiry_not_after_unix_seconds: self.expiry_not_after_unix_seconds,
        }
    }
}

/// The view of optional material.
pub open spec fn opt_material(material: Option<ControlApiSecretMaterialPayload>) -> Option<
    MaterialView,
> {
    match material {
        Some(material) => Some(material@),
        None => None,
    }
}

/// What is shown of one secret of an upstream.
pub open spec fn material_view(
    upstream: Seq<char>,
    suffix: Seq<char>,
    metadata: SecretMetadata,
    expiry: Option<i64>,
) -> MaterialView {
    MaterialView {
        scope: "upstream."@ + upstream + suffix,
        source_kind: metadata.source_kind@,
        last_loaded_at_unix_ms: metadata.loaded_at_unix_ms,
        last_reload_status: "loaded"@,
        expiry_not_after_unix_seconds: expiry,
    }
}

/// What is shown of an upstream's client certificate.
pub open spec fn certificate_view(policy: UpstreamTlsPolicy) -> Option<MaterialView> {
    match policy.client_certificate {
        Some(metadata) => Some(
            material_view(
                policy.name@,
                ".tls.client_certificate"@,
                metadata,
                policy.client_certificate_not_after_unix_seconds,
            ),
        ),
        None => None,
    }
}

/// What is shown of an upstream's client key.
pub open spec fn key_view(policy: UpstreamTlsPolicy) -> Option<MaterialView> {
    match policy.client_key {
        Some(metadata) => Some(material_view(policy.name@, ".tls.client_key"@, metadata, None)),
        None => None,
    }
}

fn material(upstream: &str, suffix: &str, metadata: &SecretMetadata, expiry: Option<i64>) -> (r:
    ControlApiSecretMaterialPayload)
    ensures
        r@ == material_view(upstream@, suffix@, *metadata, expiry),
{
    let mut scope = owned("upstream.");
    scope.append(upstream);
    scope.append(suffix);
    ControlApiSecretMaterialPayload {
        scope,
        source_kind: metadata.source_kind.clone(),
        last_loaded_at_unix_ms: metadata.loaded_at_unix_ms,
        last_reload_status: "loaded",
        expiry_not_after_unix_seconds: expiry,
    }
}

fn certificate_material(policy: &UpstreamTlsPolicy) -> (r: Option<ControlApiSecretMaterialPayload>)
    ensures
        opt_material(r) == certificate_view(*policy),
{
    match &policy.client_certificate {
        Some(metadata) => Some(
            material(
                policy.name.as_str(),
                ".tls.client_certificate",
                metadata,
                policy.client_certificate_not_after_unix_seconds,
            ),
        ),
        None => None,
    }
}

fn key_material(policy: &UpstreamTlsPolicy) -> (r: Option<ControlApiSecretMaterialPayload>)
    ensures
        opt_material(r) == key_view(*policy),
{
    match &policy.client_key {
        Some(metadata) => Some(material(policy.name.as_str(), ".tls.client_key", metadata, None)),
        None => None,
    }
}

#[derive(Debug)]
pub struct ControlApiTlsUpstreamPayload {
    pub upstream: String,
    pub verify_certificates: bool,
    pub strict_sni: bool,
    pub custom_ca_file_configured: bool,
    pub custom_ca_dir_configured: bool,
    pub client_certificate: Option<ControlApiSecretMaterialPayload>,
    pub client_key: Option<ControlApiSecretMaterialPayload>,
}

pub open spec fn shows_upstream_tls(
    payload: ControlApiTlsUpstreamPayload,
    policy: UpstreamTlsPolicy,
) -> bool {
    &&& payload.upstream@ == policy.name@
    &&& payload.verify_certificates == policy.verify_certificates
    &&& payload.strict_sni == policy.strict_sni
    &&& payload.custom_ca_file_configured == is_present(opt(policy.ca_file))
    &&& payload.custom_ca_dir_configured == is_present(opt(policy.ca_dir))
    &&& opt_material(payload.client_certificate) == certificate_view(policy)
    &&& opt_material(payload.client_key) == key_view(policy)
}

/// Every upstream is shown, in its order.
pub open spec fn shows_tls_upstreams(
    payloads: Seq<ControlApiTlsUpstreamPayload>,
    policies: Seq<UpstreamTlsPolicy>,
) -> bool {
    payloads.len() == policies.len() && forall|i: int|
        0 <= i < payloads.len() ==> shows_upstream_tls(#[trigger] payloads[i], policies[i])
}

pub fn build_tls_upstreams(policies: &Vec<UpstreamTlsPolicy>) -> (r: Vec<
    ControlApiTlsUpstreamPayload,
>)
    ensures
        shows_tls_upstreams(r@, policies@),
{
    let mut r: Vec<ControlApiTlsUpstreamPayload> = Vec::new();
    let mut i: usize = 0;
    while i < policies.len()
        invariant
            i <= policies.len(),
            r@.len() == i,
            forall|k: int| 0 <= k < i ==> shows_upstream_tls(#[trigger] r@[k], policies@[k]),
        decreases policies.len() - i,
    {
        let policy = &policies[i];
        r.push(
            ControlApiTlsUpstreamPayload {
                upstream: policy.name.clone(),
                verify_certificates: policy.verify_certificates,
                strict_sni: policy.strict_sni,
                custom_ca_file_configured: option_is_present(as_deref(&policy.ca_file)),
                custom_ca_dir_configured: option_is_present(as_deref(&policy.ca_dir)),
                client_certificate: certificate_material(policy),
                client_key: key_material(policy),
            },
        );
        i = i + 1;
    }
    r
}

#[derive(Debug)]
pub struct ControlApiSecretProviderPayload {
    pub provider: String,
    pub kind: &'static str,
    pub base_dir_configured: bool,
    pub default_provider: bool,
}

pub open spec fn shows_provider(
    payload: ControlApiSecretProviderPayload,
    config: SecretProviderConfig,
    default_provider: Option<Seq<char>>,
) -> bool {
    &&& payload.provider@ == config.provider@
    &&& payload.kind@ == "file"@
    &&& payload.base_dir_configured == is_present(opt(config.base_dir))
    &&& payload.default_provider == (default_provider == Some(config.provider@))
}

#[derive(Debug)]
pub struct ControlApiSecretsPayload {
    pub providers: Vec<ControlApiSecretProviderPayload>,
    pub material: Vec<ControlApiSecretMaterialPayload>,
}

/// What some material shows.
pub open spec fn material_views(list: Seq<ControlApiSecretMaterialPayload>) -> Seq<MaterialView> {
    list.map_values(|material: ControlApiSecretMaterialPayload| material@)
}

/// A list, and behind it an item where there is one.
pub open spec fn pushed(list: Seq<MaterialView>, item: Option<MaterialView>) -> Seq<MaterialView> {
    match item {
        Some(item) => list.push(item),
        None => list,
    }
}

/// The secrets of the upstreams, each upstream's certificate before its key.
pub open spec fn all_material(policies: Seq<UpstreamTlsPolicy>) -> Seq<MaterialView>
    decreases policies.len(),
{
    if policies.len() == 0 {
        Seq::empty()
    } else {
        pushed(
            pushed(all_material(policies.drop_last()), certificate_view(policies.last())),
            key_view(policies.last()),
        )
    }
}

fn push_material(
    list: &mut Vec<ControlApiSecretMaterialPayload>,
    item: Option<ControlApiSecretMaterialPayload>,
)
    ensures
        material_views(final(list)@) == pushed(material_views(old(list)@), opt_material(item)),
{
    if let Some(item) = item {
        list.push(item);
        assert(material_views(list@) =~= material_views(old(list)@).push(item@));
    }
}

pub open spec fn shows_secrets(
    payload: ControlApiSecretsPayload,
    providers: Seq<SecretProviderConfig>,
    default_provider: Option<Seq<char>>,
    policies: Seq<UpstreamTlsPolicy>,
) -> bool {
    &&& payload.providers@.len() == providers.len()
    &&& forall|i: int|
        0 <= i < providers.len() ==> shows_provider(
            #[trigger] payload.providers@[i],
            providers[i],
            default_provider,
        )
    &&& material_views(payload.material@) == all_material(policies)
}

pub fn build_secrets_payload(
    providers: &Vec<SecretProviderConfig>,
    default_provider: &Option<String>,
    policies: &Vec<UpstreamTlsPolicy>,
) -> (r: ControlApiSecretsPayload)
    ensures
        shows_secrets(r, providers@, opt(*default_provider), policies@),
{
    let mut shown: Vec<ControlApiSecretProviderPayload> = Vec::new();
    let mut i: usize = 0;
    while i < providers.len()
        invariant
            i <= providers.len(),
            shown@.len() == i,
            forall|k: int|
                0 <= k < i ==> shows_provider(
                    #[trigger] shown@[k],
                    providers@[k],
                    opt(*default_provider),
                ),
        decreases providers.len() - i,
    {
        let config = &providers[i];
        shown.push(
            ControlApiSecretProviderPayload {
                provider: config.provider.clone(),
                kind: "file",
                base_dir_configured: option_is_present(as_deref(&config.base_dir)),
                default_provider: same_option(
                    as_deref(default_provider),
                    Some(config.provider.as_str()),
                ),
            },
        );
        i = i + 1;
    }
    let mut material: Vec<ControlApiSecretMaterialPayload> = Vec::new();
    let mut k: usize = 0;
    assert(material_views(material@) =~= all_material(policies@.take(0)));
    while k < policies.len()
        invariant
            k <= policies.len(),
            material_views(material@) == all_material(policies@.take(k as int)),
        decreases policies.len() - k,
    {
        assert(policies@.take(k + 1).drop_last() =~= policies@.take(k as int));
        push_material(&mut material, certificate_material(&policies[k]));
        push_material(&mut material, key_material(&policies[k]));
        k = k + 1;
    }
    assert(policies@.take(k as int) =~= policies@);
    ControlApiSecretsPayload { providers: shown, material }
}

} // verus!
