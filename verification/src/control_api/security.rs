//! Where requests may come from, and how the interface's access is configured.
use crate::control_api::identity::{AdminRole, ControlApiIdentitySourcePolicy};
use crate::text::{
    find_char, is_char, opt, owned, parse_u64, span, to_chars, trim, trimmed, unsigned_value,
};
use vstd::prelude::*;

verus! {

/// An internet address, by its number.
#[derive(Debug, Clone, Copy, PartialEq, Eq, Structural)]
pub enum IpAddress {
    V4(u32),
    V6(u128),
}

/// The addresses whose first `prefix_len` bits are those of `network`.
#[allow(inconsistent_fields)]
#[derive(Debug, Clone, Copy, PartialEq, Eq, Structural)]
pub enum ControlApiIpNetwork {
    V4 { network: u32, prefix_len: u8 },
    V6 { network: u128, prefix_len: u8 },
}

/// The first `prefix_len` bits of an address.
pub open spec fn leading_bits_v4(address: u32, prefix_len: u8) -> u32 {
    if prefix_len == 0 {
        0
    } else {
        address >> ((32 - prefix_len) as u32)
    }
}

/// The first `prefix_len` bits of an address.
pub open spec fn leading_bits_v6(address: u128, prefix_len: u8) -> u128 {
    if prefix_len == 0 {
        0
    } else {
        address >> ((128 - prefix_len) as u128)
    }
}

/// The address with all but its first `prefix_len` bits cleared.
pub open spec fn masked_v4(address: u32, prefix_len: u8) -> u32 {
    if prefix_len == 0 {
        0
    } else {
        address & (0xffff_ffffu32 << ((32 - prefix_len) as u32))
    }
}

/// The address with all but its first `prefix_len` bits cleared.
pub open spec fn masked_v6(address: u128, prefix_len: u8) -> u128 {
    if prefix_len == 0 {
        0
    } else {
        address & (0xffff_ffff_ffff_ffff_ffff_ffff_ffff_ffffu128 << ((128 - prefix_len) as u128))
    }
}

fn mask_v4(address: u32, prefix_len: u8) -> (r: u32)
    requires
        prefix_len <= 32,
    ensures
        r == masked_v4(address, prefix_len),
{
    if prefix_len == 0 {
        return 0;
    }
    let shift: u32 = 32 - prefix_len as u32;
    address & (0xffff_ffffu32 << shift)
}

fn mask_v6(address: u128, prefix_len: u8) -> (r: u128)
    requires
        prefix_len <= 128,
    ensures
        r == masked_v6(address, prefix_len),
{
    if prefix_len == 0 {
        return 0;
    }
    let shift: u128 = 128 - prefix_len as u128;
    address & (0xffff_ffff_ffff_ffff_ffff_ffff_ffff_ffffu128 << shift)
}

/// Two addresses agree after masking exactly where their first bits agree.
proof fn lemma_masked_v4(a: u32, b: u32, prefix_len: u8)
    requires
        prefix_len <= 32,
    ensures
        (masked_v4(a, prefix_len) == masked_v4(b, prefix_len)) == (leading_bits_v4(a, prefix_len)
            == leading_bits_v4(b, prefix_len)),
        masked_v4(masked_v4(a, prefix_len), prefix_len) == masked_v4(a, prefix_len),
{
    if prefix_len > 0 {
        let shift = (32 - prefix_len) as u32;
        assert((a & (0xffff_ffffu32 << shift) == b & (0xffff_ffffu32 << shift)) == (a >> shift == b
            >> shift)) by (bit_vector)
            requires
                shift < 32,
        ;
        assert((a & (0xffff_ffffu32 << shift)) & (0xffff_ffffu32 << shift) == a & (0xffff_ffffu32
            << shift)) by (bit_vector);
    }
}

proof fn lemma_masked_v6(a: u128, b: u128, prefix_len: u8)
    requires
        prefix_len <= 128,
    ensures
        (masked_v6(a, prefix_len) == masked_v6(b, prefix_len)) == (leading_bits_v6(a, prefix_len)
            == leading_bits_v6(b, prefix_len)),
        masked_v6(masked_v6(a, prefix_len), prefix_len) == masked_v6(a, prefix_len),
{
    if prefix_len > 0 {
        let shift = (128 - prefix_len) as u128;
        lemma_mask_and_shift(a, shift);
        lemma_mask_and_shift(b, shift);
        lemma_mask_and_shift(masked_v6(a, prefix_len), shift);
    }
}

/// To clear the last bits is to shift them out and zeros in.
proof fn lemma_mask_and_shift(a: u128, shift: u128)
    requires
        shift < 128,
    ensures
        a & (0xffff_ffff_ffff_ffff_ffff_ffff_ffff_ffffu128 << shift) == (a >> shift) << shift,
        (a & (0xffff_ffff_ffff_ffff_ffff_ffff_ffff_ffffu128 << shift)) >> shift == a >> shift,
{
    assert(a & (0xffff_ffff_ffff_ffff_ffff_ffff_ffff_ffffu128 << shift) == (a >> shift) << shift)
        by (bit_vector)
        requires
            shift < 128,
    ;
    assert((a & (0xffff_ffff_ffff_ffff_ffff_ffff_ffff_ffffu128 << shift)) >> shift == a >> shift)
        by (bit_vector)
        requires
            shift < 128,
    ;
}

/// The address part and the prefix length of a network in CIDR notation, where the prefix length
/// is a number that eight bits hold.
pub open spec fn cidr_parts(cidr: Seq<char>) -> Option<(Seq<char>, u8)> {
    let text = trimmed(cidr);
    let n = span(text, is_char('/')) as int;
    if n >= text.len() {
        None
    } else {
        match unsigned_value(trimmed(text.skip(n + 1))) {
            Some(prefix) if prefix <= 255 => Some((trimmed(text.take(n)), prefix as u8)),
            _ => None,
        }
    }
}

/// The network that a CIDR's parts stand for: the prefix must fit the address's family.
pub open spec fn network_of(address: IpAddress, prefix_len: u8) -> Option<ControlApiIpNetwork> {
    match address {
        IpAddress::V4(raw) => if prefix_len <= 32 {
            Some(ControlApiIpNetwork::V4 { network: masked_v4(raw, prefix_len), prefix_len })
        } else {
            None
        },
        IpAddress::V6(raw) => if prefix_len <= 128 {
            Some(ControlApiIpNetwork::V6 { network: masked_v6(raw, prefix_len), prefix_len })
        } else {
            None
        },
    }
}

/// A network in CIDR notation, and the address that its address part spells, where it spells one.
#[derive(Debug)]
pub struct ConfiguredCidr {
    pub cidr: String,
    pub address: Option<IpAddress>,
}

/// The network that a configured one stands for.
pub open spec fn configured_network(cidr: ConfiguredCidr) -> Option<ControlApiIpNetwork> {
    match (cidr_parts(cidr.cidr@), cidr.address) {
        (Some((_, prefix_len)), Some(address)) => network_of(address, prefix_len),
        _ => None,
    }
}

impl ControlApiIpNetwork {
    /// The prefix fits the family, and no bit behind it is set.
    pub open spec fn wf(self) -> bool {
        match self {
            ControlApiIpNetwork::V4 { network, prefix_len } => prefix_len <= 32 && network
                == masked_v4(network, prefix_len),
            ControlApiIpNetwork::V6 { network, prefix_len } => prefix_len <= 128 && network
                == masked_v6(network, prefix_len),
        }
    }

    /// The address is in the network: it is of its family and begins with its bits.
    pub open spec fn covers(self, ip: IpAddress) -> bool {
        match (self, ip) {
            (ControlApiIpNetwork::V4 { network, prefix_len }, IpAddress::V4(raw)) => {
                leading_bits_v4(raw, prefix_len) == leading_bits_v4(network, prefix_len)
            },
            (ControlApiIpNetwork::V6 { network, prefix_len }, IpAddress::V6(raw)) => {
                leading_bits_v6(raw, prefix_len) == leading_bits_v6(network, prefix_len)
            },
            _ => false,
        }
    }

    /// The address part of a network in CIDR notation, for the address reader.
    pub fn address_text(cidr: &str) -> (r: Option<String>)
        ensures
            opt(r) == match cidr_parts(cidr@) {
                Some((address, _)) => Some(address),
                None => None,
            },
    {
        match split_cidr(cidr) {
            Some((address, _)) => Some(owned(address)),
            None => None,
        }
    }

    /// Reads a network in CIDR notation, given what its address part spells.
    pub fn parse(cidr: &str, address: Option<IpAddress>) -> (r: Option<Self>)
        ensures
            r == match (cidr_parts(cidr@), address) {
                (Some((_, prefix_len)), Some(address)) => network_of(address, prefix_len),
                _ => None,
            },
            r matches Some(network) ==> network.wf(),
    {
        let prefix_len: u8 = match split_cidr(cidr) {
            Some((_, prefix_len)) => prefix_len,
            None => {
                return None;
            },
        };
        match address {
            Some(IpAddress::V4(raw)) if prefix_len <= 32 => {
                proof {
                    lemma_masked_v4(raw, raw, prefix_len);
                }
                Some(ControlApiIpNetwork::V4 { network: mask_v4(raw, prefix_len), prefix_len })
            },
            Some(IpAddress::V6(raw)) if prefix_len <= 128 => {
                proof {
                    lemma_masked_v6(raw, raw, prefix_len);
                }
                Some(ControlApiIpNetwork::V6 { network: mask_v6(raw, prefix_len), prefix_len })
            },
            _ => None,
        }
    }

    pub fn contains(&self, ip: IpAddress) -> (r: bool)
        requires
            self.wf(),
        ensures
            r == self.covers(ip),
    {
        match (self, ip) {
            (ControlApiIpNetwork::V4 { network, prefix_len }, IpAddress::V4(raw)) => {
                proof {
                    lemma_masked_v4(raw, *network, *prefix_len);
                }
                mask_v4(raw, *prefix_len) == *network
            },
            (ControlApiIpNetwork::V6 { network, prefix_len }, IpAddress::V6(raw)) => {
                proof {
                    lemma_masked_v6(raw, *network, *prefix_len);
                }
                mask_v6(raw, *prefix_len) == *network
            },
            _ => false,
        }
    }
}

/// The two parts of a network in CIDR notation.
fn split_cidr(cidr: &str) -> (r: Option<(&str, u8)>)
    ensures
        (match r {
            Some((address, prefix_len)) => Some((address@, prefix_len)),
            None => None,
        }) == cidr_parts(cidr@),
{
    let text = trim(cidr);
    let chars = to_chars(text);
    let slash: usize = find_char(&chars, 0, '/');
    assert(chars@.skip(0) =~= chars@);
    if slash == chars.len() {
        return None;
    }
    let address = text.substring_char(0, slash);
    let prefix = text.substring_char(slash + 1, chars.len());
    assert(address@ =~= text@.take(slash as int));
    assert(prefix@ =~= text@.skip(slash + 1));
    match parse_u64(trim(prefix)) {
        Some(value) if value <= 255 => Some((trim(address), value as u8)),
        _ => None,
    }
}

/// A network covers exactly the addresses that share its bits: the one it was made from is among
/// them, and a prefix of no bits covers the whole family.
pub proof fn law_network_covers_its_address(address: IpAddress, prefix_len: u8, other: IpAddress)
    requires
        network_of(address, prefix_len) is Some,
    ensures
        network_of(address, prefix_len)->0.wf(),
        network_of(address, prefix_len)->0.covers(address),
        network_of(address, prefix_len)->0.covers(other) == match (address, other) {
            (IpAddress::V4(a), IpAddress::V4(b)) => leading_bits_v4(a, prefix_len)
                == leading_bits_v4(b, prefix_len),
            (IpAddress::V6(a), IpAddress::V6(b)) => leading_bits_v6(a, prefix_len)
                == leading_bits_v6(b, prefix_len),
            _ => false,
        },
        prefix_len == 0 && ((address is V4) == (other is V4)) ==> network_of(
            address,
            prefix_len,
        )->0.covers(other),
{
    match address {
        IpAddress::V4(raw) => {
            lemma_masked_v4(raw, masked_v4(raw, prefix_len), prefix_len);
        },
        IpAddress::V6(raw) => {
            lemma_masked_v6(raw, masked_v6(raw, prefix_len), prefix_len);
        },
    }
}

/// Whether clients must show a certificate.
#[derive(Debug, Clone, Copy, PartialEq, Eq, Structural)]
pub enum ControlApiClientAuthMode {
    Disabled,
    Optional,
    Required,
}

/// The authorities that client certificates are checked against.
#[derive(Debug)]
pub struct ControlApiClientCaMaterial {
    pub ca_file: Option<String>,
    pub ca_dir: Option<String>,
}

#[derive(Debug)]
pub enum ControlApiClientVerifierState {
    Disabled,
    Configured(ControlApiClientCaMaterial),
}

#[derive(Debug)]
pub struct ControlApiClientAuthPolicy {
    pub mode: ControlApiClientAuthMode,
    pub verifier: ControlApiClientVerifierState,
}

/// Where a bearer token is configured.
#[derive(Debug, Clone, Copy, PartialEq, Eq, Structural)]
pub enum ControlApiBearerTokenSource {
    LegacyAuthToken,
    StaticTokenList,
}

#[derive(Debug)]
pub struct ControlApiBearerTokenEntry {
    pub token: String,
    pub role: AdminRole,
    pub actor_id: Option<String>,
    pub source: ControlApiBearerTokenSource,
}

pub struct TokenEntryView {
    pub token: Seq<char>,
    pub role: AdminRole,
    pub actor_id: Option<Seq<char>>,
    pub source: ControlApiBearerTokenSource,
}

impl View for ControlApiBearerTokenEntry {
    type V = TokenEntryView;

    open spec fn view(&self) -> TokenEntryView {
        TokenEntryView {
            token: self.token@,
            role: self.role,
            actor_id: opt(self.actor_id),
            source: self.source,
        }
    }
}

/// What some entries hold.
pub open spec fn entry_views(entries: Seq<ControlApiBearerTokenEntry>) -> Seq<TokenEntryView> {
    entries.map_values(|entry: ControlApiBearerTokenEntry| entry@)
}

/// The roles that the interface's parts ask for.
#[derive(Debug, Clone, Copy, PartialEq, Eq, Structural)]
pub struct ControlApiAuthorizationPolicy {
    pub protect_health: bool,
    pub protect_ready: bool,
    pub runtime_read_role: AdminRole,
    pub runtime_mutate_role: AdminRole,
    pub restart_role: AdminRole,
}

/// The networks that requests may come from; any, where none is given.
#[derive(Debug)]
pub struct ControlApiIpAllowlistMatcher {
    pub cidrs: Vec<ControlApiIpNetwork>,
}

impl ControlApiIpAllowlistMatcher {
    pub open spec fn wf(self) -> bool {
        forall|i: int| 0 <= i < self.cidrs@.len() ==> (#[trigger] self.cidrs@[i]).wf()
    }

    /// One of the networks covers the address.
    pub open spec fn covers(self, ip: IpAddress) -> bool {
        exists|i: int| 0 <= i < self.cidrs@.len() && (#[trigger] self.cidrs@[i]).covers(ip)
    }

    pub fn contains(&self, ip: IpAddress) -> (r: bool)
        requires
            self.wf(),
        ensures
            r == self.covers(ip),
    {
        let mut i: usize = 0;
        while i < self.cidrs.len()
            invariant
                i <= self.cidrs.len(),
                self.wf(),
                forall|k: int| 0 <= k < i ==> !(#[trigger] self.cidrs@[k]).covers(ip),
            decreases self.cidrs.len() - i,
        {
            assert(self.cidrs@[i as int].wf());
            if self.cidrs[i].contains(ip) {
                return true;
            }
            i = i + 1;
        }
        false
    }
}

#[derive(Debug)]
pub struct ControlApiIpAllowlistPolicy {
    pub trust_proxy_headers: bool,
    pub matcher: Option<ControlApiIpAllowlistMatcher>,
}

/// The networks that some configured ones stand for, those that stand for none left out.
pub open spec fn configured_networks(cidrs: Seq<ConfiguredCidr>) -> Seq<ControlApiIpNetwork>
    decreases cidrs.len(),
{
    if cidrs.len() == 0 {
        Seq::empty()
    } else {
        let sofar = configured_networks(cidrs.drop_last());
        match configured_network(cidrs.last()) {
            Some(network) => sofar.push(network),
            None => sofar,
        }
    }
}

impl ControlApiIpAllowlistPolicy {
    pub open spec fn wf(self) -> bool {
        match self.matcher {
            Some(matcher) => matcher.wf(),
            None => true,
        }
    }

    /// The address may send requests.
    pub open spec fn admits(self, ip: IpAddress) -> bool {
        match self.matcher {
            Some(matcher) => matcher.covers(ip),
            None => true,
        }
    }

    /// The policy that a configuration gives: where no network can be read, every address is
    /// admitted.
    pub fn from_config(config: &ControlApiIpAllowlistConfig) -> (r: Self)
        ensures
            r.wf(),
            r.trust_proxy_headers == config.trust_proxy_headers,
            match r.matcher {
                Some(matcher) => matcher.cidrs@ == configured_networks(config.cidrs@)
                    && matcher.cidrs@.len() > 0,
                None => configured_networks(config.cidrs@).len() == 0,
            },
    {
        let mut cidrs: Vec<ControlApiIpNetwork> = Vec::new();
        let mut i: usize = 0;
        while i < config.cidrs.len()
            invariant
                i <= config.cidrs.len(),
                cidrs@ == configured_networks(config.cidrs@.take(i as int)),
                forall|k: int| 0 <= k < cidrs@.len() ==> (#[trigger] cidrs@[k]).wf(),
            decreases config.cidrs.len() - i,
        {
            assert(config.cidrs@.take(i + 1).drop_last() =~= config.cidrs@.take(i as int));
            if let Some(network) = ControlApiIpNetwork::parse(
                config.cidrs[i].cidr.as_str(),
                config.cidrs[i].address,
            ) {
                cidrs.push(network);
            }
            i = i + 1;
        }
        assert(config.cidrs@.take(i as int) =~= config.cidrs@);
        let matcher = if cidrs.len() == 0 {
            None
        } else {
            Some(ControlApiIpAllowlistMatcher { cidrs })
        };
        ControlApiIpAllowlistPolicy { trust_proxy_headers: config.trust_proxy_headers, matcher }
    }

    pub fn allows(&self, ip: IpAddress) -> (r: bool)
        requires
            self.wf(),
        ensures
            r == self.admits(ip),
    {
        match &self.matcher {
            Some(matcher) => matcher.contains(ip),
            None => true,
        }
    }
}

/// Where audit records go.
#[derive(Debug)]
pub enum ControlApiAdminAuditTarget {
    Log,
    File(Option<String>),
}

/// Whether operations are recorded, and where.
#[derive(Debug)]
pub struct ControlApiAuditPolicy {
    pub enabled: bool,
    pub sink: ControlApiAdminAuditTarget,
}

/// Who may use the interface, from where, and for what.
#[derive(Debug)]
pub struct ControlApiSecurityPolicy {
    pub client_auth: ControlApiClientAuthPolicy,
    pub bearer_tokens: Vec<ControlApiBearerTokenEntry>,
    pub identity_source: Option<ControlApiIdentitySourcePolicy>,
    pub authorization: ControlApiAuthorizationPolicy,
    pub ip_allowlist: ControlApiIpAllowlistPolicy,
    pub audit: ControlApiAuditPolicy,
}

/// The decision on where a request comes from.
#[derive(Debug, Clone, Copy)]
pub enum ControlApiSourcePolicyDecision {
    Allow,
    Deny { reason: &'static str },
}

impl ControlApiSecurityPolicy {
    pub open spec fn wf(self) -> bool {
        self.ip_allowlist.wf()
    }

    pub fn has_source_policy(&self) -> (r: bool)
        ensures
            r == (self.ip_allowlist.matcher is Some),
    {
        self.ip_allowlist.matcher.is_some()
    }

    pub fn evaluate_source_policy(&self, source_ip: IpAddress) -> (r:
        ControlApiSourcePolicyDecision)
        requires
            self.wf(),
        ensures
            match r {
                ControlApiSourcePolicyDecision::Allow => self.ip_allowlist.admits(source_ip),
                ControlApiSourcePolicyDecision::Deny { reason } => !self.ip_allowlist.admits(
                    source_ip,
                ) && reason@ == "source_ip_not_allowed"@,
            },
    {
        if !self.ip_allowlist.allows(source_ip) {
            return ControlApiSourcePolicyDecision::Deny { reason: "source_ip_not_allowed" };
        }
        ControlApiSourcePolicyDecision::Allow
    }
}

#[derive(Debug)]
pub struct ControlApiIpAllowlistConfig {
    pub cidrs: Vec<ConfiguredCidr>,
    pub trust_proxy_headers: bool,
}

#[derive(Debug)]
pub struct ControlApiBearerToken {
    pub token: String,
    pub role: AdminRole,
    pub actor_id: Option<String>,
}

#[derive(Debug)]
pub struct ControlApiIdentitySource {
    pub kind: String,
    pub role_attribute: Option<String>,
}

#[derive(Debug)]
pub struct ControlApiAuthConfig {
    pub bearer_tokens: Vec<ControlApiBearerToken>,
    pub identity_source: Option<ControlApiIdentitySource>,
}

#[derive(Debug)]
pub struct ControlApiClientAuthConfig {
    pub mode: ControlApiClientAuthMode,
    pub ca_file: Option<String>,
    pub ca_dir: Option<String>,
}

#[derive(Debug, Clone, Copy, PartialEq, Eq, Structural)]
pub enum ControlApiAuditSink {
    Log,
    File,
}

#[derive(Debug)]
pub struct ControlApiAuditConfig {
    pub enabled: bool,
    pub sink: ControlApiAuditSink,
    pub file_path: Option<String>,
}

/// The interface's configuration, as far as access is concerned.
#[derive(Debug)]
pub struct ControlApiConfig {
    pub auth_token: Option<String>,
    pub auth: ControlApiAuthConfig,
    pub authorization: ControlApiAuthorizationPolicy,
    pub ip_allowlist: ControlApiIpAllowlistConfig,
    pub client_auth: ControlApiClientAuthConfig,
    pub audit: ControlApiAuditConfig,
}

/// The entry of a configured token.
pub open spec fn static_entry(token: ControlApiBearerToken) -> TokenEntryView {
    TokenEntryView {
        token: token.token@,
        role: token.role,
        actor_id: opt(token.actor_id),
        source: ControlApiBearerTokenSource::StaticTokenList,
    }
}

/// The entries of a configuration: the legacy token first, with every right, then the others.
pub open spec fn configured_tokens(
    auth_token: Option<String>,
    tokens: Seq<ControlApiBearerToken>,
) -> Seq<TokenEntryView> {
    let legacy = match auth_token {
        Some(token) => seq![
            TokenEntryView {
                token: token@,
                role: AdminRole::Admin,
                actor_id: Some("legacy_auth_token"@),
                source: ControlApiBearerTokenSource::LegacyAuthToken,
            },
        ],
        None => seq![],
    };
    legacy + tokens.map_values(|token: ControlApiBearerToken| static_entry(token))
}

pub fn runtime_bearer_token_from_config(token: &ControlApiBearerToken) -> (r:
    ControlApiBearerTokenEntry)
    ensures
        r@ == static_entry(*token),
{
    ControlApiBearerTokenEntry {
        token: token.token.clone(),
        role: token.role,
        actor_id: token.actor_id.clone(),
        source: ControlApiBearerTokenSource::StaticTokenList,
    }
}

pub fn runtime_bearer_tokens(config: &ControlApiConfig) -> (r: Vec<ControlApiBearerTokenEntry>)
    ensures
        entry_views(r@) == configured_tokens(config.auth_token, config.auth.bearer_tokens@),
{
    let mut tokens: Vec<ControlApiBearerTokenEntry> = Vec::new();
    if let Some(token) = &config.auth_token {
        tokens.push(
            ControlApiBearerTokenEntry {
                token: token.clone(),
                role: AdminRole::Admin,
                actor_id: Some(owned("legacy_auth_token")),
                source: ControlApiBearerTokenSource::LegacyAuthToken,
            },
        );
    }
    let ghost list = config.auth.bearer_tokens@;
    let mut i: usize = 0;
    assert(entry_views(tokens@) =~= configured_tokens(config.auth_token, list.take(0)));
    while i < config.auth.bearer_tokens.len()
        invariant
            i <= config.auth.bearer_tokens.len(),
            list == config.auth.bearer_tokens@,
            entry_views(tokens@) == configured_tokens(config.auth_token, list.take(i as int)),
        decreases config.auth.bearer_tokens.len() - i,
    {
        let ghost before = tokens@;
        let entry = runtime_bearer_token_from_config(&config.auth.bearer_tokens[i]);
        tokens.push(entry);
        i = i + 1;
        assert(entry_views(tokens@) =~= entry_views(before).push(entry@));
        assert(configured_tokens(config.auth_token, list.take(i as int)) =~= configured_tokens(
            config.auth_token,
            list.take(i - 1),
        ).push(static_entry(list[i - 1])));
    }
    assert(list.take(i as int) =~= list);
    tokens
}

impl ControlApiClientAuthPolicy {
    pub fn from_config(config: &ControlApiClientAuthConfig) -> (r: Self)
        ensures
            r.mode == config.mode,
            match r.verifier {
                ControlApiClientVerifierState::Disabled => config.mode
                    == ControlApiClientAuthMode::Disabled,
                ControlApiClientVerifierState::Configured(material) => config.mode
                    != ControlApiClientAuthMode::Disabled && opt(material.ca_file) == opt(
                    config.ca_file,
                ) && opt(material.ca_dir) == opt(config.ca_dir),
            },
    {
        let verifier = match config.mode {
            ControlApiClientAuthMode::Disabled => ControlApiClientVerifierState::Disabled,
            _ => ControlApiClientVerifierState::Configured(
                ControlApiClientCaMaterial {
                    ca_file: config.ca_file.clone(),
                    ca_dir: config.ca_dir.clone(),
                },
            ),
        };
        ControlApiClientAuthPolicy { mode: config.mode, verifier }
    }
}

impl ControlApiAuditPolicy {
    pub fn from_config(config: &ControlApiAuditConfig) -> (r: Self)
        ensures
            r.enabled == config.enabled,
            match (r.sink, config.sink) {
                (ControlApiAdminAuditTarget::Log, ControlApiAuditSink::Log) => true,
                (ControlApiAdminAuditTarget::File(path), ControlApiAuditSink::File) => opt(path)
                    == opt(config.file_path),
                _ => false,
            },
    {
        let sink = match config.sink {
            ControlApiAuditSink::Log => ControlApiAdminAuditTarget::Log,
            ControlApiAuditSink::File => ControlApiAdminAuditTarget::File(config.file_path.clone()),
        };
        ControlApiAuditPolicy { enabled: config.enabled, sink }
    }
}

impl ControlApiSecurityPolicy {
    pub fn from_config(config: &ControlApiConfig) -> (r: Self)
        ensures
            r.wf(),
            r.client_auth.mode == config.client_auth.mode,
            match r.client_auth.verifier {
                ControlApiClientVerifierState::Disabled => config.client_auth.mode
                    == ControlApiClientAuthMode::Disabled,
                ControlApiClientVerifierState::Configured(material) => config.client_auth.mode
                    != ControlApiClientAuthMode::Disabled && opt(material.ca_file) == opt(
                    config.client_auth.ca_file,
                ) && opt(material.ca_dir) == opt(config.client_auth.ca_dir),
            },
            entry_views(r.bearer_tokens@) == configured_tokens(
                config.auth_token,
                config.auth.bearer_tokens@,
            ),
            match (r.identity_source, config.auth.identity_source) {
                (Some(policy), Some(source)) => policy.kind@ == source.kind@ && opt(
                    policy.role_attribute,
                ) == opt(source.role_attribute),
                (None, None) => true,
                _ => false,
            },
            r.authorization == config.authorization,
            r.ip_allowlist.trust_proxy_headers == config.ip_allowlist.trust_proxy_headers,
            match r.ip_allowlist.matcher {
                Some(matcher) => matcher.cidrs@ == configured_networks(config.ip_allowlist.cidrs@)
                    && matcher.cidrs@.len() > 0,
                None => configured_networks(config.ip_allowlist.cidrs@).len() == 0,
            },
            r.audit.enabled == config.audit.enabled,
            match (r.audit.sink, config.audit.sink) {
                (ControlApiAdminAuditTarget::Log, ControlApiAuditSink::Log) => true,
                (ControlApiAdminAuditTarget::File(path), ControlApiAuditSink::File) => opt(path)
                    == opt(config.audit.file_path),
                _ => false,
            },
    {
        let identity_source = match &config.auth.identity_source {
            Some(source) => Some(
                ControlApiIdentitySourcePolicy {
                    kind: source.kind.clone(),
                    role_attribute: source.role_attribute.clone(),
                },
            ),
            None => None,
        };
        ControlApiSecurityPolicy {
            client_auth: ControlApiClientAuthPolicy::from_config(&config.client_auth),
            bearer_tokens: runtime_bearer_tokens(config),
            identity_source,
            authorization: config.authorization,
            ip_allowlist: ControlApiIpAllowlistPolicy::from_config(&config.ip_allowlist),
            audit: ControlApiAuditPolicy::from_config(&config.audit),
        }
    }
}

} // verus!
