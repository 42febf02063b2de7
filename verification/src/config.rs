//! The configuration that admission decisions read.
use vstd::prelude::*;

verus! {

/// A point on the monotonic clock, or a length of time, in nanoseconds.
pub type Nanos = u128;

/// One second.
pub const SECOND: Nanos = 1_000_000_000;

/// The longest length of time: all the seconds that 64 bits count, and a second less a nanosecond.
pub const LONGEST: Nanos = 18_446_744_073_709_551_615_999_999_999;

/// A point on the wall clock, by the whole seconds since the Unix epoch.
#[derive(Debug, Clone, Copy, PartialEq, Eq, Structural)]
pub enum WallTime {
    BeforeEpoch,
    SinceEpoch { secs: u64 },
}

#[derive(Debug, Clone, Copy, PartialEq, Eq, Structural)]
pub enum JwtAlgorithm {
    Hs256,
    Rs256,
    Es256,
}

#[derive(Debug, Clone, Copy, PartialEq, Eq, Structural)]
pub enum JwksStartupBehavior {
    RequireReady,
    AllowDegraded,
}

#[derive(Debug, Clone, Copy, PartialEq, Eq, Structural)]
pub enum PublicKeyKind {
    Rsa,
    RsaPss,
    Ec,
    Other,
}

/// An RSA public key: the length of its modulus in bits, where the key gives access to it.
#[derive(Debug, Clone, Copy, PartialEq, Eq, Structural)]
pub struct RsaFacts {
    pub bits: Option<u32>,
}

/// An elliptic-curve public key: whether its point passes the consistency check, and whether its
/// curve is P-256.
#[derive(Debug, Clone, Copy, PartialEq, Eq, Structural)]
pub struct EcFacts {
    pub valid: bool,
    pub p256: bool,
}

/// A public key of any kind.
#[derive(Debug, Clone, Copy, PartialEq, Eq, Structural)]
pub struct PublicKeyFacts {
    pub kind: PublicKeyKind,
    pub rsa: RsaFacts,
    pub ec: Option<EcFacts>,
}

/// What the key library makes of a PEM text: read as a public key of any kind, read as an RSA key
/// only (in either of its two encodings), read as an elliptic-curve key only.
#[derive(Debug, Clone, Copy, PartialEq, Eq, Structural)]
pub struct PemMaterial {
    pub public_key: Option<PublicKeyFacts>,
    pub rsa: Option<RsaFacts>,
    pub ec: Option<EcFacts>,
}

/// What the key library makes of a modulus and an exponent: a key, and whether the key gives access
/// to its modulus.
#[derive(Debug, Clone, Copy, PartialEq, Eq, Structural)]
pub enum RsaConstruction {
    Rejected,
    Built { readable: bool },
}

/// What the key library makes of elliptic-curve coordinates on P-256.
#[derive(Debug, Clone, Copy, PartialEq, Eq, Structural)]
pub enum EcConstruction {
    CurveUnavailable,
    Rejected,
    Built(EcFacts),
}

/// What the key library makes of a JWK's components: its modulus and exponent, or its coordinates.
#[derive(Debug, Clone, Copy, PartialEq, Eq, Structural)]
pub struct JwkMaterial {
    pub rsa: RsaConstruction,
    pub ec: EcConstruction,
}

/// A configured or fetched verification key.
#[derive(Debug)]
pub enum RuntimeJwtVerificationKey {
    Pem {
        kid: Option<String>,
        alg: Option<JwtAlgorithm>,
        public_key_pem: String,
        pem_material: PemMaterial,
    },
    Jwk { kid: Option<String>, alg: Option<JwtAlgorithm>, jwk: String, jwk_material: JwkMaterial },
}

impl Clone for RuntimeJwtVerificationKey {
    fn clone(&self) -> (r: Self)
        ensures
            r == *self,
    {
        match self {
            RuntimeJwtVerificationKey::Pem { kid, alg, public_key_pem, pem_material } => {
                RuntimeJwtVerificationKey::Pem {
                    kid: kid.clone(),
                    alg: *alg,
                    public_key_pem: public_key_pem.clone(),
                    pem_material: *pem_material,
                }
            },
            RuntimeJwtVerificationKey::Jwk { kid, alg, jwk, jwk_material } => {
                RuntimeJwtVerificationKey::Jwk {
                    kid: kid.clone(),
                    alg: *alg,
                    jwk: jwk.clone(),
                    jwk_material: *jwk_material,
                }
            },
        }
    }
}

/// How an upstream's bearer tokens are verified.
pub struct RuntimeJwtAuth {
    pub secret: String,
    pub issuer: Option<String>,
    pub issuers: Vec<String>,
    pub audience: Option<String>,
    pub audiences: Vec<String>,
    pub clock_skew: Nanos,
    pub allowed_algorithms: Vec<JwtAlgorithm>,
    pub require_kid: bool,
    pub static_keys: Vec<RuntimeJwtVerificationKey>,
    pub jwks_url: Option<String>,
    pub jwks_refresh_interval: Nanos,
    pub jwks_request_timeout: Nanos,
    pub jwks_cache_ttl: Nanos,
    pub jwks_stale_if_error: Nanos,
    pub jwks_startup_behavior: JwksStartupBehavior,
}

pub struct RuntimeApiKeyAuth {
    pub header_name: String,
    pub keys: Vec<String>,
}

pub struct RuntimeAuthPolicy {
    pub api_key: Option<RuntimeApiKeyAuth>,
    pub jwt: Option<RuntimeJwtAuth>,
    pub required_scopes: Vec<String>,
    pub required_roles: Vec<String>,
}

pub struct RuntimeUpstreamPolicy {
    pub upstream_auth: RuntimeAuthPolicy,
}

pub struct RuntimeUpstream {
    pub name: String,
    pub policy: RuntimeUpstreamPolicy,
}

/// The upstreams of a configuration, in the order in which they are walked.
pub struct RuntimeConfig {
    pub upstreams: Vec<RuntimeUpstream>,
}

} // verus!
