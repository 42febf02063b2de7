//! Client certificates, as far as identities are taken from them.
use crate::control_api::certificate::AlternativeName::{Dns, Other, Uri};
use crate::text::opt;
use vstd::prelude::*;
use x509_parser::extensions::GeneralName::{DNSName, URI};
use x509_parser::parse_x509_certificate;
use x509_parser::x509::AttributeTypeAndValue;

verus! {

/// An alternative name of a certificate's subject.
#[derive(Debug)]
pub enum AlternativeName {
    Dns(String),
    Uri(String),
    Other,
}

pub enum NameView {
    Dns(Seq<char>),
    Uri(Seq<char>),
    Other,
}

impl View for AlternativeName {
    type V = NameView;

    open spec fn view(&self) -> NameView {
        match self {
            AlternativeName::Dns(name) => NameView::Dns(name@),
            AlternativeName::Uri(name) => NameView::Uri(name@),
            AlternativeName::Other => NameView::Other,
        }
    }
}

/// A certificate: its subject as text, the subject's common names, alternative names, and
/// attributes, each attribute by its object identifier. A value is absent where it is no text.
#[derive(Debug)]
pub struct Certificate {
    pub subject: String,
    pub common_names: Vec<Option<String>>,
    pub alternative_names: Vec<AlternativeName>,
    pub attributes: Vec<(String, Option<String>)>,
}

pub struct CertificateView {
    pub subject: Seq<char>,
    pub common_names: Seq<Option<Seq<char>>>,
    pub alternative_names: Seq<NameView>,
    pub attributes: Seq<(Seq<char>, Option<Seq<char>>)>,
}

/// The texts of a list of optional strings.
pub open spec fn opt_texts(list: Seq<Option<String>>) -> Seq<Option<Seq<char>>> {
    list.map_values(|value: Option<String>| opt(value))
}

/// What a list of alternative names holds.
pub open spec fn name_views(list: Seq<AlternativeName>) -> Seq<NameView> {
    list.map_values(|name: AlternativeName| name@)
}

/// What a list of attributes holds.
pub open spec fn attribute_views(list: Seq<(String, Option<String>)>) -> Seq<
    (Seq<char>, Option<Seq<char>>),
> {
    list.map_values(|attribute: (String, Option<String>)| (attribute.0@, opt(attribute.1)))
}

impl View for Certificate {
    type V = CertificateView;

    open spec fn view(&self) -> CertificateView {
        CertificateView {
            subject: self.subject@,
            common_names: opt_texts(self.common_names@),
            alternative_names: name_views(self.alternative_names@),
            attributes: attribute_views(self.attributes@),
        }
    }
}

/// The certificate that some bytes encode in DER, where they encode one.
pub uninterp spec fn certificate_of(der: Seq<u8>) -> Option<CertificateView>;

/// `x509_parser::parse_x509_certificate`, with `X509Certificate::subject` (its `Display`,
/// `iter_common_name` and `iter_attributes`) and `subject_alternative_name` read off the result:
/// what they return depends on the bytes alone. Alternative names that cannot be read count as none.
#[verifier::external_body]
pub(crate) fn parse_certificate(der: &[u8]) -> (r: Option<Certificate>)
    ensures
        (match r {
            Some(certificate) => Some(certificate@),
            None => None,
        }) == certificate_of(der@),
{
    let cert = parse_x509_certificate(der).ok()?.1;
    let name = &cert.subject;
    let text = |a: &AttributeTypeAndValue| a.as_str().ok().map(String::from);
    let san = cert.subject_alternative_name().ok().flatten();
    Some(Certificate {
        subject: name.to_string(),
        common_names: name.iter_common_name().map(text).collect(),
        alternative_names: san.iter().flat_map(|san| &san.value.general_names).map(|n| match n {
            DNSName(dns) => Dns(dns.to_string()),
            URI(uri) => Uri(uri.to_string()),
            _ => Other,
        }).collect(),
        attributes: name.iter_attributes().map(|a| (a.attr_type().to_id_string(), text(a))).collect(),
    })
}

} // verus!
