//! How the HTTP client for one appliance is set up.

use crate::error::CheckError;
use vstd::prelude::*;

verus! {

/// Whom the client trusts when it connects.
#[derive(Clone, Copy, Debug, PartialEq, Eq, Structural)]
pub enum TrustPolicy {
    /// Neither the certificate nor the host name of the appliance is checked.
    NoVerification,
    /// The given CA certificate is trusted besides the system's own.
    CustomRoot,
    /// Only the system's trust store decides.
    SystemRoots,
}

/// The trust policy for a CA certificate (empty when there is none) and the
/// insecure flag. The flag wins: with it, a certificate is not looked at.
pub open spec fn trust_policy_for(ca_cert: Seq<u8>, insecure: bool) -> TrustPolicy {
    if insecure {
        TrustPolicy::NoVerification
    } else if ca_cert.len() > 0 {
        TrustPolicy::CustomRoot
    } else {
        TrustPolicy::SystemRoots
    }
}

/// Whether a header name is made of letters, digits and hyphens only.
pub open spec fn is_plain_name(name: Seq<char>) -> bool {
    &&& 1 <= name.len() <= 64
    &&& forall|i: int|
        0 <= i < name.len() ==> {
            let c = #[trigger] name[i];
            ||| 'a' <= c <= 'z'
            ||| 'A' <= c <= 'Z'
            ||| '0' <= c <= '9'
            ||| c == '-'
        }
}

/// Whether a header value is made of printable ASCII characters only.
pub open spec fn is_plain_value(value: Seq<char>) -> bool {
    forall|i: int| 0 <= i < value.len() ==> ' ' <= #[trigger] value[i] <= '~'
}

/// Whether every entry has a plain name and a plain value, and the entries
/// are few.
pub open spec fn are_plain_headers(entries: Seq<(Seq<char>, Seq<char>)>) -> bool {
    &&& entries.len() <= 64
    &&& forall|i: int|
        0 <= i < entries.len() ==> is_plain_name((#[trigger] entries[i]).0) && is_plain_value(
            entries[i].1,
        )
}

/// The headers that every request of the client carries, in the order in
/// which they are set.
pub open spec fn default_headers_for() -> Seq<(Seq<char>, Seq<char>)> {
    seq![
        ("Accept"@, "application/json"@),
        ("Content-Type"@, "application/json"@),
        ("User-Agent"@, "oneview_alerts/0.1.0"@),
        ("X-Api-Version"@, "2000"@),
    ]
}

/// Whether two letters of a header name are the same but for their case.
pub open spec fn same_letter(a: char, b: char) -> bool {
    ||| a == b
    ||| ('A' <= a <= 'Z' && b as u32 == a as u32 + 32)
    ||| ('A' <= b <= 'Z' && a as u32 == b as u32 + 32)
}

/// Whether two header names are the same but for the case of their letters:
/// such names stand for one header.
pub open spec fn same_name(a: Seq<char>, b: Seq<char>) -> bool {
    &&& a.len() == b.len()
    &&& forall|i: int| 0 <= i < a.len() ==> same_letter(#[trigger] a[i], b[i])
}

/// Whether no two entries stand for one header.
pub open spec fn have_distinct_names(entries: Seq<(Seq<char>, Seq<char>)>) -> bool {
    forall|i: int, j: int|
        0 <= i < j < entries.len() ==> !same_name(
            (#[trigger] entries[i]).0,
            (#[trigger] entries[j]).0,
        )
}

/// Whether one of the entries stands for the header of the given name.
pub open spec fn names_header(entries: Seq<(Seq<char>, Seq<char>)>, name: Seq<char>) -> bool {
    exists|i: int| 0 <= i < entries.len() && same_name(name, (#[trigger] entries[i]).0)
}

/// How many idle connections per host the client keeps: none. The appliance
/// does not take well to a connection that is used again, so every request
/// opens its own.
pub const MAX_IDLE_PER_HOST: usize = 0;

/// The longest CA certificate that is handed to the TLS backend, in bytes.
pub const MAX_PEM_LEN: usize = 0x7fff_ffff;

/// A builder of `reqwest`'s blocking client. What it has been told is read
/// with the names below.
#[verifier::external_type_specification]
#[verifier::external_body]
pub struct ExClientBuilder(reqwest::blocking::ClientBuilder);

/// A certificate as `reqwest` holds it.
#[verifier::external_type_specification]
#[verifier::external_body]
pub struct ExCertificate(reqwest::Certificate);

/// An error of `reqwest`.
#[verifier::external_type_specification]
#[verifier::external_body]
pub struct ExReqwestError(reqwest::Error);

/// Whether the builder was told to use the native TLS backend.
pub uninterp spec fn native_tls_chosen(builder: reqwest::blocking::ClientBuilder) -> bool;

/// Whether the builder's client leaves certificates unchecked.
pub uninterp spec fn certs_unchecked(builder: reqwest::blocking::ClientBuilder) -> bool;

/// Whether the builder's client leaves host names unchecked.
pub uninterp spec fn host_names_unchecked(builder: reqwest::blocking::ClientBuilder) -> bool;

/// The root certificates that were added to the builder, in the order in
/// which they were added. The roots that are built in are not among them.
pub uninterp spec fn added_roots(builder: reqwest::blocking::ClientBuilder) -> Seq<
    reqwest::Certificate,
>;

/// How many idle connections per host the builder's client keeps at most.
pub uninterp spec fn max_idle(builder: reqwest::blocking::ClientBuilder) -> usize;

/// The value that the builder's default headers hold for the header of the
/// given name, whatever the case of the name's letters.
pub uninterp spec fn header_value(
    builder: reqwest::blocking::ClientBuilder,
    name: Seq<char>,
) -> Option<Seq<char>>;

/// What a builder has been told, its default headers aside.
pub struct BuilderSettings {
    pub native_tls_chosen: bool,
    pub certs_unchecked: bool,
    pub host_names_unchecked: bool,
    pub added_roots: Seq<reqwest::Certificate>,
    pub max_idle: usize,
}

/// What the builder has been told, its default headers aside.
pub open spec fn settings_of(builder: reqwest::blocking::ClientBuilder) -> BuilderSettings {
    BuilderSettings {
        native_tls_chosen: native_tls_chosen(builder),
        certs_unchecked: certs_unchecked(builder),
        host_names_unchecked: host_names_unchecked(builder),
        added_roots: added_roots(builder),
        max_idle: max_idle(builder),
    }
}

/// Whether two builders hold the same default headers.
pub open spec fn same_headers(
    a: reqwest::blocking::ClientBuilder,
    b: reqwest::blocking::ClientBuilder,
) -> bool {
    forall|name: Seq<char>| #[trigger] header_value(a, name) == header_value(b, name)
}

/// Whether the builder is set up for a CA certificate (empty when there is
/// none) and the insecure flag as a check needs it.
///
/// The native TLS backend is chosen. With the insecure flag neither
/// certificates nor host names are checked; without it both are. A root is
/// added only where the CA certificate is trusted, and then it is the one
/// root. No idle connection is kept, and the default headers hold each of
/// the fixed headers.
pub open spec fn is_set_up(
    builder: reqwest::blocking::ClientBuilder,
    ca_cert: Seq<u8>,
    insecure: bool,
) -> bool {
    &&& native_tls_chosen(builder)
    &&& certs_unchecked(builder) == insecure
    &&& host_names_unchecked(builder) == insecure
    &&& added_roots(builder).len() == (if trust_policy_for(ca_cert, insecure)
        == TrustPolicy::CustomRoot {
        1nat
    } else {
        0nat
    })
    &&& max_idle(builder) == MAX_IDLE_PER_HOST
    &&& forall|i: int|
        0 <= i < default_headers_for().len() ==> header_value(
            builder,
            (#[trigger] default_headers_for()[i]).0,
        ) == Some(default_headers_for()[i].1)
}

/// `ClientBuilder::new` of `reqwest::blocking`. Trusted: the new builder
/// checks certificates and host names, and no root was added to it.
pub assume_specification[ reqwest::blocking::ClientBuilder::new ]() -> (builder:
    reqwest::blocking::ClientBuilder)
    ensures
        !certs_unchecked(builder),
        !host_names_unchecked(builder),
        added_roots(builder).len() == 0,
;

/// `ClientBuilder::use_native_tls` of `reqwest::blocking`. Trusted: the
/// native TLS backend is chosen, and nothing else of the builder changes.
pub assume_specification[ reqwest::blocking::ClientBuilder::use_native_tls ](
    builder: reqwest::blocking::ClientBuilder,
) -> (configured: reqwest::blocking::ClientBuilder)
    ensures
        native_tls_chosen(configured),
        settings_of(configured) == (BuilderSettings {
            native_tls_chosen: true,
            ..settings_of(builder)
        }),
        same_headers(configured, builder),
;

/// `ClientBuilder::danger_accept_invalid_certs` of `reqwest::blocking`.
/// Trusted: certificates are left unchecked exactly if the flag says so, and
/// nothing else of the builder changes.
pub assume_specification[ reqwest::blocking::ClientBuilder::danger_accept_invalid_certs ](
    builder: reqwest::blocking::ClientBuilder,
    accept_invalid_certs: bool,
) -> (configured: reqwest::blocking::ClientBuilder)
    ensures
        certs_unchecked(configured) == accept_invalid_certs,
        settings_of(configured) == (BuilderSettings {
            certs_unchecked: accept_invalid_certs,
            ..settings_of(builder)
        }),
        same_headers(configured, builder),
;

/// `ClientBuilder::danger_accept_invalid_hostnames` of `reqwest::blocking`.
/// Trusted: host names are left unchecked exactly if the flag says so, and
/// nothing else of the builder changes.
pub assume_specification[ reqwest::blocking::ClientBuilder::danger_accept_invalid_hostnames ](
    builder: reqwest::blocking::ClientBuilder,
    accept_invalid_hostname: bool,
) -> (configured: reqwest::blocking::ClientBuilder)
    ensures
        host_names_unchecked(configured) == accept_invalid_hostname,
        settings_of(configured) == (BuilderSettings {
            host_names_unchecked: accept_invalid_hostname,
            ..settings_of(builder)
        }),
        same_headers(configured, builder),
;

/// `Certificate::from_pem` of `reqwest`: reads one PEM-encoded certificate.
/// Trusted: it returns, on bytes that are no more than the TLS backend
/// takes; whether it accepts them is up to the backend.
pub assume_specification[ reqwest::Certificate::from_pem ](pem: &[u8]) -> (certificate: Result<
    reqwest::Certificate,
    reqwest::Error,
>)
    requires
        pem@.len() <= MAX_PEM_LEN,
;

/// `ClientBuilder::add_root_certificate` of `reqwest::blocking`. Trusted:
/// the certificate is added behind the roots that were added before, and
/// nothing else of the builder changes.
pub assume_specification[ reqwest::blocking::ClientBuilder::add_root_certificate ](
    builder: reqwest::blocking::ClientBuilder,
    cert: reqwest::Certificate,
) -> (configured: reqwest::blocking::ClientBuilder)
    ensures
        added_roots(configured) == added_roots(builder).push(cert),
        settings_of(configured) == (BuilderSettings {
            added_roots: added_roots(builder).push(cert),
            ..settings_of(builder)
        }),
        same_headers(configured, builder),
;

/// `ClientBuilder::pool_max_idle_per_host` of `reqwest::blocking`. Trusted:
/// the client keeps at most so many idle connections per host, and nothing
/// else of the builder changes.
pub assume_specification[ reqwest::blocking::ClientBuilder::pool_max_idle_per_host ](
    builder: reqwest::blocking::ClientBuilder,
    max: usize,
) -> (configured: reqwest::blocking::ClientBuilder)
    ensures
        max_idle(configured) == max,
        settings_of(configured) == (BuilderSettings { max_idle: max, ..settings_of(builder) }),
        same_headers(configured, builder),
;

/// `ClientBuilder::default_headers` of `reqwest::blocking`, on a `HeaderMap`
/// of `http` that is filled from the entries with `HeaderName::from_bytes`,
/// `HeaderValue::from_str` and `HeaderMap::try_insert`. Trusted: plain
/// headers of distinct names are all taken; the builder's default headers
/// then hold each entry's value under the entry's name and are unchanged
/// under every other name, and nothing else of the builder changes.
#[verifier::external_body]
fn with_default_headers(
    builder: reqwest::blocking::ClientBuilder,
    entries: &Vec<(String, String)>,
) -> (configured: Option<reqwest::blocking::ClientBuilder>)
    requires
        are_plain_headers(entries.deep_view()),
        have_distinct_names(entries.deep_view()),
    ensures
        configured is Some,
        configured matches Some(after) ==> {
            &&& settings_of(after) == settings_of(builder)
            &&& forall|i: int|
                0 <= i < entries.deep_view().len() ==> header_value(
                    after,
                    (#[trigger] entries.deep_view()[i]).0,
                ) == Some(entries.deep_view()[i].1)
            &&& forall|name: Seq<char>|
                !names_header(entries.deep_view(), name) ==> #[trigger] header_value(after, name)
                    == header_value(builder, name)
        },
{
    let mut map = http::HeaderMap::new();
    for (name, value) in entries.iter() {
        let name = http::HeaderName::from_bytes(name.as_bytes()).ok()?;
        let value = http::HeaderValue::from_str(value).ok()?;
        map.try_insert(name, value).ok()?;
    }
    Some(builder.default_headers(map))
}

/// The text of an error of `reqwest`, as its `Display` writes it. Nothing is
/// claimed of the text.
#[verifier::external_body]
fn error_text(error: &reqwest::Error) -> String {
    format!("{}", error)
}

/// The trust policy for a CA certificate (empty when there is none) and the
/// insecure flag.
pub fn trust_policy(ca_cert: &[u8], insecure: bool) -> (policy: TrustPolicy)
    ensures
        policy == trust_policy_for(ca_cert@, insecure),
{
    if insecure {
        TrustPolicy::NoVerification
    } else if ca_cert.len() > 0 {
        TrustPolicy::CustomRoot
    } else {
        TrustPolicy::SystemRoots
    }
}

/// The headers that every request of the client carries.
pub fn default_headers() -> (entries: Vec<(String, String)>)
    ensures
        entries.deep_view() == default_headers_for(),
        are_plain_headers(entries.deep_view()),
        have_distinct_names(entries.deep_view()),
{
    let mut entries: Vec<(String, String)> = Vec::new();
    entries.push(("Accept".to_owned(), "application/json".to_owned()));
    entries.push(("Content-Type".to_owned(), "application/json".to_owned()));
    entries.push(("User-Agent".to_owned(), "oneview_alerts/0.1.0".to_owned()));
    entries.push(("X-Api-Version".to_owned(), "2000".to_owned()));
    proof {
        reveal_strlit("Accept");
        reveal_strlit("Content-Type");
        reveal_strlit("User-Agent");
        reveal_strlit("X-Api-Version");
        reveal_strlit("application/json");
        reveal_strlit("oneview_alerts/0.1.0");
        reveal_strlit("2000");
        assert(entries.deep_view() =~= default_headers_for());
    }
    entries
}

/// Adds a CA certificate to the builder's trusted roots, given what came of
/// reading it as PEM: a certificate that was read is added behind the roots
/// that were added before, and nothing else of the builder changes; one that
/// was refused is a [`CheckError::Config`] with the refusal's text.
pub fn with_root_certificate(
    builder: reqwest::blocking::ClientBuilder,
    parsed: Result<reqwest::Certificate, reqwest::Error>,
) -> (made: Result<reqwest::blocking::ClientBuilder, CheckError>)
    ensures
        made is Ok <==> parsed is Ok,
        made matches Err(error) ==> error is Config,
        made matches Ok(rooted) ==> {
            &&& parsed matches Ok(certificate)
            &&& settings_of(rooted) == (BuilderSettings {
                added_roots: added_roots(builder).push(certificate),
                ..settings_of(builder)
            })
            &&& same_headers(rooted, builder)
        },
{
    match parsed {
        Ok(certificate) => Ok(builder.add_root_certificate(certificate)),
        Err(error) => Err(CheckError::Config(error_text(&error))),
    }
}

/// Sets up the builder of the HTTP client for one appliance.
///
/// With the insecure flag, or without a CA certificate, the builder is
/// always made. With a CA certificate the TLS backend decides: the builder
/// is made if the backend reads the certificate as PEM, and
/// [`with_root_certificate`] says what is made of either answer; a
/// certificate of more than [`MAX_PEM_LEN`] bytes is not handed to the
/// backend and fails. Every failure is a [`CheckError::Config`]. A builder
/// that is made is set up as [`is_set_up`] says.
///
/// Building the client from the builder is left to the caller: it starts the
/// client's thread.
pub fn client_builder(ca_cert: &[u8], insecure_ssl: bool) -> (made: Result<
    reqwest::blocking::ClientBuilder,
    CheckError,
>)
    ensures
        trust_policy_for(ca_cert@, insecure_ssl) != TrustPolicy::CustomRoot ==> made is Ok,
        ca_cert@.len() > MAX_PEM_LEN && !insecure_ssl ==> made is Err,
        made matches Err(error) ==> error is Config,
        made matches Ok(builder) ==> is_set_up(builder, ca_cert@, insecure_ssl),
{
    let mut builder = reqwest::blocking::ClientBuilder::new().use_native_tls();
    match trust_policy(ca_cert, insecure_ssl) {
        TrustPolicy::NoVerification => {
            builder = builder.danger_accept_invalid_certs(true);
            builder = builder.danger_accept_invalid_hostnames(true);
        },
        TrustPolicy::CustomRoot => {
            if ca_cert.len() > MAX_PEM_LEN {
                return Err(CheckError::Config("the CA certificate is too long".to_owned()));
            }
            match with_root_certificate(builder, reqwest::Certificate::from_pem(ca_cert)) {
                Ok(trusting) => {
                    builder = trusting;
                },
                Err(error) => {
                    return Err(error);
                },
            }
        },
        TrustPolicy::SystemRoots => {},
    }
    let headers = default_headers();
    match with_default_headers(builder, &headers) {
        Some(configured) => Ok(configured.pool_max_idle_per_host(MAX_IDLE_PER_HOST)),
        None => Err(CheckError::Config("a default header was refused".to_owned())),
    }
}

} // verus!
