//! Keys obtained from a quantum key distribution device over the ETSI GS QKD 014 interface.
//!
//! The device is asked over HTTPS, either for a key of its choice or for the key with a given
//! identifier, and answers with a list of keys in JSON. Transport and JSON are the caller's
//! part; this module says which address to ask, which answers count, and which key an answer
//! holds.

use uuid::Uuid;
use vstd::prelude::*;
use vstd::std_specs::convert::{TryFromSpec, TryFromSpecImpl};
use vstd::string::StringExecFns;
use vstd::utf8::encode_utf8;

use crate::crypto::basics::Key;
use crate::util::{base64_decode_key, base64_decoded_key, Base64Error, UuidBytes};

verus! {

/// A key delivered by the key distribution device, with the identifier under which the peer
/// can fetch the same key.
#[derive(Debug)]
pub struct Etsi014Key {
    pub id: UuidBytes,
    pub key: Key,
}

impl Clone for Etsi014Key {
    fn clone(&self) -> (copy: Self)
        ensures
            copy == *self,
    {
        Self { id: self.id, key: self.key }
    }
}

/// One entry of the device's answer: the identifier of a key and the key in base64.
#[derive(Debug)]
pub struct ResponseKey {
    pub id: UuidBytes,
    pub key: String,
}

/// The device's answer.
#[derive(Debug)]
pub struct ResponseKeys {
    pub keys: Vec<ResponseKey>,
}

/// Why the device's answer gave no key.
#[derive(Debug)]
pub enum Etsi014Error {
    /// The answer held this many keys instead of one.
    UnexpectedKeyCount(usize),
    /// The key was not valid base64, or stood for more than 32 octets.
    InvalidKeyEncoding(Base64Error),
    /// The key stood for this many octets instead of 32.
    InvalidKeyLength(usize),
}

/// The key with the given octets.
pub open spec fn key_of_octets(octets: Seq<u8>) -> Key {
    choose|key: Key| key@ == octets
}

/// The key that the base64 text `encoded` stands for, if it stands for exactly 32 octets.
pub open spec fn response_key_of(encoded: Seq<u8>) -> Result<Key, Etsi014Error> {
    match base64_decoded_key(encoded) {
        Ok(decoded) => if decoded.len() == 32 {
            Ok(key_of_octets(decoded))
        } else {
            Err(Etsi014Error::InvalidKeyLength(decoded.len() as usize))
        },
        Err(err) => Err(Etsi014Error::InvalidKeyEncoding(err)),
    }
}

impl Etsi014Key {
    /// The nil identifier with the all-zero key.
    pub fn empty() -> (key: Self)
        ensures
            key.id@ == Seq::new(16, |i: int| 0u8),
            key.key@ == Seq::new(32, |i: int| 0u8),
    {
        let key = Self { id: [0u8; 16], key: [0u8; 32] };
        key
    }
}

impl TryFrom<ResponseKey> for Etsi014Key {
    type Error = Etsi014Error;

    /// The key of one entry: its base64 text has to stand for exactly 32 octets.
    fn try_from(value: ResponseKey) -> (res: Result<Self, Etsi014Error>) {
        let ResponseKey { id, key } = value;
        match base64_decode_key(key.as_str().as_bytes()) {
            Ok(decoded) => {
                if decoded.len() != 32 {
                    return Err(Etsi014Error::InvalidKeyLength(decoded.len()));
                }
                let mut dec_buf: Key = [0u8; 32];
                let mut i: usize = 0;
                while i < 32
                    invariant
                        i <= 32,
                        decoded@.len() == 32,
                        forall|k: int| 0 <= k < i ==> dec_buf@[k] == decoded@[k],
                    decreases 32 - i,
                {
                    dec_buf[i] = decoded[i];
                    i += 1;
                }
                assert(dec_buf@ =~= decoded@);
                assert(dec_buf =~= key_of_octets(decoded@));
                Ok(Self { id, key: dec_buf })
            },
            Err(err) => Err(Etsi014Error::InvalidKeyEncoding(err)),
        }
    }
}

impl TryFromSpecImpl<ResponseKey> for Etsi014Key {
    open spec fn obeys_try_from_spec() -> bool {
        true
    }

    open spec fn try_from_spec(value: ResponseKey) -> Result<Self, Etsi014Error> {
        match response_key_of(encode_utf8(value.key@)) {
            Ok(key) => Ok(Etsi014Key { id: value.id, key }),
            Err(err) => Err(err),
        }
    }
}

impl TryFrom<ResponseKeys> for Etsi014Key {
    type Error = Etsi014Error;

    /// The key of an answer: the answer has to hold exactly one entry.
    fn try_from(value: ResponseKeys) -> (res: Result<Self, Etsi014Error>) {
        let mut keys = value.keys;
        if keys.len() != 1 {
            return Err(Etsi014Error::UnexpectedKeyCount(keys.len()));
        }
        match keys.pop() {
            Some(key) => Etsi014Key::try_from(key),
            None => Err(Etsi014Error::UnexpectedKeyCount(0)),
        }
    }
}

impl TryFromSpecImpl<ResponseKeys> for Etsi014Key {
    open spec fn obeys_try_from_spec() -> bool {
        true
    }

    open spec fn try_from_spec(value: ResponseKeys) -> Result<Self, Etsi014Error> {
        if value.keys@.len() == 1 {
            <Etsi014Key as TryFromSpec<ResponseKey>>::try_from_spec(value.keys@[0])
        } else {
            Err(Etsi014Error::UnexpectedKeyCount(value.keys@.len() as usize))
        }
    }
}

/// The sixteen hexadecimal digits, lower case.
pub const HEX_DIGITS: [char; 16] = [
    '0', '1', '2', '3', '4', '5', '6', '7', '8', '9', 'a', 'b', 'c', 'd', 'e', 'f',
];

/// Two lower-case hexadecimal digits for each octet.
pub open spec fn hex_lower(octets: Seq<u8>) -> Seq<char>
    decreases octets.len(),
{
    if octets.len() == 0 {
        Seq::empty()
    } else {
        seq![HEX_DIGITS@[octets[0] as int / 16], HEX_DIGITS@[octets[0] as int % 16]] + hex_lower(
            octets.drop_first(),
        )
    }
}

/// The octets of a UUID in the order in which they are written, given the UUID with each
/// field in little-endian byte order.
pub open spec fn uuid_written_order(id: Seq<u8>) -> Seq<u8> {
    seq![id[3], id[2], id[1], id[0], id[5], id[4], id[7], id[6]] + id.subrange(8, 16)
}

/// The usual text of a UUID: 32 lower-case hexadecimal digits in groups of 8, 4, 4, 4 and 12,
/// with hyphens between the groups.
pub open spec fn uuid_text(id: Seq<u8>) -> Seq<char> {
    let octets = uuid_written_order(id);
    hex_lower(octets.subrange(0, 4)) + seq!['-'] + hex_lower(octets.subrange(4, 6)) + seq!['-']
        + hex_lower(octets.subrange(6, 8)) + seq!['-'] + hex_lower(octets.subrange(8, 10))
        + seq!['-'] + hex_lower(octets.subrange(10, 16))
}

/// Writes a UUID as text.
///
/// Trusted: the body calls `uuid::Uuid::from_bytes_le`, which puts the first three fields
/// into big-endian byte order, and formats the result with `Uuid::hyphenated`, which writes
/// the octets as lower-case hexadecimal digits with hyphens after the 8th, 12th, 16th and
/// 20th digit. The contract claims that the text is [`uuid_text`] of the argument.
#[verifier::external_body]
pub(crate) fn uuid_to_text(id: &UuidBytes) -> (text: String)
    ensures
        text@ == uuid_text(id@),
{
    Uuid::from_bytes_le(*id).hyphenated().to_string()
}

/// Whether an HTTP status says that the request succeeded: the statuses 200 to 299 do. Only
/// then does the answer hold keys; otherwise it holds a text that says what went wrong.
pub fn status_is_success(status: u16) -> (success: bool)
    ensures
        success == (200 <= status < 300),
{
    200 <= status && status < 300
}

/// Files with which the daemon proves its own identity to the device.
#[derive(Debug)]
pub struct ClientAuth {
    pub tls_cert: String,
    pub tls_key: String,
}

/// How to reach the key distribution device.
#[derive(Debug)]
pub struct Etsi014Config {
    pub url: String,
    pub remote_sae_id: String,
    pub interval_secs: Option<u64>,
    pub tls_cacert: Option<String>,
    pub client_auth: Option<ClientAuth>,
    pub danger_allow_insecure_no_server_name_certificates: bool,
}

/// The address of the request for a key of the device's choice.
pub open spec fn any_key_uri(url: Seq<char>, remote_sae_id: Seq<char>) -> Seq<char> {
    url + "/api/v1/keys/"@ + remote_sae_id + "/enc_keys?number=1&key_length=256"@
}

/// The address of the request for the key with the identifier `id`.
pub open spec fn specific_key_uri(url: Seq<char>, remote_sae_id: Seq<char>, id: Seq<u8>) -> Seq<
    char,
> {
    url + "/api/v1/keys/"@ + remote_sae_id + "/dec_keys?key_ID="@ + uuid_text(id)
}

/// A key distribution device, reached through `client`.
#[derive(Debug)]
pub struct Etsi014Connection<Client> {
    pub url: String,
    pub remote_sae_id: String,
    pub client: Client,
}

impl<Client> Etsi014Connection<Client> {
    /// The device at `url`, asked for keys shared with `remote_sae_id`.
    pub fn new(url: String, remote_sae_id: String, client: Client) -> (connection: Self)
        ensures
            connection.url == url,
            connection.remote_sae_id == remote_sae_id,
            connection.client == client,
    {
        Self { url, remote_sae_id, client }
    }

    /// The device that `config` names, reached through `client`.
    pub fn from_config(config: &Etsi014Config, client: Client) -> (connection: Self)
        ensures
            connection.url@ == config.url@,
            connection.remote_sae_id@ == config.remote_sae_id@,
            connection.client == client,
    {
        Self::new(config.url.clone(), config.remote_sae_id.clone(), client)
    }

    /// The address to ask for one key of 256 bits of the device's choice.
    pub fn fetch_any_key_uri(&self) -> (uri: String)
        ensures
            uri@ == any_key_uri(self.url@, self.remote_sae_id@),
    {
        let uri = self.url.clone();
        let uri = uri.concat("/api/v1/keys/");
        let uri = uri.concat(self.remote_sae_id.as_str());
        uri.concat("/enc_keys?number=1&key_length=256")
    }

    /// The address to ask for the key with the identifier `id`.
    pub fn fetch_specific_key_uri(&self, id: &UuidBytes) -> (uri: String)
        ensures
            uri@ == specific_key_uri(self.url@, self.remote_sae_id@, id@),
    {
        let id_text = uuid_to_text(id);
        let uri = self.url.clone();
        let uri = uri.concat("/api/v1/keys/");
        let uri = uri.concat(self.remote_sae_id.as_str());
        let uri = uri.concat("/dec_keys?key_ID=");
        uri.concat(id_text.as_str())
    }
}

/// What checking a server's certificate against the expected roots and name came to.
#[derive(Debug, Clone, Copy, PartialEq, Eq, Structural)]
pub enum CertVerification {
    /// The certificate is valid for the server that was asked.
    Verified,
    /// The certificate is valid, but not for the name of the server that was asked.
    NotValidForName,
    /// As `NotValidForName`, with the expected and the presented names known.
    NotValidForNameContext,
    /// The certificate is invalid for any other reason.
    OtherCertificateError,
    /// The check failed for a reason that is not about the certificate.
    OtherError,
}

/// What to make of a server's certificate.
#[derive(Debug, Clone, Copy, PartialEq, Eq, Structural)]
pub enum ServerCertVerdict {
    /// Accept it: it passed the check.
    Verified,
    /// Accept it although it names another server.
    AcceptedDespiteName,
    /// Reject it, with the error of the check.
    Rejected,
}

/// Checks certificates like the usual verifier, but lets a certificate pass that names
/// another server. Only for devices that cannot be given a proper certificate.
#[derive(Debug, Clone, Copy)]
pub struct NoServerNameVerification;

impl NoServerNameVerification {
    /// Decides on a certificate from what the usual check came to. A certificate passes if
    /// the usual check passed it, or failed it for its name alone. Every other failure
    /// stands.
    pub fn verify_server_cert(inner: CertVerification) -> (verdict: ServerCertVerdict)
        ensures
            verdict == match inner {
                CertVerification::Verified => ServerCertVerdict::Verified,
                CertVerification::NotValidForName => ServerCertVerdict::AcceptedDespiteName,
                CertVerification::NotValidForNameContext => ServerCertVerdict::AcceptedDespiteName,
                CertVerification::OtherCertificateError => ServerCertVerdict::Rejected,
                CertVerification::OtherError => ServerCertVerdict::Rejected,
            },
    {
        match inner {
            CertVerification::Verified => ServerCertVerdict::Verified,
            CertVerification::NotValidForName => ServerCertVerdict::AcceptedDespiteName,
            CertVerification::NotValidForNameContext => ServerCertVerdict::AcceptedDespiteName,
            _ => ServerCertVerdict::Rejected,
        }
    }
}

} // verus!
