//! Voice information that was found fit to connect with.
use vstd::prelude::*;
use vstd::string::*;

use crate::error::{Error, ErrorKind, Operation, RetryDisposition};
use crate::model::{ConnectInfo, ConnectionGeneration, VoiceConnectInfo};
use crate::text::{is_plain_authority, strip_prefix};

verus! {

/// Longest session identifier, in bytes.
pub const MAX_SESSION_BYTES: usize = 4_096;

/// Longest credential, in bytes.
pub const MAX_TOKEN_BYTES: usize = 8_192;

/// Longest authority, in bytes.
pub const MAX_AUTHORITY_BYTES: usize = 512;

/// The length of a text in bytes.
pub open spec fn byte_length(text: Seq<char>) -> nat {
    vstd::utf8::encode_utf8(text).len()
}

/// The authority of an endpoint: the endpoint without a leading `wss://`.
pub open spec fn authority(endpoint: Seq<char>) -> Seq<char> {
    match crate::text::after_prefix(endpoint, "wss://"@) {
        Some(rest) => rest,
        None => endpoint,
    }
}

/// Whether voice information is fit to connect with.
pub open spec fn fit(info: ConnectInfo) -> bool {
    &&& info.server_id != 0
    &&& info.user_id != 0
    &&& info.channel_id != 0
    &&& 0 < byte_length(info.session_id) <= MAX_SESSION_BYTES
    &&& 0 < byte_length(info.token) <= MAX_TOKEN_BYTES
    &&& 0 < byte_length(authority(info.endpoint)) <= MAX_AUTHORITY_BYTES
    &&& crate::text::plain_authority(authority(info.endpoint))
    &&& crate::text::after_prefix(info.endpoint, "ws://"@) is None
}

/// The address of the gateway for an endpoint. It is always encrypted.
pub open spec fn gateway_url(endpoint: Seq<char>) -> Seq<char> {
    "wss://"@ + authority(endpoint) + "/?v=8"@
}

/// Voice information that is fit to connect with, and the address that it gives.
pub struct ValidatedInfo {
    info: VoiceConnectInfo,
    url: String,
}

fn within(text: &str, maximum: usize) -> (fits: bool)
    ensures
        fits == (0 < byte_length(text@) <= maximum),
{
    let length: usize = text.as_bytes().len();
    0 < length && length <= maximum
}

impl View for ValidatedInfo {
    type V = ConnectInfo;

    closed spec fn view(&self) -> ConnectInfo {
        self.info@
    }
}

impl ValidatedInfo {
    #[verifier::type_invariant]
    spec fn well_formed(self) -> bool {
        &&& fit(self.info@)
        &&& self.url@ == gateway_url(self.info@.endpoint)
    }

    /// Takes voice information that is fit to connect with.
    pub fn new(
        info: VoiceConnectInfo,
        operation: Operation,
        generation: Option<ConnectionGeneration>,
    ) -> (validated: Result<Self, Error>)
        ensures
            match validated {
                Ok(validated) => fit(info@) && validated@ == info@,
                Err(error) => {
                    &&& !fit(info@)
                    &&& error@ == crate::error::ErrorView::plain(
                        ErrorKind::InvalidVoiceInfo,
                        operation,
                        generation,
                        RetryDisposition::Fatal,
                        None,
                        "invalid voice connection information"@,
                    )
                },
            },
    {
        let endpoint = info.endpoint();
        let host = match strip_prefix(endpoint, "wss://") {
            Some(rest) => rest,
            None => endpoint,
        };
        let valid_ids = info.server_id() != 0 && info.user_id() != 0 && info.channel_id() != 0;
        let valid_strings = within(info.session_id(), MAX_SESSION_BYTES) && within(
            info.token(),
            MAX_TOKEN_BYTES,
        );
        let valid_endpoint = within(host, MAX_AUTHORITY_BYTES) && is_plain_authority(host)
            && strip_prefix(endpoint, "ws://").is_none();
        if !valid_ids || !valid_strings || !valid_endpoint {
            return Err(
                Error::new(
                    ErrorKind::InvalidVoiceInfo,
                    operation,
                    generation,
                    RetryDisposition::Fatal,
                    None,
                    "invalid voice connection information",
                ),
            );
        }
        let mut url = "wss://".to_owned();
        url.append(host);
        url.append("/?v=8");
        Ok(ValidatedInfo { info, url })
    }

    /// Returns the voice information.
    pub fn info(&self) -> (info: &VoiceConnectInfo)
        ensures
            info@ == self@,
            fit(info@),
    {
        proof {
            use_type_invariant(self);
        }
        &self.info
    }

    /// Returns the address of the gateway.
    pub fn url(&self) -> (url: &str)
        ensures
            url@ == gateway_url(self@.endpoint),
    {
        proof {
            use_type_invariant(self);
        }
        self.url.as_str()
    }

    /// Copies the information.
    pub fn duplicate(&self) -> (copy: Self)
        ensures
            copy@ == self@,
    {
        proof {
            use_type_invariant(self);
        }
        ValidatedInfo { info: self.info.duplicate(), url: self.url.clone() }
    }
}

/// Every gateway address is encrypted and versioned, whatever the endpoint was.
pub proof fn gateway_urls_are_encrypted(endpoint: Seq<char>)
    ensures
        "wss://"@.is_prefix_of(gateway_url(endpoint)),
        crate::text::after_prefix(gateway_url(endpoint), "wss://"@) == Some(
            authority(endpoint) + "/?v=8"@,
        ),
{
    assert(gateway_url(endpoint).skip("wss://"@.len() as int) =~= authority(endpoint) + "/?v=8"@);
}

/// Voice information is fit to connect with where each of its identifiers is positive, its
/// session, its credential and its authority are neither empty nor over their bounds, and
/// its endpoint asks for no unencrypted connection. A leading `wss://` makes no difference.
pub proof fn fit_information_is_complete(info: ConnectInfo)
    ensures
        fit(info) ==> {
            &&& info.server_id > 0
            &&& info.user_id > 0
            &&& info.channel_id > 0
            &&& 0 < byte_length(info.session_id) <= 4_096
            &&& 0 < byte_length(info.token) <= 8_192
            &&& 0 < byte_length(authority(info.endpoint)) <= 512
            &&& !"ws://"@.is_prefix_of(info.endpoint)
        },
        info.server_id == 0 || info.user_id == 0 || info.channel_id == 0 ==> !fit(info),
        authority("wss://"@ + info.endpoint) == info.endpoint,
        !"wss://"@.is_prefix_of(info.endpoint) ==> authority(info.endpoint) == info.endpoint
            && gateway_url(info.endpoint) == gateway_url("wss://"@ + info.endpoint),
{
    crate::text::prefixes_are_put_back(info.endpoint, "wss://"@, info.endpoint);
}

/// An authority with a path, a query, a fragment or user information is not fit.
pub proof fn authorities_hold_hosts_only(info: ConnectInfo, at: int)
    requires
        0 <= at < authority(info.endpoint).len(),
        fit(info),
    ensures
        authority(info.endpoint)[at] != '/',
        authority(info.endpoint)[at] != '?',
        authority(info.endpoint)[at] != '#',
        authority(info.endpoint)[at] != '@',
        authority(info.endpoint)[at] != ' ',
{
    crate::text::authorities_are_plain(authority(info.endpoint), at);
}

/// Voice information with positive identifiers, a session, a credential and an endpoint within
/// their bounds is fit where the endpoint is a host and a port: letters, digits, dots, hyphens
/// and colons.
pub proof fn complete_information_is_fit(info: ConnectInfo)
    requires
        info.server_id > 0,
        info.user_id > 0,
        info.channel_id > 0,
        1 <= vstd::utf8::encode_utf8(info.session_id).len() <= 4_096,
        1 <= vstd::utf8::encode_utf8(info.token).len() <= 8_192,
        1 <= vstd::utf8::encode_utf8(info.endpoint).len() <= 512,
        info.endpoint.len() > 0,
        forall|i: int|
            0 <= i < info.endpoint.len() ==> {
                ||| 'a' <= #[trigger] info.endpoint[i] && info.endpoint[i] <= 'z'
                ||| 'A' <= info.endpoint[i] && info.endpoint[i] <= 'Z'
                ||| '0' <= info.endpoint[i] && info.endpoint[i] <= '9'
                ||| info.endpoint[i] == '.'
                ||| info.endpoint[i] == '-'
                ||| info.endpoint[i] == ':'
            },
    ensures
        fit(info),
        authority(info.endpoint) == info.endpoint,
        fit(ConnectInfo { endpoint: "wss://"@ + info.endpoint, ..info }),
        !fit(ConnectInfo { endpoint: "ws://"@ + info.endpoint, ..info }),
{
    reveal_strlit("wss://");
    reveal_strlit("ws://");
    assert("wss://"@[4] == '/');
    assert("ws://"@[3] == '/');
    assert("wss://"@[2] == 's');
    assert("ws://"@[2] == ':');
    let endpoint = info.endpoint;
    let secure = "wss://"@ + endpoint;
    let open = "ws://"@ + endpoint;
    if "wss://"@.is_prefix_of(endpoint) {
        assert(endpoint[4] == "wss://"@[4]);
    }
    if "ws://"@.is_prefix_of(endpoint) {
        assert(endpoint[3] == "ws://"@[3]);
    }
    if "ws://"@.is_prefix_of(secure) {
        assert(secure[2] == "ws://"@[2]);
        assert(secure[2] == "wss://"@[2]);
    }
    crate::text::prefixes_are_put_back(endpoint, "wss://"@, endpoint);
    crate::text::prefixes_are_put_back(endpoint, "ws://"@, endpoint);
    crate::text::authorities_are_plain(endpoint, 0);
}

} // verus!
