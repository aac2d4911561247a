//! Configurations by which a provider is imported, read-only.

use crate::error::{accepted, conflict, StateError, StateErrorView};
use crate::ids::ProviderInstanceId;
use crate::names::TlsVerificationPolicy;
use crate::rules::{is_fingerprint, valid_sha256_fingerprint};
use crate::text::{
    byte_len, byte_length, char_is_alphanumeric, chars_of, has_prefix, is_alphanumeric,
    is_space_free, join, no_space, starts_with,
};
use vstd::prelude::*;

verus! {

/// A Headscale import. It holds a reference to the API key, never the key.
#[derive(Debug, PartialEq, Eq)]
pub struct HeadscaleImportConfig {
    pub server_url: String,
    pub provider_instance_id: ProviderInstanceId,
    pub opaque_secret_reference: String,
    pub compatibility_pin: String,
    pub custom_root_ca_sha256: Option<String>,
    pub tls_verification: TlsVerificationPolicy,
    pub read_only: bool,
    pub mutation_allowed: bool,
}

impl Clone for HeadscaleImportConfig {
    fn clone(&self) -> (copy: Self)
        ensures
            copy == *self,
    {
        HeadscaleImportConfig {
            server_url: self.server_url.clone(),
            provider_instance_id: self.provider_instance_id.clone(),
            opaque_secret_reference: self.opaque_secret_reference.clone(),
            compatibility_pin: self.compatibility_pin.clone(),
            custom_root_ca_sha256: match &self.custom_root_ca_sha256 {
                Some(value) => Some(value.clone()),
                None => None,
            },
            tls_verification: self.tls_verification,
            read_only: self.read_only,
            mutation_allowed: self.mutation_allowed,
        }
    }
}

/// A Tailscale import. It holds a reference to the token, never the token.
#[derive(Debug, PartialEq, Eq)]
pub struct TailscaleImportConfig {
    pub tailnet: String,
    pub provider_instance_id: ProviderInstanceId,
    pub opaque_secret_reference: String,
    pub compatibility_pin: String,
    pub read_only: bool,
    pub mutation_allowed: bool,
}

impl Clone for TailscaleImportConfig {
    fn clone(&self) -> (copy: Self)
        ensures
            copy == *self,
    {
        TailscaleImportConfig {
            tailnet: self.tailnet.clone(),
            provider_instance_id: self.provider_instance_id.clone(),
            opaque_secret_reference: self.opaque_secret_reference.clone(),
            compatibility_pin: self.compatibility_pin.clone(),
            read_only: self.read_only,
            mutation_allowed: self.mutation_allowed,
        }
    }
}

/// `https://` and a host, without path, user, query, fragment or white space.
pub open spec fn is_https_origin(url: Seq<char>) -> bool {
    &&& has_prefix(url, "https://"@)
    &&& url.len() > 8
    &&& forall|i: int| 8 <= i < url.len() ==> is_host_char(#[trigger] url[i])
    &&& no_space(url)
}

/// A character that does not end the host of a URL.
pub open spec fn is_host_char(c: char) -> bool {
    c != '/' && c != '@' && c != '?' && c != '#'
}

/// An opaque reference to a secret.
pub open spec fn is_secret_reference(reference: Seq<char>) -> bool {
    &&& has_prefix(reference, "secret://"@)
    &&& byte_length(reference) <= 255
    &&& no_space(reference)
}

/// A version that the provider is held to.
pub open spec fn is_compatibility_pin(pin: Seq<char>) -> bool {
    &&& pin.len() > 0
    &&& byte_length(pin) <= 64
    &&& no_space(pin)
}

/// The name of a tailnet.
pub open spec fn is_tailnet(name: Seq<char>) -> bool {
    &&& 1 <= name.len() <= 256
    &&& forall|i: int| 0 <= i < name.len() ==> is_tailnet_char(#[trigger] name[i])
}

/// A character of the name of a tailnet.
pub open spec fn is_tailnet_char(c: char) -> bool {
    is_alphanumeric(c) || c == '.' || c == '-' || c == '_' || c == '@'
}

/// What is wrong with the texts of a Headscale import, if anything.
pub open spec fn headscale_problem(
    server_url: Seq<char>,
    secret_reference: Seq<char>,
    compatibility_pin: Seq<char>,
) -> Option<StateErrorView> {
    if !is_https_origin(server_url) {
        Some(StateErrorView::Conflict("Headscale server URL must be a clean HTTPS origin"@))
    } else if !is_secret_reference(secret_reference) {
        Some(
            StateErrorView::Conflict(
                "credential must be an opaque secret:// reference, not plaintext"@,
            ),
        )
    } else if !is_compatibility_pin(compatibility_pin) {
        Some(StateErrorView::Conflict("Headscale compatibility pin is invalid"@))
    } else {
        None
    }
}

fn https_origin(url: &str) -> (valid: bool)
    ensures
        valid == is_https_origin(url@),
{
    if !starts_with(url, "https://") || !is_space_free(url) {
        return false;
    }
    let chars = chars_of(url);
    if chars.len() <= 8 {
        return false;
    }
    for i in 8..chars.len()
        invariant
            chars@ == url@,
            forall|j: int| 8 <= j < i ==> is_host_char(#[trigger] url@[j]),
    {
        let c = chars[i];
        if c == '/' || c == '@' || c == '?' || c == '#' {
            assert(!is_host_char(url@[i as int]));
            return false;
        }
    }
    true
}

fn secret_reference(reference: &str) -> (valid: bool)
    ensures
        valid == is_secret_reference(reference@),
{
    starts_with(reference, "secret://") && byte_len(reference) <= 255 && is_space_free(reference)
}

fn check_headscale(server_url: &str, opaque_secret_reference: &str, compatibility_pin: &str) -> (result:
    Result<(), StateError>)
    ensures
        match result {
            Ok(()) => headscale_problem(server_url@, opaque_secret_reference@, compatibility_pin@)
                is None,
            Err(error) => headscale_problem(
                server_url@,
                opaque_secret_reference@,
                compatibility_pin@,
            ) == Some(error@),
        },
{
    if !https_origin(server_url) {
        return Err(conflict("Headscale server URL must be a clean HTTPS origin"));
    }
    if !secret_reference(opaque_secret_reference) {
        return Err(conflict("credential must be an opaque secret:// reference, not plaintext"));
    }
    if compatibility_pin.is_empty() || byte_len(compatibility_pin) > 64 || !is_space_free(
        compatibility_pin,
    ) {
        return Err(conflict("Headscale compatibility pin is invalid"));
    }
    Ok(())
}

impl HeadscaleImportConfig {
    /// What is wrong with the configuration, if anything.
    pub open spec fn problem(self) -> Option<StateErrorView> {
        headscale_problem(
            self.server_url@,
            self.opaque_secret_reference@,
            self.compatibility_pin@,
        )
    }

    /// A read-only import of the given server.
    pub fn new(
        server_url: String,
        provider_instance_id: ProviderInstanceId,
        opaque_secret_reference: String,
        compatibility_pin: String,
        tls_verification: TlsVerificationPolicy,
    ) -> (result: Result<Self, StateError>)
        ensures
            match result {
                Ok(config) => {
                    &&& config.problem() is None
                    &&& config == (HeadscaleImportConfig {
                        server_url,
                        provider_instance_id,
                        opaque_secret_reference,
                        compatibility_pin,
                        custom_root_ca_sha256: None,
                        tls_verification,
                        read_only: true,
                        mutation_allowed: false,
                    })
                },
                Err(error) => headscale_problem(
                    server_url@,
                    opaque_secret_reference@,
                    compatibility_pin@,
                ) == Some(error@),
            },
    {
        check_headscale(
            server_url.as_str(),
            opaque_secret_reference.as_str(),
            compatibility_pin.as_str(),
        )?;
        Ok(
            HeadscaleImportConfig {
                server_url,
                provider_instance_id,
                opaque_secret_reference,
                compatibility_pin,
                custom_root_ca_sha256: None,
                tls_verification,
                read_only: true,
                mutation_allowed: false,
            },
        )
    }

    /// The same import, pinned to a root certificate.
    pub fn with_custom_root_ca_sha256(self, fingerprint: String) -> (result: Result<
        Self,
        StateError,
    >)
        ensures
            match result {
                Ok(config) => {
                    &&& is_fingerprint(fingerprint@)
                    &&& config == (HeadscaleImportConfig {
                        custom_root_ca_sha256: Some(fingerprint),
                        ..self
                    })
                },
                Err(error) => {
                    &&& !is_fingerprint(fingerprint@)
                    &&& error@ == StateErrorView::Conflict(
                        "custom root CA fingerprint must be canonical sha256"@,
                    )
                },
            },
    {
        if !valid_sha256_fingerprint(fingerprint.as_str()) {
            return Err(conflict("custom root CA fingerprint must be canonical sha256"));
        }
        let mut config = self;
        config.custom_root_ca_sha256 = Some(fingerprint);
        Ok(config)
    }

    /// Whether the configuration, whose fields anyone can set, may be stored.
    pub fn validate_for_persistence(&self) -> (result: Result<(), StateError>)
        ensures
            match result {
                Ok(()) => self.problem() is None,
                Err(error) => self.problem() == Some(error@),
            },
    {
        check_headscale(
            self.server_url.as_str(),
            self.opaque_secret_reference.as_str(),
            self.compatibility_pin.as_str(),
        )
    }
}

impl TailscaleImportConfig {
    /// A read-only import of the given tailnet.
    pub fn new(
        tailnet: String,
        provider_instance_id: ProviderInstanceId,
        opaque_secret_reference: String,
    ) -> (result: Result<Self, StateError>)
        ensures
            match result {
                Ok(config) => {
                    &&& is_tailnet(tailnet@)
                    &&& is_secret_reference(opaque_secret_reference@)
                    &&& config.tailnet == tailnet
                    &&& config.provider_instance_id == provider_instance_id
                    &&& config.opaque_secret_reference == opaque_secret_reference
                    &&& config.compatibility_pin@ == "api-v2"@
                    &&& config.read_only
                    &&& !config.mutation_allowed
                },
                Err(error) => if !is_tailnet(tailnet@) {
                    error@ == StateErrorView::Conflict("Tailscale tailnet is invalid"@)
                } else {
                    &&& !is_secret_reference(opaque_secret_reference@)
                    &&& error@ == StateErrorView::Conflict(
                        "credential must be an opaque secret:// reference, not plaintext"@,
                    )
                },
            },
    {
        if !valid_tailnet(tailnet.as_str()) {
            return Err(conflict("Tailscale tailnet is invalid"));
        }
        if !secret_reference(opaque_secret_reference.as_str()) {
            return Err(conflict("credential must be an opaque secret:// reference, not plaintext"));
        }
        Ok(
            TailscaleImportConfig {
                tailnet,
                provider_instance_id,
                opaque_secret_reference,
                compatibility_pin: "api-v2".to_owned(),
                read_only: true,
                mutation_allowed: false,
            },
        )
    }

    /// The URL under which the tailnet is reached.
    pub fn scoped_api_url(&self) -> (url: String)
        ensures
            url@ == "https://api.tailscale.com/api/v2/tailnet/"@ + self.tailnet@,
    {
        join("https://api.tailscale.com/api/v2/tailnet/", self.tailnet.as_str())
    }
}

fn valid_tailnet(name: &str) -> (valid: bool)
    ensures
        valid == is_tailnet(name@),
{
    let chars = chars_of(name);
    if chars.len() == 0 || chars.len() > 256 {
        return false;
    }
    for i in 0..chars.len()
        invariant
            chars@ == name@,
            forall|j: int| 0 <= j < i ==> is_tailnet_char(#[trigger] name@[j]),
    {
        let c = chars[i];
        if !(char_is_alphanumeric(c) || c == '.' || c == '-' || c == '_' || c == '@') {
            assert(!is_tailnet_char(name@[i as int]));
            return false;
        }
    }
    true
}

/// A stored Headscale import. The instance is what reading its identifier gave.
pub struct HeadscaleImportRow {
    pub provider_instance_id: Result<ProviderInstanceId, String>,
    pub server_url: String,
    pub opaque_secret_reference: String,
    pub compatibility_pin: String,
    pub custom_root_ca_sha256: Option<String>,
}

impl HeadscaleImportRow {
    /// What is wrong with the stored import, if anything.
    pub open spec fn problem(self) -> Option<StateErrorView> {
        match self.provider_instance_id {
            Err(text) => Some(StateErrorView::Conflict(text@)),
            Ok(_) => if headscale_problem(
                self.server_url@,
                self.opaque_secret_reference@,
                self.compatibility_pin@,
            ) is Some {
                headscale_problem(
                    self.server_url@,
                    self.opaque_secret_reference@,
                    self.compatibility_pin@,
                )
            } else if self.custom_root_ca_sha256 matches Some(fingerprint) && !is_fingerprint(
                fingerprint@,
            ) {
                Some(
                    StateErrorView::Conflict("custom root CA fingerprint must be canonical sha256"@),
                )
            } else {
                None
            },
        }
    }
}

/// The configuration of a stored Headscale import.
pub fn import_config(row: HeadscaleImportRow) -> (result: Result<
    (ProviderInstanceId, HeadscaleImportConfig),
    StateError,
>)
    ensures
        match result {
            Ok((instance, config)) => {
                &&& row.problem() is None
                &&& row.provider_instance_id == Ok::<ProviderInstanceId, String>(instance)
                &&& config == (HeadscaleImportConfig {
                    server_url: row.server_url,
                    provider_instance_id: instance,
                    opaque_secret_reference: row.opaque_secret_reference,
                    compatibility_pin: row.compatibility_pin,
                    custom_root_ca_sha256: row.custom_root_ca_sha256,
                    tls_verification: TlsVerificationPolicy::Verify,
                    read_only: true,
                    mutation_allowed: false,
                })
            },
            Err(error) => row.problem() == Some(error@),
        },
{
    let instance = match accepted(row.provider_instance_id) {
        Ok(instance) => instance,
        Err(error) => return Err(error),
    };
    let mut config = HeadscaleImportConfig::new(
        row.server_url,
        instance.clone(),
        row.opaque_secret_reference,
        row.compatibility_pin,
        TlsVerificationPolicy::Verify,
    )?;
    if let Some(fingerprint) = row.custom_root_ca_sha256 {
        config = config.with_custom_root_ca_sha256(fingerprint)?;
    }
    Ok((instance, config))
}

} // verus!
