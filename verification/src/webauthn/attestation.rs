//! Building WebAuthn credential-creation options from caller-supplied
//! attestation settings: field defaulting, the resident-key rule, and base64
//! encoding of binary fields.

use vstd::prelude::*;

pub use crate::webauthn::{
    AttestationConveyancePreference, AuthenticationExtensionsClientInputs,
    AuthenticatorAttachment, AuthenticatorSelectionCriteria, AuthenticatorTransport,
    GenerateAssertionOptions, PublicKeyCredentialCreationOptions, PublicKeyCredentialDescriptor,
    PublicKeyCredentialParameters, PublicKeyCredentialRpEntity, PublicKeyCredentialType,
    PublicKeyCredentialUserEntity, ResidentKeyRequirement, UserVerificationRequirement,
};

verus! {

/// The COSE algorithm identifiers offered when the caller names none:
/// ECDSA (SHA-256, SHA-512), EdDSA, RSASSA-PSS, and RSASSA-PKCS1-v1_5.
pub const DEFAULT_COSE_ALG_ID: [i32; 10] = [
    -7,
    -8,
    -36,
    -37,
    -38,
    -39,
    -257,
    -258,
    -259,
    -65535,
];

/// The base64 rendering (standard alphabet, with padding) of a string's
/// UTF-8 bytes: a fixed but unspecified function of the characters,
/// computed by the `base64` crate.
pub uninterp spec fn base64_of(s: Seq<char>) -> Seq<char>;

/// Relies on `base64::encode`: standard-alphabet base64 with padding, a
/// deterministic function of the input bytes; four output characters for
/// every three input bytes, rounded up.
#[verifier::external_body]
fn base64_encode(s: &str) -> (r: String)
    ensures
        r@ == base64_of(s@),
        r@.len() == 4 * ((vstd::utf8::encode_utf8(s@).len() + 2) / 3),
{
    base64::encode(s)
}

/// The caller-facing attestation settings, with defaults filled in by
/// [`AttestationOptions::new`] and adjusted by the builder methods.
pub struct AttestationOptions {
    pub rp_id: String,
    pub rp_name: String,
    pub user_id: String,
    pub user_name: String,
    pub user_display_name: Option<String>,
    pub challenge: String,
    pub timeout: Option<usize>,
    pub attestation_type: Option<AttestationConveyancePreference>,
    pub exclude_credentials: Option<Vec<PublicKeyCredentialDescriptor>>,
    pub authenticator_selection: Option<AuthenticatorSelectionCriteria>,
    pub extensions: Option<AuthenticationExtensionsClientInputs>,
    pub supported_algorithm_ids: Vec<i32>,
}

impl AttestationOptions {
    /// Settings for the given relying party, challenge and user, with every
    /// optional field defaulted: a one-minute timeout, no attestation
    /// conveyance, no excluded credentials, preferred user verification
    /// without a resident key, and the default algorithm list.
    pub fn new(
        rp_id: String,
        rp_name: String,
        challenge: String,
        user_id: String,
        user_name: String,
    ) -> (o: AttestationOptions)
        ensures
            o.rp_id == rp_id,
            o.rp_name == rp_name,
            o.user_id == user_id,
            o.user_name == user_name,
            o.challenge == challenge,
            o.user_display_name is None,
            o.timeout == Some(60000usize),
            o.attestation_type == Some(AttestationConveyancePreference::NoPreference),
            o.exclude_credentials matches Some(creds) && creds@.len() == 0,
            o.authenticator_selection matches Some(sel) && sel.require_resident_key == Some(false)
                && sel.user_verification == Some(UserVerificationRequirement::Preferred)
                && sel.resident_key is None && sel.authenticator_attachment is None,
            o.extensions is None,
            o.supported_algorithm_ids@ == DEFAULT_COSE_ALG_ID@,
    {
        let mut default_ids: Vec<i32> = Vec::new();
        let mut i: usize = 0;
        while i < 10
            invariant
                i <= 10,
                default_ids@.len() == i as int,
                forall|j: int| 0 <= j < i ==> default_ids@[j] == DEFAULT_COSE_ALG_ID@[j],
            decreases 10 - i,
        {
            default_ids.push(DEFAULT_COSE_ALG_ID[i]);
            i = i + 1;
        }
        proof {
            assert(default_ids@ =~= DEFAULT_COSE_ALG_ID@);
        }
        AttestationOptions {
            rp_id,
            rp_name,
            user_id,
            user_name,
            challenge,
            timeout: Some(60000),
            attestation_type: Some(AttestationConveyancePreference::NoPreference),
            exclude_credentials: Some(Vec::new()),
            authenticator_selection: Some(
                AuthenticatorSelectionCriteria {
                    require_resident_key: Some(false),
                    user_verification: Some(UserVerificationRequirement::Preferred),
                    resident_key: None,
                    authenticator_attachment: None,
                },
            ),
            extensions: None,
            user_display_name: None,
            supported_algorithm_ids: default_ids,
        }
    }

    /// Replaces the offered COSE algorithm identifiers.
    pub fn with_supported_algorithm_ids(&mut self, supported_algorithm_ids: Vec<i32>)
        ensures
            *final(self) == (AttestationOptions {
                supported_algorithm_ids,
                ..*old(self)
            }),
    {
        self.supported_algorithm_ids = supported_algorithm_ids;
    }

    /// Sets the user's display name.
    pub fn with_user_display_name(&mut self, user_display_name: String)
        ensures
            *final(self) == (AttestationOptions {
                user_display_name: Some(user_display_name),
                ..*old(self)
            }),
    {
        self.user_display_name = Some(user_display_name);
    }

    /// Sets the client extension inputs.
    pub fn with_extensions(&mut self, extensions: AuthenticationExtensionsClientInputs)
        ensures
            *final(self) == (AttestationOptions { extensions: Some(extensions), ..*old(self) }),
    {
        self.extensions = Some(extensions);
    }

    /// Sets the credentials to exclude from creation.
    pub fn with_exclude_credentials(
        &mut self,
        exclude_credentials: Vec<PublicKeyCredentialDescriptor>,
    )
        ensures
            *final(self) == (AttestationOptions {
                exclude_credentials: Some(exclude_credentials),
                ..*old(self)
            }),
    {
        self.exclude_credentials = Some(exclude_credentials);
    }

    /// Sets the timeout, in milliseconds.
    pub fn with_timeout(&mut self, timeout: usize)
        ensures
            *final(self) == (AttestationOptions { timeout: Some(timeout), ..*old(self) }),
    {
        self.timeout = Some(timeout);
    }

    /// Sets the attestation conveyance preference.
    pub fn with_attestation_type(&mut self, attestation_type: AttestationConveyancePreference)
        ensures
            *final(self) == (AttestationOptions {
                attestation_type: Some(attestation_type),
                ..*old(self)
            }),
    {
        self.attestation_type = Some(attestation_type);
    }
}

/// Turns attestation settings into credential-creation options: entities are
/// assembled from the flat fields, the challenge and the excluded credential
/// identifiers are base64-encoded, each algorithm identifier becomes a
/// public-key parameter, and `require_resident_key` is forced to true when a
/// resident key is required (the WebAuthn rule that relying parties should
/// set it if, and only if, `resident_key` is `"required"`).
pub fn generate_attestation_options(options: AttestationOptions) -> (r:
    PublicKeyCredentialCreationOptions)
    ensures
        r.rp.id == options.rp_id,
        r.rp.name == options.rp_name,
        r.user.id == options.user_id,
        r.user.display_name == options.user_display_name,
        r.user.name == options.user_name,
        r.challenge@ == base64_of(options.challenge@),
        r.pub_key_cred_params@.len() == options.supported_algorithm_ids@.len(),
        forall|i: int|
            0 <= i < options.supported_algorithm_ids@.len()
                ==> (#[trigger] r.pub_key_cred_params@[i]).alg
                == options.supported_algorithm_ids@[i] && r.pub_key_cred_params@[i].credential_type
                == PublicKeyCredentialType::PublicKey,
        options.exclude_credentials is None ==> r.exclude_credentials is None,
        options.exclude_credentials matches Some(creds) ==> r.exclude_credentials matches Some(out)
            && out@.len() == creds@.len() && forall|i: int|
            0 <= i < creds@.len() ==> (#[trigger] out@[i]).id@ == base64_of(creds@[i].id@)
                && out@[i].transports == creds@[i].transports && out@[i].credential_type
                == creds@[i].credential_type,
        r.extensions == options.extensions,
        r.attestation == options.attestation_type,
        r.timeout == options.timeout,
        options.authenticator_selection is None ==> r.authenticator_selection is None,
        options.authenticator_selection matches Some(sel) ==> r.authenticator_selection matches Some(
            out,
        ) && out.authenticator_attachment == sel.authenticator_attachment && out.resident_key
            == sel.resident_key && out.user_verification == sel.user_verification
            && out.require_resident_key == (if sel.resident_key == Some(
            ResidentKeyRequirement::Required,
        ) {
            Some(true)
        } else {
            sel.require_resident_key
        }),
{
    let authenticator_selection: Option<AuthenticatorSelectionCriteria> = match options
        .authenticator_selection {
        Some(sel) => {
            match sel.resident_key {
                Some(ResidentKeyRequirement::Required) => Some(
                    AuthenticatorSelectionCriteria { require_resident_key: Some(true), ..sel },
                ),
                _ => Some(sel),
            }
        },
        None => None,
    };

    let exclude_credentials: Option<Vec<PublicKeyCredentialDescriptor>> = match options
        .exclude_credentials {
        Some(creds) => {
            let mut encoded: Vec<PublicKeyCredentialDescriptor> = Vec::new();
            let mut i: usize = 0;
            while i < creds.len()
                invariant
                    i <= creds@.len(),
                    encoded@.len() == i as int,
                    forall|j: int|
                        0 <= j < i ==> (#[trigger] encoded@[j]).id@ == base64_of(creds@[j].id@)
                            && encoded@[j].transports == creds@[j].transports
                            && encoded@[j].credential_type == creds@[j].credential_type,
                decreases creds@.len() - i,
            {
                let id = base64_encode(creds[i].id.as_str());
                encoded.push(
                    PublicKeyCredentialDescriptor {
                        id,
                        transports: creds[i].transports,
                        credential_type: creds[i].credential_type,
                    },
                );
                i = i + 1;
            }
            Some(encoded)
        },
        None => None,
    };

    let mut pub_key_cred_params: Vec<PublicKeyCredentialParameters> = Vec::new();
    let mut i: usize = 0;
    while i < options.supported_algorithm_ids.len()
        invariant
            i <= options.supported_algorithm_ids@.len(),
            pub_key_cred_params@.len() == i as int,
            forall|j: int|
                0 <= j < i ==> (#[trigger] pub_key_cred_params@[j]).alg
                    == options.supported_algorithm_ids@[j]
                    && pub_key_cred_params@[j].credential_type
                    == PublicKeyCredentialType::PublicKey,
        decreases options.supported_algorithm_ids@.len() - i,
    {
        pub_key_cred_params.push(
            PublicKeyCredentialParameters {
                alg: options.supported_algorithm_ids[i],
                credential_type: PublicKeyCredentialType::PublicKey,
            },
        );
        i = i + 1;
    }

    PublicKeyCredentialCreationOptions {
        rp: PublicKeyCredentialRpEntity { name: options.rp_name, id: options.rp_id },
        user: PublicKeyCredentialUserEntity {
            id: options.user_id,
            display_name: options.user_display_name,
            name: options.user_name,
        },
        challenge: base64_encode(options.challenge.as_str()),
        pub_key_cred_params,
        exclude_credentials,
        extensions: options.extensions,
        attestation: options.attestation_type,
        authenticator_selection,
        timeout: options.timeout,
    }
}

} // verus!
