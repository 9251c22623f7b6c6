//! WebAuthn credential-creation data shapes: plain structures handed to and
//! returned by the attestation-options builder.

use vstd::prelude::*;

pub mod attestation;

verus! {

#[derive(Debug, PartialEq, Clone, Copy)]
pub enum PublicKeyCredentialType {
    PublicKey,
}

#[derive(Debug, PartialEq, Clone, Copy)]
pub enum ResidentKeyRequirement {
    Discouraged,
    Preferred,
    Required,
}

#[derive(Debug, PartialEq, Clone, Copy)]
pub enum AuthenticatorAttachment {
    CrossPlatform,
    Platform,
}

#[derive(Debug, PartialEq, Clone, Copy)]
pub enum UserVerificationRequirement {
    Discouraged,
    Preferred,
    Required,
}

#[derive(Debug, PartialEq, Clone, Copy)]
pub enum AuthenticatorTransport {
    Ble,
    Internal,
    Nfc,
    Usb,
}

#[derive(Debug, PartialEq, Clone, Copy)]
pub enum AttestationConveyancePreference {
    Direct,
    Enterprise,
    Indirect,
    NoPreference,
}

#[derive(Debug, PartialEq)]
pub struct GenerateAssertionOptions {
    pub rp_id: String,
    pub challenge: String,
    pub timeout: usize,
}

#[derive(Debug, PartialEq, Clone, Copy)]
pub struct AuthenticatorSelectionCriteria {
    pub authenticator_attachment: Option<AuthenticatorAttachment>,
    pub require_resident_key: Option<bool>,
    pub resident_key: Option<ResidentKeyRequirement>,
    pub user_verification: Option<UserVerificationRequirement>,
}

#[derive(Debug, PartialEq)]
pub struct PublicKeyCredentialDescriptor {
    pub id: String,
    pub transports: Option<AuthenticatorTransport>,
    pub credential_type: PublicKeyCredentialType,
}

#[derive(Debug, PartialEq)]
pub struct AuthenticationExtensionsClientInputs {
    pub appid: Option<String>,
    pub appid_exculde: Option<String>,
    pub cred_props: Option<bool>,
    pub uvm: Option<bool>,
}

#[derive(Debug, PartialEq)]
pub struct PublicKeyCredentialParameters {
    pub alg: i32,
    pub credential_type: PublicKeyCredentialType,
}

#[derive(Debug, PartialEq)]
pub struct PublicKeyCredentialRpEntity {
    pub id: String,
    pub name: String,
}

#[derive(Debug, PartialEq)]
pub struct PublicKeyCredentialUserEntity {
    pub id: String,
    pub display_name: Option<String>,
    pub name: String,
}

#[derive(Debug, PartialEq)]
pub struct PublicKeyCredentialCreationOptions {
    pub rp: PublicKeyCredentialRpEntity,
    pub user: PublicKeyCredentialUserEntity,
    pub challenge: String,
    pub pub_key_cred_params: Vec<PublicKeyCredentialParameters>,
    pub exclude_credentials: Option<Vec<PublicKeyCredentialDescriptor>>,
    pub extensions: Option<AuthenticationExtensionsClientInputs>,
    pub attestation: Option<AttestationConveyancePreference>,
    pub authenticator_selection: Option<AuthenticatorSelectionCriteria>,
    pub timeout: Option<usize>,
}

} // verus!
