//! The settings of a session, fixed when the program starts.

use vstd::prelude::*;

verus! {

/// The mathematical value of [`Settings`].
pub struct SettingsView {
    pub api_key: Seq<char>,
    pub endpoint: Seq<char>,
    pub model: Seq<char>,
    pub max_tokens: u16,
    pub temperature_bits: u32,
}

/// What a session needs to know of the completion service. A value is made
/// once and never changes.
pub struct Settings {
    api_key: String,
    endpoint: String,
    model: String,
    max_tokens: u16,
    temperature_bits: u32,
}

/// Why settings cannot be used to start a session.
#[derive(Debug, PartialEq, Eq, Structural)]
pub enum SettingsError {
    /// The credential or the endpoint is empty.
    MissingCredentials,
}

impl SettingsError {
    /// The diagnostic for this error.
    pub fn message(&self) -> (text: String)
        ensures
            text@ == "Missing API key or endpoint"@,
    {
        match self {
            SettingsError::MissingCredentials => "Missing API key or endpoint".to_owned(),
        }
    }
}

/// Whether settings name a service: neither the credential nor the endpoint
/// is empty.
pub open spec fn has_credentials(s: SettingsView) -> bool {
    s.api_key.len() > 0 && s.endpoint.len() > 0
}

impl View for Settings {
    type V = SettingsView;

    closed spec fn view(&self) -> SettingsView {
        SettingsView {
            api_key: self.api_key@,
            endpoint: self.endpoint@,
            model: self.model@,
            max_tokens: self.max_tokens,
            temperature_bits: self.temperature_bits,
        }
    }
}

impl Settings {
    /// Settings with the given values. The sampling temperature is held as
    /// the bit pattern of a single-precision number: it is handed on to the
    /// service as it came and never computed with.
    pub fn new(
        api_key: String,
        endpoint: String,
        model: String,
        max_tokens: u16,
        temperature_bits: u32,
    ) -> (s: Settings)
        ensures
            s@ == (SettingsView {
                api_key: api_key@,
                endpoint: endpoint@,
                model: model@,
                max_tokens,
                temperature_bits,
            }),
    {
        Settings { api_key, endpoint, model, max_tokens, temperature_bits }
    }

    /// Checks that the credential and the endpoint are there.
    pub fn validate(&self) -> (r: Result<(), SettingsError>)
        ensures
            r is Ok <==> has_credentials(self@),
            r is Err ==> r == Err::<(), SettingsError>(SettingsError::MissingCredentials),
    {
        if self.api_key.as_str().is_empty() || self.endpoint.as_str().is_empty() {
            Err(SettingsError::MissingCredentials)
        } else {
            Ok(())
        }
    }

    /// The credential presented to the service.
    pub fn api_key(&self) -> (s: &str)
        ensures
            s@ == self@.api_key,
    {
        self.api_key.as_str()
    }

    /// The address of the service.
    pub fn endpoint(&self) -> (s: &str)
        ensures
            s@ == self@.endpoint,
    {
        self.endpoint.as_str()
    }

    /// The identifier of the model that answers.
    pub fn model(&self) -> (s: &str)
        ensures
            s@ == self@.model,
    {
        self.model.as_str()
    }

    /// The most tokens that one reply may have.
    pub fn max_tokens(&self) -> (n: u16)
        ensures
            n == self@.max_tokens,
    {
        self.max_tokens
    }

    /// The sampling temperature, as the bit pattern of a single-precision
    /// number.
    pub fn temperature_bits(&self) -> (bits: u32)
        ensures
            bits == self@.temperature_bits,
    {
        self.temperature_bits
    }
}

impl Clone for Settings {
    fn clone(&self) -> (s: Settings)
        ensures
            s@ == self@,
    {
        Settings {
            api_key: self.api_key.clone(),
            endpoint: self.endpoint.clone(),
            model: self.model.clone(),
            max_tokens: self.max_tokens,
            temperature_bits: self.temperature_bits,
        }
    }
}

} // verus!
