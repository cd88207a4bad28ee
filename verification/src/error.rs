//! Error taxonomy for configuration loading, artifact generation and
//! reconciliation.
//!
//! Every fatal condition surfaces as one of these variants together with a
//! descriptive message; [`Error::message`] renders the message exactly as the
//! taxonomy prescribes.

use vstd::prelude::*;
use vstd::string::*;

verus! {

/// Errors that the library's operations can surface.
#[derive(Debug, Clone)]
pub enum Error {
    /// A named template is not registered.
    TemplateNotFound(String),
    /// A named preset is not known.
    PresetNotFound(String),
    /// The configuration document is invalid: schema, field or reference
    /// errors all carry their description here.
    InvalidTemplate(String),
    /// A file or directory operation failed.
    IoError(String),
    /// A required path does not exist.
    PathNotFound(String),
    /// A placeholder substitution was rejected.
    InvalidSubstitution(String),
    /// Any other failure, message only.
    Other(String),
    /// A marketplace reference is malformed.
    InvalidMarketplace(String),
    /// A plugin was not found in its marketplace.
    PluginNotFound(String),
    /// A plugin entry is malformed.
    InvalidPlugin(String),
    /// A marketplace operation failed.
    MarketplaceError(String),
}

impl Error {
    /// The rendered message of this error, prefix included.
    pub open spec fn spec_message(&self) -> Seq<char> {
        match self {
            Error::TemplateNotFound(s) => "Template not found: "@ + s@,
            Error::PresetNotFound(s) => "Preset not found: "@ + s@,
            Error::InvalidTemplate(s) => "Invalid template configuration: "@ + s@,
            Error::IoError(s) => "I/O error: "@ + s@,
            Error::PathNotFound(s) => "Path not found: "@ + s@,
            Error::InvalidSubstitution(s) => "Invalid substitution: "@ + s@,
            Error::Other(s) => s@,
            Error::InvalidMarketplace(s) => "Invalid marketplace: "@ + s@,
            Error::PluginNotFound(s) => "Plugin not found: "@ + s@,
            Error::InvalidPlugin(s) => "Invalid plugin: "@ + s@,
            Error::MarketplaceError(s) => "Marketplace error: "@ + s@,
        }
    }

    /// Render the error as its user-visible message.
    pub fn message(&self) -> (r: String)
        ensures
            r@ == self.spec_message(),
    {
        match self {
            Error::TemplateNotFound(s) => {
                let mut m = "Template not found: ".to_owned();
                m.append(s.as_str());
                m
            },
            Error::PresetNotFound(s) => {
                let mut m = "Preset not found: ".to_owned();
                m.append(s.as_str());
                m
            },
            Error::InvalidTemplate(s) => {
                let mut m = "Invalid template configuration: ".to_owned();
                m.append(s.as_str());
                m
            },
            Error::IoError(s) => {
                let mut m = "I/O error: ".to_owned();
                m.append(s.as_str());
                m
            },
            Error::PathNotFound(s) => {
                let mut m = "Path not found: ".to_owned();
                m.append(s.as_str());
                m
            },
            Error::InvalidSubstitution(s) => {
                let mut m = "Invalid substitution: ".to_owned();
                m.append(s.as_str());
                m
            },
            Error::Other(s) => s.clone(),
            Error::InvalidMarketplace(s) => {
                let mut m = "Invalid marketplace: ".to_owned();
                m.append(s.as_str());
                m
            },
            Error::PluginNotFound(s) => {
                let mut m = "Plugin not found: ".to_owned();
                m.append(s.as_str());
                m
            },
            Error::InvalidPlugin(s) => {
                let mut m = "Invalid plugin: ".to_owned();
                m.append(s.as_str());
                m
            },
            Error::MarketplaceError(s) => {
                let mut m = "Marketplace error: ".to_owned();
                m.append(s.as_str());
                m
            },
        }
    }
}

} // verus!
