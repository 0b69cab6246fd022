//! Errors of the editor-extension steps.

use vstd::prelude::*;

verus! {

/// `std::io::Error`, carried unchanged by the error types below.
#[verifier::external_type_specification]
#[verifier::external_body]
pub struct ExIoError(std::io::Error);

/// Why the installed extensions could not be listed.
#[derive(Debug)]
pub enum GetInstalledExtensionsError {
    EmptyReturn,
    StdoutAttachError,
    IoError(std::io::Error),
}

/// Why an extension could not be installed.
#[derive(Debug)]
pub enum InstallExtensionError {
    EmptyReturn,
    StdoutAttachError,
    /// The installer wrote this message on its error stream.
    FailedToInstallExtension(String),
    GetInstalledExtensionsError(GetInstalledExtensionsError),
    IoError(std::io::Error),
}

} // verus!
