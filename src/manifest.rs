//! The guest manifest: where it is, and the package name it must declare.

use vstd::prelude::*;
use vstd::string::*;
use crate::process::{join_path, path_join};

verus! {

/// What the TOML parser makes of a manifest's text: `None` when the text is
/// not a TOML document, `Some(None)` when it is one without a string at
/// `package.name`, `Some(Some(name))` otherwise.
pub uninterp spec fn toml_package_name(text: Seq<char>) -> Option<Option<Seq<char>>>;

/// Relies on toml's `Value::from_str` to parse the manifest (the error is
/// its message), and on `Value::get` and `Value::as_str` to look up the
/// string at `package.name`.
#[verifier::external_body]
fn parse_package_name(text: &str) -> (r: Result<Option<String>, String>)
    ensures
        r is Err <==> toml_package_name(text@) is None,
        r matches Ok(None) ==> toml_package_name(text@) == Some(None::<Seq<char>>),
        r matches Ok(Some(n)) ==> toml_package_name(text@) == Some(Some(n@)),
{
    let v = text.parse::<toml::Value>().map_err(|e| e.to_string())?;
    Ok(v.get("package").and_then(|p| p.get("name")).and_then(|n| n.as_str()).map(String::from))
}

/// What the caller found at a guest program's location.
#[derive(Debug)]
pub enum GuestDir {
    /// The path does not exist or is not a directory.
    NotADirectory,
    /// The directory holds no `Cargo.toml`.
    ManifestMissing,
    /// `Cargo.toml` exists but could not be read; the message of the failure.
    ManifestUnreadable(String),
    /// The text of `Cargo.toml`.
    Manifest(String),
}

/// Why a guest directory cannot be compiled.
#[derive(Debug)]
pub enum ManifestError {
    InvalidProgramPath(String),
    CargoTomlMissing { program_dir: String, manifest_path: String },
    ReadFile { path: String, message: String },
    ParseCargoToml { path: String, message: String },
    MissingPackageName { path: String },
}

/// The manifest's location inside a guest directory.
pub open spec fn spec_manifest_path(dir: Seq<char>) -> Seq<char> {
    path_join(dir, "Cargo.toml"@)
}

/// `dir/Cargo.toml`.
pub fn manifest_path(dir: &str) -> (r: String)
    ensures
        r@ == spec_manifest_path(dir@),
{
    join_path(dir, "Cargo.toml")
}

/// What reading the guest at `dir` gives, for what was found there: each
/// unusable directory or manifest is its own error, and a manifest with a
/// string at `package.name` gives that name.
pub open spec fn manifest_result(dir: Seq<char>, found: GuestDir, r: Result<String, ManifestError>) -> bool {
    match found {
        GuestDir::NotADirectory => r matches Err(ManifestError::InvalidProgramPath(p)) && p@ == dir,
        GuestDir::ManifestMissing => r matches Err(
            ManifestError::CargoTomlMissing { program_dir, manifest_path },
        ) && program_dir@ == dir && manifest_path@ == spec_manifest_path(dir),
        GuestDir::ManifestUnreadable(m) => r matches Err(ManifestError::ReadFile { path, message })
            && path@ == spec_manifest_path(dir) && message@ == m@,
        GuestDir::Manifest(text) => match toml_package_name(text@) {
            None => r matches Err(ManifestError::ParseCargoToml { path, .. }) && path@
                == spec_manifest_path(dir),
            Some(None) => r matches Err(ManifestError::MissingPackageName { path }) && path@
                == spec_manifest_path(dir),
            Some(Some(name)) => r matches Ok(n) && n@ == name,
        },
    }
}

/// The package name of the guest at `dir`, or the reason it has none.
///
/// A missing directory, a missing manifest, an unreadable manifest, text that
/// is not TOML and a manifest without `package.name` are each their own error.
pub fn guest_package_name(dir: &str, found: &GuestDir) -> (r: Result<String, ManifestError>)
    ensures
        manifest_result(dir@, *found, r),
{
    match found {
        GuestDir::NotADirectory => Err(ManifestError::InvalidProgramPath(String::from_str(dir))),
        GuestDir::ManifestMissing => Err(
            ManifestError::CargoTomlMissing {
                program_dir: String::from_str(dir),
                manifest_path: manifest_path(dir),
            },
        ),
        GuestDir::ManifestUnreadable(m) => Err(
            ManifestError::ReadFile { path: manifest_path(dir), message: m.clone() },
        ),
        GuestDir::Manifest(text) => match parse_package_name(text.as_str()) {
            Err(e) => Err(ManifestError::ParseCargoToml { path: manifest_path(dir), message: e }),
            Ok(None) => Err(ManifestError::MissingPackageName { path: manifest_path(dir) }),
            Ok(Some(n)) => Ok(n),
        },
    }
}

} // verus!
