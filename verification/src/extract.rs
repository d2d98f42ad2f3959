//! Extraction: from the bytes of a package and what its manifest says to the
//! icon and the name of the file to store it in. Reading the package file and
//! writing the icon are left to the caller.

use crate::archive::{parsed, ArchiveOpenError, Package};
use crate::manifest::{is_descriptor, Manifest};
use crate::resolve::{resolution, resolve, Icon, IconNotFound, ResolvedIcon};
use vstd::prelude::*;
use vstd::string::StringExecFns;

verus! {

/// The file extension of the extracted icon.
pub const ICON_EXTENSION: &'static str = ".png";

/// What an extraction hands to whoever stores the icon: the package name,
/// which names the output file, and the resolved icon.
#[derive(Debug, PartialEq, Eq)]
pub struct ExtractionResult {
    pub package_name: String,
    pub icon: ResolvedIcon,
}

/// Why an extraction failed.
#[derive(Clone, Copy, PartialEq, Eq, Structural, Debug)]
pub enum ExtractionError {
    /// The package is no valid container.
    Archive(ArchiveOpenError),
    /// The package holds no icon that can be taken.
    Icon(IconNotFound),
}

impl ExtractionResult {
    /// The name of the output file: the package name followed by `.png`. An
    /// empty package name leaves the bare extension.
    pub fn file_name(&self) -> (name: String)
        ensures
            name@ == self.package_name@ + ICON_EXTENSION@,
    {
        self.package_name.clone().concat(ICON_EXTENSION)
    }
}

/// What extracting from `bytes` gives, with `icon` as the manifest's icon
/// reference.
pub open spec fn extraction(bytes: Seq<u8>, icon: Option<Seq<char>>) -> Result<
    Icon,
    ExtractionError,
> {
    match parsed(bytes) {
        None => Err(ExtractionError::Archive(ArchiveOpenError)),
        Some(contents) => match resolution(contents, icon) {
            Ok(found) => Ok(found),
            Err(e) => Err(ExtractionError::Icon(e)),
        },
    }
}

/// Resolves the icon of an opened package and pairs it with the manifest's
/// package name. The bytes are those that [`resolve`] read, untouched.
pub fn extract(package: &mut Package, manifest: &Manifest) -> (extracted: Result<
    ExtractionResult,
    IconNotFound,
>)
    ensures
        final(package)@ == old(package)@,
        match (extracted, resolution(old(package)@, manifest.icon.deep_view())) {
            (Ok(result), Ok(expected)) => {
                &&& result.package_name@ == manifest.package_name@
                &&& result.icon@ == expected
                &&& !is_descriptor(result.icon.path@)
            },
            (Err(e), Err(expected)) => e == expected,
            _ => false,
        },
{
    match resolve(package, manifest) {
        Ok(icon) => Ok(ExtractionResult { package_name: manifest.package_name.clone(), icon }),
        Err(e) => Err(e),
    }
}

/// Opens the package held in `bytes` and extracts its icon. The outcome
/// depends on the bytes and the manifest's icon reference alone.
pub fn extract_icon(bytes: Vec<u8>, manifest: &Manifest) -> (extracted: Result<
    ExtractionResult,
    ExtractionError,
>)
    ensures
        match (extracted, extraction(bytes@, manifest.icon.deep_view())) {
            (Ok(result), Ok(expected)) => {
                &&& result.package_name@ == manifest.package_name@
                &&& result.icon@ == expected
                &&& !is_descriptor(result.icon.path@)
            },
            (Err(e), Err(expected)) => e == expected,
            _ => false,
        },
{
    let mut package = match Package::open(bytes) {
        Ok(package) => package,
        Err(e) => {
            return Err(ExtractionError::Archive(e));
        },
    };
    match extract(&mut package, manifest) {
        Ok(result) => Ok(result),
        Err(e) => Err(ExtractionError::Icon(e)),
    }
}

} // verus!
