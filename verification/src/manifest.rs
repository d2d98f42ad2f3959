//! What the manifest says of the application: its package name and its icon.

use crate::bytes::has_suffix;
use crate::density::{is_launcher, Density, LAUNCHER_FILE};
use vstd::prelude::*;
use vstd::utf8::{encode_utf8, is_ascii_chars_encode_utf8};

verus! {

/// The suffix that marks an icon reference as an XML descriptor.
pub const DESCRIPTOR_SUFFIX: &'static str = ".xml";

/// Whether `path` names an XML descriptor rather than a bitmap. The name
/// alone decides; the file is never opened for this.
pub open spec fn is_descriptor(path: Seq<char>) -> bool {
    encode_utf8(DESCRIPTOR_SUFFIX@).is_suffix_of(encode_utf8(path))
}

/// A launcher bitmap is never an XML descriptor.
pub proof fn lemma_launcher_is_bitmap(path: Seq<char>, d: Density)
    requires
        is_launcher(path, d),
    ensures
        !is_descriptor(path),
{
    reveal_strlit("/ic_launcher.png");
    reveal_strlit(".xml");
    is_ascii_chars_encode_utf8(LAUNCHER_FILE@);
    is_ascii_chars_encode_utf8(DESCRIPTOR_SUFFIX@);
    let s = encode_utf8(path);
    let file = encode_utf8(LAUNCHER_FILE@);
    let xml = encode_utf8(DESCRIPTOR_SUFFIX@);
    if xml.is_suffix_of(s) {
        assert(file[15] == s.subrange(s.len() - 16, s.len() as int)[15]);
        assert(xml[3] == s.subrange(s.len() - 4, s.len() as int)[3]);
    }
}

/// The manifest's icon reference, told apart by what it points at.
#[derive(Debug, PartialEq, Eq)]
pub enum IconReference {
    /// A bitmap, which can be read as it is.
    Bitmap(String),
    /// An XML descriptor of an adaptive icon, which is never read.
    Descriptor(String),
}

impl IconReference {
    /// The path that the reference holds.
    pub open spec fn path(self) -> Seq<char> {
        match self {
            IconReference::Bitmap(path) => path@,
            IconReference::Descriptor(path) => path@,
        }
    }

    /// Classifies an icon path by its suffix.
    pub fn classify(path: &str) -> (reference: IconReference)
        ensures
            reference.path() == path@,
            reference is Descriptor <==> is_descriptor(path@),
    {
        if has_suffix(path.as_bytes(), DESCRIPTOR_SUFFIX.as_bytes()) {
            IconReference::Descriptor(path.to_owned())
        } else {
            IconReference::Bitmap(path.to_owned())
        }
    }
}

/// What was read from the manifest.
#[derive(Debug, PartialEq, Eq)]
pub struct Manifest {
    /// The package identifier; empty where the manifest gives none.
    pub package_name: String,
    /// The path of the application icon, where the manifest names one.
    pub icon: Option<String>,
}

impl Manifest {
    /// A manifest from what its reader found. A missing package name becomes
    /// the empty string.
    pub fn new(package_name: Option<String>, icon: Option<String>) -> (manifest: Manifest)
        ensures
            manifest.package_name@ == match package_name {
                Some(name) => name@,
                None => Seq::<char>::empty(),
            },
            manifest.icon == icon,
    {
        let package_name = match package_name {
            Some(name) => name,
            None => String::new(),
        };
        Manifest { package_name, icon }
    }

    /// The icon reference, classified.
    pub fn icon_reference(&self) -> (reference: Option<IconReference>)
        ensures
            match reference {
                Some(found) => self.icon.deep_view() == Some(found.path()) && (found is Descriptor
                    <==> is_descriptor(found.path())),
                None => self.icon is None,
            },
    {
        match &self.icon {
            Some(path) => Some(IconReference::classify(path.as_str())),
            None => None,
        }
    }
}

} // verus!
