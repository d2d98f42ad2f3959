//! Density buckets and the paths of the launcher bitmaps packed for them.

use crate::bytes::{has_prefix, has_suffix};
use vstd::prelude::*;
use vstd::utf8::{encode_utf8, is_ascii_chars_encode_utf8};

verus! {

/// A screen density tier, listed from the highest pixel density to the lowest.
#[derive(Clone, Copy, PartialEq, Eq, Structural, Debug)]
pub enum Density {
    Xxxhdpi,
    Xxhdpi,
    Xhdpi,
    Hdpi,
    Mdpi,
}

/// The file name, with its leading separator, that every launcher bitmap ends in.
pub const LAUNCHER_FILE: &'static str = "/ic_launcher.png";

impl Density {
    /// Position in the fixed preference order: 0 is tried first.
    pub open spec fn rank(self) -> int {
        match self {
            Density::Xxxhdpi => 0,
            Density::Xxhdpi => 1,
            Density::Xhdpi => 2,
            Density::Hdpi => 3,
            Density::Mdpi => 4,
        }
    }

    /// What the path of a launcher bitmap of this density begins with. A
    /// qualifier may follow it before the next separator.
    pub open spec fn directory(self) -> Seq<char> {
        match self {
            Density::Xxxhdpi => "res/mipmap-xxxhdpi"@,
            Density::Xxhdpi => "res/mipmap-xxhdpi"@,
            Density::Xhdpi => "res/mipmap-xhdpi"@,
            Density::Hdpi => "res/mipmap-hdpi"@,
            Density::Mdpi => "res/mipmap-mdpi"@,
        }
    }

    /// The highest density, where every scan starts.
    pub fn highest() -> (d: Density)
        ensures
            d.rank() == 0,
    {
        Density::Xxxhdpi
    }

    /// The next density down, or `None` below the lowest.
    pub fn lower(self) -> (next: Option<Density>)
        ensures
            match next {
                Some(d) => d.rank() == self.rank() + 1,
                None => self.rank() == 4,
            },
    {
        match self {
            Density::Xxxhdpi => Some(Density::Xxhdpi),
            Density::Xxhdpi => Some(Density::Xhdpi),
            Density::Xhdpi => Some(Density::Hdpi),
            Density::Hdpi => Some(Density::Mdpi),
            Density::Mdpi => None,
        }
    }

    /// The directory prefix as a string.
    pub fn directory_str(self) -> (s: &'static str)
        ensures
            s@ == self.directory(),
    {
        match self {
            Density::Xxxhdpi => "res/mipmap-xxxhdpi",
            Density::Xxhdpi => "res/mipmap-xxhdpi",
            Density::Xhdpi => "res/mipmap-xhdpi",
            Density::Hdpi => "res/mipmap-hdpi",
            Density::Mdpi => "res/mipmap-mdpi",
        }
    }
}

/// Whether `path` names a launcher bitmap of density `d`: it begins with the
/// density's directory prefix and ends with the launcher file name. Paths are
/// compared byte by byte in their UTF-8 encoding.
pub open spec fn is_launcher(path: Seq<char>, d: Density) -> bool {
    &&& encode_utf8(d.directory()).is_prefix_of(encode_utf8(path))
    &&& encode_utf8(LAUNCHER_FILE@).is_suffix_of(encode_utf8(path))
}

/// The density buckets are disjoint: a path is a launcher bitmap of at most
/// one density.
pub proof fn lemma_one_density(path: Seq<char>, d: Density, e: Density)
    requires
        is_launcher(path, d),
        is_launcher(path, e),
    ensures
        d == e,
{
    reveal_strlit("res/mipmap-xxxhdpi");
    reveal_strlit("res/mipmap-xxhdpi");
    reveal_strlit("res/mipmap-xhdpi");
    reveal_strlit("res/mipmap-hdpi");
    reveal_strlit("res/mipmap-mdpi");
    is_ascii_chars_encode_utf8(d.directory());
    is_ascii_chars_encode_utf8(e.directory());
    let s = encode_utf8(path);
    let p = encode_utf8(d.directory());
    let q = encode_utf8(e.directory());
    assert(forall|k: int| 0 <= k < p.len() ==> p[k] == s.subrange(0, p.len() as int)[k]);
    assert(forall|k: int| 0 <= k < q.len() ==> q[k] == s.subrange(0, q.len() as int)[k]);
    assert(p[11] == s[11] && q[11] == s[11]);
    assert(p[12] == s[12] && q[12] == s[12]);
    assert(p[13] == s[13] && q[13] == s[13]);
}

/// Decides [`is_launcher`].
pub fn is_launcher_path(path: &str, d: Density) -> (yes: bool)
    ensures
        yes == is_launcher(path@, d),
{
    let bytes = path.as_bytes();
    has_prefix(bytes, d.directory_str().as_bytes()) && has_suffix(bytes, LAUNCHER_FILE.as_bytes())
}

} // verus!
