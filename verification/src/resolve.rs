//! Icon resolution: which bytes of a package are its icon.

use crate::archive::{file_at, listing, ArchiveEntry, Contents, Package, ReadFailure};
use crate::density::{is_launcher, Density};
use crate::manifest::{is_descriptor, lemma_launcher_is_bitmap, IconReference, Manifest};
use crate::scan::{
    best_at, candidate, choice, lemma_choice_ignores_order, lemma_choice_is_launcher,
    lemma_choice_none, lemma_density_priority, select_launcher, vacant,
};
use vstd::prelude::*;

verus! {

/// Why no icon was resolved.
#[derive(Clone, Copy, PartialEq, Eq, Structural, Debug)]
pub enum IconNotFound {
    /// No launcher bitmap is packed, and the manifest names no icon.
    NoReference,
    /// No launcher bitmap is packed, and the manifest names an XML
    /// descriptor, which is no bitmap.
    Descriptor,
    /// The entry that resolution settled on could not be read.
    Read(ReadFailure),
}

/// Where resolution settled on reading the icon from.
#[derive(Debug, PartialEq, Eq)]
pub enum Source {
    /// The launcher bitmap at this position of the listing.
    Entry(usize),
    /// The bitmap that the manifest names.
    File(String),
}

/// The model of a [`Source`].
pub enum Place {
    Entry(int),
    File(Seq<char>),
}

impl View for Source {
    type V = Place;

    open spec fn view(&self) -> Place {
        match self {
            Source::Entry(index) => Place::Entry(*index as int),
            Source::File(path) => Place::File(path@),
        }
    }
}

/// The resolved icon: the bitmap's bytes, and the path they were read from,
/// which is kept for diagnostics.
#[derive(Debug, PartialEq, Eq)]
pub struct ResolvedIcon {
    pub path: String,
    pub data: Vec<u8>,
}

/// The model of a [`ResolvedIcon`].
pub struct Icon {
    pub path: Seq<char>,
    pub data: Seq<u8>,
}

impl View for ResolvedIcon {
    type V = Icon;

    open spec fn view(&self) -> Icon {
        Icon { path: self.path@, data: self.data@ }
    }
}

/// Where the icon is to be read from, given what the archive lists and what
/// the manifest names. The density scan comes first; the manifest is
/// consulted only where the scan finds nothing, and an XML descriptor is
/// never a place to read from.
pub open spec fn location(listing: Seq<Option<Seq<char>>>, icon: Option<Seq<char>>) -> Result<
    Place,
    IconNotFound,
> {
    match choice(listing) {
        Some(i) => Ok(Place::Entry(i)),
        None => match icon {
            None => Err(IconNotFound::NoReference),
            Some(path) => if is_descriptor(path) {
                Err(IconNotFound::Descriptor)
            } else {
                Ok(Place::File(path))
            },
        },
    }
}

/// The icon of a package: what is read at the place that [`location`]
/// settles on. A failure to read there is final.
pub open spec fn resolution(contents: Contents, icon: Option<Seq<char>>) -> Result<
    Icon,
    IconNotFound,
> {
    match location(listing(contents.entries), icon) {
        Ok(Place::Entry(i)) => match contents.entries[i].data {
            Some(data) => Ok(Icon { path: contents.entries[i].path.unwrap(), data }),
            None => Err(IconNotFound::Read(ReadFailure::ReadError)),
        },
        Ok(Place::File(path)) => match file_at(contents.files, path) {
            Ok(data) => Ok(Icon { path, data }),
            Err(failure) => Err(IconNotFound::Read(failure)),
        },
        Err(e) => Err(e),
    }
}

/// Decides where the icon is to be read from.
pub fn locate(paths: &Vec<Option<String>>, manifest: &Manifest) -> (found: Result<
    Source,
    IconNotFound,
>)
    ensures
        match (found, location(paths.deep_view(), manifest.icon.deep_view())) {
            (Ok(source), Ok(place)) => source@ == place,
            (Err(e), Err(expected)) => e == expected,
            _ => false,
        },
{
    match select_launcher(paths) {
        Some(i) => Ok(Source::Entry(i)),
        None => match manifest.icon_reference() {
            None => Err(IconNotFound::NoReference),
            Some(IconReference::Descriptor(_)) => Err(IconNotFound::Descriptor),
            Some(IconReference::Bitmap(path)) => Ok(Source::File(path)),
        },
    }
}

/// An XML descriptor is never resolved as the icon.
pub proof fn lemma_resolution_is_bitmap(contents: Contents, icon: Option<Seq<char>>)
    ensures
        resolution(contents, icon) matches Ok(found) ==> !is_descriptor(found.path),
{
    let paths = listing(contents.entries);
    lemma_choice_is_launcher(paths);
    if choice(paths) is Some {
        let i = choice(paths).unwrap();
        let d = choose|d: Density| candidate(paths, d, i);
        lemma_launcher_is_bitmap(paths[i].unwrap(), d);
    }
}

/// The scan comes before the manifest: where a launcher bitmap is packed,
/// what the manifest names has no part in the resolution.
pub proof fn lemma_scan_precedes_manifest(
    contents: Contents,
    d: Density,
    j: int,
    icon: Option<Seq<char>>,
    other: Option<Seq<char>>,
)
    requires
        candidate(listing(contents.entries), d, j),
    ensures
        resolution(contents, icon) == resolution(contents, other),
{
    lemma_density_priority(listing(contents.entries), d, j);
}

/// Density priority: where launcher bitmaps of density `d` are packed and
/// none of a higher density, the icon is one of them, unless reading it
/// fails.
pub proof fn lemma_highest_density_wins(
    contents: Contents,
    d: Density,
    j: int,
    icon: Option<Seq<char>>,
)
    requires
        candidate(listing(contents.entries), d, j),
        forall|e: Density| e.rank() < d.rank() ==> #[trigger] vacant(listing(contents.entries), e),
    ensures
        match resolution(contents, icon) {
            Ok(found) => is_launcher(found.path, d),
            Err(e) => e == IconNotFound::Read(ReadFailure::ReadError),
        },
{
    let paths = listing(contents.entries);
    lemma_density_priority(paths, d, j);
    let i = choice(paths).unwrap();
    let top = choose|top: Density| top.rank() <= d.rank() && #[trigger] best_at(paths, top, i);
    assert(candidate(paths, top, i));
    assert(!vacant(paths, top));
    assert(top == d);
}

/// Total absence: with no launcher bitmap packed and no icon named by the
/// manifest, nothing is resolved.
pub proof fn lemma_total_absence(contents: Contents)
    requires
        forall|d: Density| vacant(listing(contents.entries), d),
    ensures
        resolution(contents, None) == Err::<Icon, IconNotFound>(IconNotFound::NoReference),
{
    lemma_choice_none(listing(contents.entries));
}

/// Adaptive fallback: with no launcher bitmap packed, a manifest that names
/// an XML descriptor resolves to nothing, whatever the descriptor holds.
pub proof fn lemma_descriptor_is_not_read(contents: Contents, path: Seq<char>)
    requires
        forall|d: Density| vacant(listing(contents.entries), d),
        is_descriptor(path),
    ensures
        resolution(contents, Some(path)) == Err::<Icon, IconNotFound>(IconNotFound::Descriptor),
{
    lemma_choice_none(listing(contents.entries));
}

/// Direct manifest bitmap: with no launcher bitmap packed, the icon is the
/// file that the manifest names, read as it is.
pub proof fn lemma_manifest_bitmap_is_read(contents: Contents, path: Seq<char>)
    requires
        forall|d: Density| vacant(listing(contents.entries), d),
        !is_descriptor(path),
    ensures
        match (resolution(contents, Some(path)), file_at(contents.files, path)) {
            (Ok(found), Ok(data)) => found == (Icon { path, data }),
            (Err(e), Err(failure)) => e == IconNotFound::Read(failure),
            _ => false,
        },
{
    lemma_choice_none(listing(contents.entries));
}

/// No two entries share a path.
pub open spec fn paths_unique(entries: Seq<ArchiveEntry>) -> bool {
    forall|i: int, j: int|
        0 <= i < entries.len() && 0 <= j < entries.len() && (#[trigger] entries[i]).path is Some
            && entries[i].path == (#[trigger] entries[j]).path ==> i == j
}

/// Resolution does not depend on the order in which the container
/// enumerates its entries: with the same entries in another order, and no
/// path packed twice, the same icon is resolved, or the same failure.
pub proof fn lemma_resolution_ignores_order(a: Contents, b: Contents, icon: Option<Seq<char>>)
    requires
        a.entries.to_multiset() == b.entries.to_multiset(),
        a.files == b.files,
        paths_unique(a.entries),
    ensures
        resolution(a, icon) == resolution(b, icon),
{
    a.entries.to_multiset_ensures();
    b.entries.to_multiset_ensures();
    let la = listing(a.entries);
    let lb = listing(b.entries);
    assert forall|p: Option<Seq<char>>| la.contains(p) <==> lb.contains(p) by {
        if la.contains(p) {
            let i = choose|i: int| 0 <= i < la.len() && la[i] == p;
            assert(a.entries.contains(a.entries[i]));
            assert(b.entries.to_multiset().count(a.entries[i]) > 0);
            let k = choose|k: int| 0 <= k < b.entries.len() && b.entries[k] == a.entries[i];
            assert(lb[k] == p);
        }
        if lb.contains(p) {
            let i = choose|i: int| 0 <= i < lb.len() && lb[i] == p;
            assert(b.entries.contains(b.entries[i]));
            assert(a.entries.to_multiset().count(b.entries[i]) > 0);
            let k = choose|k: int| 0 <= k < a.entries.len() && a.entries[k] == b.entries[i];
            assert(la[k] == p);
        }
    }
    lemma_choice_ignores_order(la, lb);
    lemma_choice_is_launcher(la);
    if choice(la) is Some {
        let i = choice(la).unwrap();
        let j = choice(lb).unwrap();
        assert(b.entries.contains(b.entries[j]));
        assert(a.entries.to_multiset().count(b.entries[j]) > 0);
        let k = choose|k: int| 0 <= k < a.entries.len() && a.entries[k] == b.entries[j];
        assert(a.entries[k].path == a.entries[i].path);
        assert(a.entries[i] == b.entries[j]);
    }
}

/// Resolves the icon of `package`: the best launcher bitmap that is packed,
/// else the bitmap that the manifest names. The container holds the same
/// afterwards, and what is resolved is never an XML descriptor.
pub fn resolve(package: &mut Package, manifest: &Manifest) -> (resolved: Result<
    ResolvedIcon,
    IconNotFound,
>)
    ensures
        final(package)@ == old(package)@,
        match (resolved, resolution(old(package)@, manifest.icon.deep_view())) {
            (Ok(icon), Ok(expected)) => icon@ == expected && !is_descriptor(icon.path@),
            (Err(e), Err(expected)) => e == expected,
            _ => false,
        },
{
    let paths = package.list();
    proof {
        lemma_choice_is_launcher(paths.deep_view());
        lemma_resolution_is_bitmap(package@, manifest.icon.deep_view());
    }
    match locate(&paths, manifest) {
        Ok(Source::Entry(i)) => {
            let path = paths[i].as_ref().unwrap().clone();
            match package.read_at(i) {
                Ok(data) => Ok(ResolvedIcon { path, data }),
                Err(failure) => Err(IconNotFound::Read(failure)),
            }
        },
        Ok(Source::File(path)) => {
            match package.read_by_path(path.as_str()) {
                Ok(data) => Ok(ResolvedIcon { path, data }),
                Err(failure) => Err(IconNotFound::Read(failure)),
            }
        },
        Err(e) => Err(e),
    }
}

} // verus!
