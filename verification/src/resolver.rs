//! Where the tray icon comes from: a fixed chain of sources, tried in order
//! until one of them yields an icon.
//!
//! Loading is the caller's business: a lookup in the executable's resources,
//! a file next to the executable, bytes compiled into the binary. What is
//! decided here is the order of the attempts and when to stop.

use vstd::prelude::*;

verus! {

/// The number under which the executable's icon resource is looked up.
pub const ICON_RESOURCE_ORDINAL: u16 = 1;

/// A well-known name of the executable's icon resource.
#[derive(Clone, Copy, Debug, PartialEq, Eq, Structural)]
pub enum ResourceName {
    /// `MAINICON`
    MainIcon,
    /// `IDI_ICON1`
    IdiIcon1,
}

/// An icon file that may lie next to the executable.
#[derive(Clone, Copy, Debug, PartialEq, Eq, Structural)]
pub enum LocalIconFile {
    /// `de.feschber.LanMouse.ico`
    Ico,
    /// `tray-icon.png`
    Png,
}

/// One place to get the icon from.
#[derive(Clone, Copy, Debug, PartialEq, Eq, Structural)]
pub enum IconSource {
    /// A resource of the executable, looked up by name.
    NamedResource(ResourceName),
    /// A resource of the executable, looked up by [`ICON_RESOURCE_ORDINAL`].
    NumberedResource,
    /// A file next to the executable; see [`find_local_icon`].
    LocalFile,
    /// The icon compiled into the binary.
    Embedded,
}

/// An icon together with the source it came from.
#[derive(Clone, Copy, Debug, PartialEq, Eq)]
pub struct Resolved<T> {
    /// The first source that yielded an icon.
    pub source: IconSource,
    /// What that source yielded.
    pub icon: T,
}

impl ResourceName {
    /// The name as the resource table spells it.
    pub open spec fn spec_as_str(self) -> Seq<char> {
        match self {
            ResourceName::MainIcon => "MAINICON"@,
            ResourceName::IdiIcon1 => "IDI_ICON1"@,
        }
    }

    /// The name as the resource table spells it.
    pub fn as_str(self) -> (name: &'static str)
        ensures
            name@ == self.spec_as_str(),
    {
        match self {
            ResourceName::MainIcon => "MAINICON",
            ResourceName::IdiIcon1 => "IDI_ICON1",
        }
    }
}

impl LocalIconFile {
    /// The file's name.
    pub open spec fn spec_file_name(self) -> Seq<char> {
        match self {
            LocalIconFile::Ico => "de.feschber.LanMouse.ico"@,
            LocalIconFile::Png => "tray-icon.png"@,
        }
    }

    /// The file's name.
    pub fn file_name(self) -> (name: &'static str)
        ensures
            name@ == self.spec_file_name(),
    {
        match self {
            LocalIconFile::Ico => "de.feschber.LanMouse.ico",
            LocalIconFile::Png => "tray-icon.png",
        }
    }
}

/// The sources in the order in which they are tried. The embedded icon comes
/// last: it is the one source that is always there.
pub open spec fn chain() -> Seq<IconSource> {
    seq![
        IconSource::NamedResource(ResourceName::MainIcon),
        IconSource::NamedResource(ResourceName::IdiIcon1),
        IconSource::NumberedResource,
        IconSource::LocalFile,
        IconSource::Embedded,
    ]
}

impl IconSource {
    /// The place of a source in [`chain`].
    pub open spec fn position(self) -> int {
        match self {
            IconSource::NamedResource(ResourceName::MainIcon) => 0,
            IconSource::NamedResource(ResourceName::IdiIcon1) => 1,
            IconSource::NumberedResource => 2,
            IconSource::LocalFile => 3,
            IconSource::Embedded => 4,
        }
    }
}

/// `found` is what trying `candidates` one after the other with `attempt`
/// may end in: the first candidate for which the attempt gave something,
/// every candidate before it having given nothing; or nothing at all, every
/// candidate having given nothing.
pub open spec fn first_success_of<S, T, F: Fn(S) -> Option<T>>(
    candidates: Seq<S>,
    attempt: F,
    found: Option<(usize, T)>,
) -> bool {
    match found {
        Some((at, value)) => {
            &&& at < candidates.len()
            &&& call_ensures(attempt, (candidates[at as int],), Some(value))
            &&& forall|j: int|
                0 <= j < at ==> call_ensures(attempt, (#[trigger] candidates[j],), None::<T>)
        },
        None => forall|j: int|
            0 <= j < candidates.len() ==> call_ensures(
                attempt,
                (#[trigger] candidates[j],),
                None::<T>,
            ),
    }
}

/// `found` is what resolving with `load` may end in: the icon of the first
/// source of the chain that `load` got one from, or nothing where `load` got
/// none from any source.
pub open spec fn resolution_of<T, F: Fn(IconSource) -> Option<T>>(
    load: F,
    found: Option<Resolved<T>>,
) -> bool {
    match found {
        Some(resolved) => {
            &&& call_ensures(load, (resolved.source,), Some(resolved.icon))
            &&& forall|j: int|
                0 <= j < resolved.source.position() ==> call_ensures(
                    load,
                    (#[trigger] chain()[j],),
                    None::<T>,
                )
        },
        None => forall|j: int|
            0 <= j < chain().len() ==> call_ensures(load, (#[trigger] chain()[j],), None::<T>),
    }
}

/// Tries `candidates` in order and stops at the first for which `attempt`
/// gives something. Returns that candidate's index and what it gave. No
/// candidate after it is tried.
pub fn first_success<S: Copy, T, F: Fn(S) -> Option<T>>(candidates: &Vec<S>, attempt: F) -> (found:
    Option<(usize, T)>)
    requires
        forall|i: int| 0 <= i < candidates@.len() ==> call_requires(attempt, (candidates@[i],)),
    ensures
        first_success_of(candidates@, attempt, found),
{
    let mut at: usize = 0;
    while at < candidates.len()
        invariant
            at <= candidates@.len(),
            forall|i: int| 0 <= i < candidates@.len() ==> call_requires(attempt, (candidates@[i],)),
            forall|j: int|
                0 <= j < at ==> call_ensures(attempt, (#[trigger] candidates@[j],), None::<T>),
        decreases candidates@.len() - at,
    {
        match attempt(candidates[at]) {
            Some(value) => {
                return Some((at, value));
            },
            None => {},
        }
        at = at + 1;
    }
    None
}

/// The sources in the order in which they are tried.
pub fn source_chain() -> (sources: Vec<IconSource>)
    ensures
        sources@ == chain(),
{
    let mut sources: Vec<IconSource> = Vec::new();
    sources.push(IconSource::NamedResource(ResourceName::MainIcon));
    sources.push(IconSource::NamedResource(ResourceName::IdiIcon1));
    sources.push(IconSource::NumberedResource);
    sources.push(IconSource::LocalFile);
    sources.push(IconSource::Embedded);
    sources
}

/// Gets the icon from the first source of the chain that has one. `load`
/// makes one attempt: it returns the icon, or `None` where the source is
/// missing or what it holds is no image. A failed attempt moves on to the next
/// source; only when the last one has failed is there no icon.
pub fn resolve<T, F: Fn(IconSource) -> Option<T>>(load: F) -> (found: Option<Resolved<T>>)
    requires
        forall|source: IconSource| call_requires(load, (source,)),
    ensures
        resolution_of(load, found),
{
    let sources: Vec<IconSource> = source_chain();
    match first_success(&sources, load) {
        Some((at, icon)) => Some(Resolved { source: sources[at], icon }),
        None => None,
    }
}

/// Picks the icon file next to the executable: the first of the known file
/// names, in their order, for which `is_there` says yes.
pub fn find_local_icon<F: Fn(LocalIconFile) -> bool>(is_there: F) -> (found: Option<LocalIconFile>)
    requires
        forall|file: LocalIconFile| call_requires(is_there, (file,)),
    ensures
        match found {
            Some(file) => {
                &&& call_ensures(is_there, (file,), true)
                &&& file == LocalIconFile::Png ==> call_ensures(is_there, (LocalIconFile::Ico,), false)
            },
            None => {
                &&& call_ensures(is_there, (LocalIconFile::Ico,), false)
                &&& call_ensures(is_there, (LocalIconFile::Png,), false)
            },
        },
{
    if is_there(LocalIconFile::Ico) {
        Some(LocalIconFile::Ico)
    } else if is_there(LocalIconFile::Png) {
        Some(LocalIconFile::Png)
    } else {
        None
    }
}

/// As long as the embedded icon loads, there is an icon: however many of the
/// sources before it fail, resolving does not come back empty.
pub proof fn embedded_fallback_always_resolves<T, F: Fn(IconSource) -> Option<T>>(
    load: F,
    found: Option<Resolved<T>>,
)
    requires
        resolution_of(load, found),
        forall|icon: Option<T>| call_ensures(load, (IconSource::Embedded,), icon) ==> icon is Some,
    ensures
        found is Some,
{
    if found is None {
        assert(chain()[4] == IconSource::Embedded);
    }
}

/// Where every source up to some place in the chain fails and the source at
/// that place loads, resolving ends at exactly that source.
pub proof fn first_loading_source_wins<T, F: Fn(IconSource) -> Option<T>>(
    load: F,
    found: Option<Resolved<T>>,
    winner: IconSource,
)
    requires
        resolution_of(load, found),
        forall|icon: Option<T>| call_ensures(load, (winner,), icon) ==> icon is Some,
        forall|j: int, icon: Option<T>|
            0 <= j < winner.position() && #[trigger] call_ensures(load, (chain()[j],), icon)
                ==> icon is None,
    ensures
        found is Some,
        found->0.source == winner,
{
    assert(chain()[winner.position()] == winner);
    match found {
        Some(resolved) => {
            let source = resolved.source;
            assert(chain()[source.position()] == source);
            if source.position() < winner.position() {
                assert(call_ensures(load, (chain()[source.position()],), Some(resolved.icon)));
            }
        },
        None => {},
    }
}

} // verus!
