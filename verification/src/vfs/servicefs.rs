//! Service discovery (`/svc`).
//!
//! [`ServiceFs`] serves the integrations of a tenant as virtual files under `/svc`, and
//! hands everything else to the filesystem inside. Nothing under `/svc` can be
//! changed.
use crate::path::{is_under, trim_slashes, under, without_trailing_slashes};
use crate::text::{after_slash, before_slash, copy, opt_text, skip, split_once, texts};
use crate::types::vfs::{bytes_out, directory, metadata_out, names_out, FsMetadata, VfsError, VfsErrorView, VfsSnapshot, VirtualFs};
use crate::vfs::synthetic::{found, found_text, is_read_only, is_sorted_copy, read_only_error, sized, sorted_listing};
use vstd::prelude::*;
use vstd::string::*;

verus! {

broadcast use vstd::seq_lib::group_seq_properties;

/// The integrations that are available to the current tenant.
pub trait IntegrationLister: Sized {
    /// All integration names.
    fn integration_names(&self) -> (r: Vec<String>);

    /// JSON metadata for the named integration, or `None` if not found.
    fn integration_metadata(&self, name: &str) -> (r: Option<String>);

    /// Generated README markdown, or `None` if not found.
    fn integration_readme(&self, name: &str) -> (r: Option<String>);

    /// Skill names available for the named integration.
    fn integration_skill_names(&self, name: &str) -> (r: Vec<String>);
}

/// The lister may answer `r` when it is asked for the metadata of `name`.
pub open spec fn metadata_is<I: IntegrationLister>(lister: I, name: Seq<char>, r: Option<Seq<char>>) -> bool {
    exists|n: &str, v: Option<String>|
        n@ == name && r == opt_text(v) && #[trigger] call_ensures(I::integration_metadata, (&lister, n), v)
}

/// The lister may answer `r` when it is asked for the README of `name`.
pub open spec fn readme_is<I: IntegrationLister>(lister: I, name: Seq<char>, r: Option<Seq<char>>) -> bool {
    exists|n: &str, v: Option<String>|
        n@ == name && r == opt_text(v) && #[trigger] call_ensures(I::integration_readme, (&lister, n), v)
}

/// The lister may answer `r` when it is asked for the skills of `name`.
pub open spec fn skills_are<I: IntegrationLister>(lister: I, name: Seq<char>, r: Seq<Seq<char>>) -> bool {
    exists|n: &str, v: Vec<String>|
        n@ == name && r == texts(v@) && #[trigger] call_ensures(I::integration_skill_names, (&lister, n), v)
}

/// The lister may answer `r` when it is asked for all names.
pub open spec fn names_are<I: IntegrationLister>(lister: I, r: Seq<Seq<char>>) -> bool {
    exists|v: Vec<String>| r == texts(v@) && #[trigger] call_ensures(I::integration_names, (&lister,), v)
}

// ---- Paths -------------------------------------------------------------------

/// The path, without slashes at its end, is `/svc` or lies under it.
pub open spec fn is_service_path(path: Seq<char>) -> bool {
    under(trim_slashes(path), "/svc"@)
}

/// What a path under `/svc` names.
pub enum ServicePath {
    /// `/svc` itself.
    Root,
    /// The directory of an integration.
    Integration(Seq<char>),
    /// What stands in the directory of an integration.
    Entry { name: Seq<char>, file: Seq<char> },
}

/// What follows `/svc/`.
pub open spec fn service_tail(path: Seq<char>) -> Seq<char> {
    trim_slashes(path).skip(5)
}

/// What a path under `/svc` names.
pub open spec fn service_path(path: Seq<char>) -> ServicePath {
    if trim_slashes(path) == "/svc"@ {
        ServicePath::Root
    } else {
        match after_slash(service_tail(path)) {
            None => ServicePath::Integration(before_slash(service_tail(path))),
            Some(file) => ServicePath::Entry { name: before_slash(service_tail(path)), file },
        }
    }
}

fn is_svc(path: &str) -> (r: bool)
    ensures
        r == is_service_path(path@),
{
    is_under(without_trailing_slashes(path).as_str(), "/svc")
}

/// Strip the `/svc/` prefix and trailing slashes. `None` for `/svc` itself; otherwise
/// the integration, and what follows it.
fn svc_tail(path: &str) -> (r: Option<(String, Option<String>)>)
    requires
        is_service_path(path@),
    ensures
        match r {
            None => service_path(path@) is Root,
            Some(parts) => match service_path(path@) {
                ServicePath::Root => false,
                ServicePath::Integration(name) => parts.0@ == name && parts.1 is None,
                ServicePath::Entry { name, file } => parts.0@ == name && opt_text(parts.1) == Some(file),
            },
        },
{
    let trimmed = without_trailing_slashes(path);
    if *trimmed.as_str() == *"/svc" {
        None
    } else {
        proof {
            reveal_strlit("/svc");
            assert("/svc"@.push('/').len() == 5);
        }
        Some(split_once(skip(trimmed.as_str(), 5)))
    }
}

/// The integration that a path is about, where the path lies under `/svc`, and `svc` for the
/// directory itself.
pub open spec fn asked_integration(path: Seq<char>) -> Option<Seq<char>> {
    if is_service_path(path) {
        match service_path(path) {
            ServicePath::Root => Some("svc"@),
            ServicePath::Integration(name) => Some(name),
            ServicePath::Entry { name, file } => Some(name),
        }
    } else {
        None
    }
}

/// The integration that a path is about, where it is about one.
pub fn svc_integration(path: &str) -> (r: Option<String>)
    ensures
        opt_text(r) == asked_integration(path@),
{
    if !is_svc(path) {
        return None;
    }
    match svc_tail(path) {
        Some(parts) => Some(parts.0),
        None => Some(copy("svc")),
    }
}

// ---- Answers -----------------------------------------------------------------

/// What reading a path under `/svc` may give.
pub open spec fn service_reads<I: IntegrationLister>(
    lister: I,
    path: Seq<char>,
    out: Result<Seq<u8>, VfsErrorView>,
) -> bool {
    match service_path(path) {
        ServicePath::Entry { name, file } => if file == "README.md"@ {
            exists|r: Option<Seq<char>>| #[trigger] readme_is(lister, name, r) && out == found(path, r)
        } else if file == "config.json"@ {
            exists|r: Option<Seq<char>>| #[trigger] metadata_is(lister, name, r) && out == found(path, r)
        } else {
            out == Err::<Seq<u8>, VfsErrorView>(VfsErrorView::NotFound(path))
        },
        _ => out == Err::<Seq<u8>, VfsErrorView>(VfsErrorView::NotAFile(path)),
    }
}

/// What the metadata of a path under `/svc` may be, where the lister answers `m` for
/// the integration.
pub open spec fn service_entry_describes<I: IntegrationLister>(
    lister: I,
    path: Seq<char>,
    m: Option<Seq<char>>,
    out: Result<FsMetadata, VfsErrorView>,
) -> bool {
    if m is None {
        out == Err::<FsMetadata, VfsErrorView>(VfsErrorView::NotFound(path))
    } else {
        match service_path(path) {
            ServicePath::Entry { name, file } => if file == "skills"@ {
                out == Ok::<FsMetadata, VfsErrorView>(directory())
            } else if file == "README.md"@ || file == "config.json"@ {
                exists|bytes: Result<Seq<u8>, VfsErrorView>| #[trigger]
                    service_reads(lister, path, bytes) && out == sized(bytes)
            } else {
                out == Err::<FsMetadata, VfsErrorView>(VfsErrorView::NotFound(path))
            },
            _ => out == Ok::<FsMetadata, VfsErrorView>(directory()),
        }
    }
}

/// The integration that a path under `/svc` is about.
pub open spec fn integration_of(path: ServicePath) -> Seq<char> {
    match path {
        ServicePath::Root => Seq::empty(),
        ServicePath::Integration(name) => name,
        ServicePath::Entry { name, file } => name,
    }
}

/// What the metadata of a path under `/svc` may be.
pub open spec fn service_describes<I: IntegrationLister>(
    lister: I,
    path: Seq<char>,
    out: Result<FsMetadata, VfsErrorView>,
) -> bool {
    if service_path(path) is Root {
        out == Ok::<FsMetadata, VfsErrorView>(directory())
    } else {
        exists|m: Option<Seq<char>>| #[trigger]
            metadata_is(lister, integration_of(service_path(path)), m) && service_entry_describes(
                lister,
                path,
                m,
                out,
            )
    }
}

/// Whether a path under `/svc` may exist.
pub open spec fn service_has<I: IntegrationLister>(lister: I, path: Seq<char>, out: bool) -> bool {
    exists|m: Result<FsMetadata, VfsErrorView>| #[trigger] service_describes(lister, path, m) && out == (m is Ok)
}

/// The entries of the directory of an integration.
pub open spec fn integration_entries() -> Seq<Seq<char>> {
    seq!["README.md"@, "config.json"@, "skills"@]
}

/// What listing a path under `/svc` may give, where the lister answers `m` for the
/// integration.
pub open spec fn service_entry_lists<I: IntegrationLister>(
    lister: I,
    path: Seq<char>,
    m: Option<Seq<char>>,
    out: Result<Seq<Seq<char>>, VfsErrorView>,
) -> bool {
    if m is None {
        out == Err::<Seq<Seq<char>>, VfsErrorView>(VfsErrorView::NotFound(path))
    } else {
        match service_path(path) {
            ServicePath::Entry { name, file } => if file == "skills"@ {
                exists|names: Seq<Seq<char>>| #[trigger]
                    skills_are(lister, name, names) && out == Ok::<Seq<Seq<char>>, VfsErrorView>(names)
            } else {
                out == Err::<Seq<Seq<char>>, VfsErrorView>(VfsErrorView::NotFound(path))
            },
            _ => out == Ok::<Seq<Seq<char>>, VfsErrorView>(integration_entries()),
        }
    }
}

/// What listing a path under `/svc` may give.
pub open spec fn service_lists<I: IntegrationLister>(
    lister: I,
    path: Seq<char>,
    out: Result<Seq<Seq<char>>, VfsErrorView>,
) -> bool {
    if service_path(path) is Root {
        exists|names: Seq<Seq<char>>| #[trigger] names_are(lister, names) && is_sorted_copy(names, out)
    } else {
        exists|m: Option<Seq<char>>| #[trigger]
            metadata_is(lister, integration_of(service_path(path)), m) && service_entry_lists(lister, path, m, out)
    }
}

fn ask_metadata<I: IntegrationLister>(lister: &I, name: &str) -> (r: Option<String>)
    ensures
        metadata_is(*lister, name@, opt_text(r)),
{
    lister.integration_metadata(name)
}

fn ask_readme<I: IntegrationLister>(lister: &I, name: &str) -> (r: Option<String>)
    ensures
        readme_is(*lister, name@, opt_text(r)),
{
    lister.integration_readme(name)
}

fn ask_skills<I: IntegrationLister>(lister: &I, name: &str) -> (r: Vec<String>)
    ensures
        skills_are(*lister, name@, texts(r@)),
{
    lister.integration_skill_names(name)
}

fn ask_names<I: IntegrationLister>(lister: &I) -> (r: Vec<String>)
    ensures
        names_are(*lister, texts(r@)),
{
    lister.integration_names()
}

/// Reads a path under `/svc`.
fn svc_read<I: IntegrationLister>(integrations: &I, path: &str) -> (r: Result<Vec<u8>, VfsError>)
    requires
        is_service_path(path@),
    ensures
        service_reads(*integrations, path@, bytes_out(r)),
{
    match svc_tail(path) {
        Some((name, Some(file))) => if *file.as_str() == *"README.md" {
            found_text(path, ask_readme(integrations, name.as_str()))
        } else if *file.as_str() == *"config.json" {
            found_text(path, ask_metadata(integrations, name.as_str()))
        } else {
            Err(VfsError::NotFound(copy(path)))
        },
        _ => Err(VfsError::NotAFile(copy(path))),
    }
}

/// Lists a path under `/svc`.
fn svc_list_dir<I: IntegrationLister>(integrations: &I, path: &str) -> (r: Result<Vec<String>, VfsError>)
    requires
        is_service_path(path@),
    ensures
        service_lists(*integrations, path@, names_out(r)),
{
    match svc_tail(path) {
        None => {
            sorted_listing(ask_names(integrations))
        },
        Some((name, sub)) => {
            let metadata = ask_metadata(integrations, name.as_str());
            let ghost m = opt_text(metadata);
            assert(metadata_is(*integrations, integration_of(service_path(path@)), m));
            if metadata.is_none() {
                assert(service_entry_lists(*integrations, path@, m, Err(VfsErrorView::NotFound(path@))));
                return Err(VfsError::NotFound(copy(path)));
            }
            match sub {
                None => {
                    let out = vec![copy("README.md"), copy("config.json"), copy("skills")];
                    assert(texts(out@) =~= integration_entries());
                    assert(service_entry_lists(*integrations, path@, m, Ok(texts(out@))));
                    Ok(out)
                },
                Some(file) => if *file.as_str() == *"skills" {
                    let out = ask_skills(integrations, name.as_str());
                    assert(service_entry_lists(*integrations, path@, m, Ok(texts(out@))));
                    Ok(out)
                } else {
                    assert(service_entry_lists(*integrations, path@, m, Err(VfsErrorView::NotFound(path@))));
                    Err(VfsError::NotFound(copy(path)))
                },
            }
        },
    }
}

/// The metadata of a path under `/svc`.
fn svc_metadata<I: IntegrationLister>(integrations: &I, path: &str) -> (r: Result<FsMetadata, VfsError>)
    requires
        is_service_path(path@),
    ensures
        service_describes(*integrations, path@, metadata_out(r)),
{
    match svc_tail(path) {
        None => Ok(FsMetadata::dir()),
        Some((name, sub)) => {
            let metadata = ask_metadata(integrations, name.as_str());
            let ghost m = opt_text(metadata);
            assert(metadata_is(*integrations, integration_of(service_path(path@)), m));
            let r = if metadata.is_none() {
                Err(VfsError::NotFound(copy(path)))
            } else {
                match sub {
                    None => Ok(FsMetadata::dir()),
                    Some(file) => if *file.as_str() == *"skills" {
                        Ok(FsMetadata::dir())
                    } else if *file.as_str() == *"README.md" || *file.as_str() == *"config.json" {
                        let bytes = svc_read(integrations, path);
                        assert(service_reads(*integrations, path@, bytes_out(bytes)));
                        match bytes {
                            Ok(data) => Ok(FsMetadata::file(data.len())),
                            Err(e) => Err(e),
                        }
                    } else {
                        Err(VfsError::NotFound(copy(path)))
                    },
                }
            };
            assert(service_entry_describes(*integrations, path@, m, metadata_out(r)));
            r
        },
    }
}

/// Whether a path under `/svc` exists.
fn svc_exists<I: IntegrationLister>(integrations: &I, path: &str) -> (r: bool)
    requires
        is_service_path(path@),
    ensures
        service_has(*integrations, path@, r),
{
    let metadata = svc_metadata(integrations, path);
    assert(service_describes(*integrations, path@, metadata_out(metadata)));
    metadata.is_ok()
}

// ---- The filesystem ----------------------------------------------------------

/// A read-only layer that serves `/svc/**`.
pub struct ServiceFs<V: VirtualFs, I: IntegrationLister> {
    inner: V,
    integrations: I,
}

impl<V: VirtualFs, I: IntegrationLister> ServiceFs<V, I> {
    /// The filesystem inside.
    pub closed spec fn inner_fs(&self) -> V {
        self.inner
    }

    /// Where the integrations come from.
    pub closed spec fn lister(&self) -> I {
        self.integrations
    }

    /// Serves `integrations` over `inner`.
    pub fn new(inner: V, integrations: I) -> (r: Self)
        requires
            inner.wf(),
        ensures
            r.wf(),
            r.inner_fs() == inner,
            r.lister() == integrations,
    {
        ServiceFs { inner, integrations }
    }

    /// The filesystem inside.
    pub fn inner(&self) -> (r: &V)
        ensures
            *r == self.inner_fs(),
    {
        &self.inner
    }

    /// Denied, and nothing happened.
    pub open spec fn denied(&self, path: Seq<char>, after: Self, out: Result<(), VfsErrorView>) -> bool {
        &&& out == Err::<(), VfsErrorView>(is_read_only(path))
        &&& after.inner_fs() == self.inner_fs()
    }
}

impl<V: VirtualFs, I: IntegrationLister> VirtualFs for ServiceFs<V, I> {
    closed spec fn wf(&self) -> bool {
        self.inner.wf()
    }

    open spec fn reads(&self, path: Seq<char>, out: Result<Seq<u8>, VfsErrorView>) -> bool {
        if is_service_path(path) {
            service_reads(self.lister(), path, out)
        } else {
            self.inner_fs().reads(path, out)
        }
    }

    open spec fn writes(
        &self,
        path: Seq<char>,
        data: Seq<u8>,
        after: Self,
        out: Result<(), VfsErrorView>,
    ) -> bool {
        &&& after.lister() == self.lister()
        &&& if is_service_path(path) {
            self.denied(path, after, out)
        } else {
            self.inner_fs().writes(path, data, after.inner_fs(), out)
        }
    }

    open spec fn has(&self, path: Seq<char>, out: bool) -> bool {
        if is_service_path(path) {
            service_has(self.lister(), path, out)
        } else {
            self.inner_fs().has(path, out)
        }
    }

    open spec fn lists(&self, path: Seq<char>, out: Result<Seq<Seq<char>>, VfsErrorView>) -> bool {
        if is_service_path(path) {
            service_lists(self.lister(), path, out)
        } else {
            self.inner_fs().lists(path, out)
        }
    }

    open spec fn makes_dir(&self, path: Seq<char>, after: Self, out: Result<(), VfsErrorView>) -> bool {
        &&& after.lister() == self.lister()
        &&& if is_service_path(path) {
            self.denied(path, after, out)
        } else {
            self.inner_fs().makes_dir(path, after.inner_fs(), out)
        }
    }

    open spec fn removes(&self, path: Seq<char>, after: Self, out: Result<(), VfsErrorView>) -> bool {
        &&& after.lister() == self.lister()
        &&& if is_service_path(path) {
            self.denied(path, after, out)
        } else {
            self.inner_fs().removes(path, after.inner_fs(), out)
        }
    }

    open spec fn describes(&self, path: Seq<char>, out: Result<FsMetadata, VfsErrorView>) -> bool {
        if is_service_path(path) {
            service_describes(self.lister(), path, out)
        } else {
            self.inner_fs().describes(path, out)
        }
    }

    open spec fn saves(&self, out: Result<Seq<u8>, VfsErrorView>) -> bool {
        self.inner_fs().saves(out)
    }

    open spec fn restores(&self, data: Seq<u8>, after: Self, out: Result<(), VfsErrorView>) -> bool {
        after.lister() == self.lister() && self.inner_fs().restores(data, after.inner_fs(), out)
    }

    fn read(&self, path: &str) -> (r: Result<Vec<u8>, VfsError>) {
        if is_svc(path) {
            return svc_read(&self.integrations, path);
        }
        self.inner.read(path)
    }

    fn write(&mut self, path: &str, data: &[u8]) -> (r: Result<(), VfsError>) {
        if is_svc(path) {
            return Err(read_only_error(path));
        }
        self.inner.write(path, data)
    }

    fn entry_exists(&self, path: &str) -> (r: bool) {
        if is_svc(path) {
            return svc_exists(&self.integrations, path);
        }
        self.inner.entry_exists(path)
    }

    fn list_dir(&self, path: &str) -> (r: Result<Vec<String>, VfsError>) {
        if is_svc(path) {
            return svc_list_dir(&self.integrations, path);
        }
        self.inner.list_dir(path)
    }

    fn mkdir(&mut self, path: &str) -> (r: Result<(), VfsError>) {
        if is_svc(path) {
            return Err(read_only_error(path));
        }
        self.inner.mkdir(path)
    }

    fn remove(&mut self, path: &str) -> (r: Result<(), VfsError>) {
        if is_svc(path) {
            return Err(read_only_error(path));
        }
        self.inner.remove(path)
    }

    fn metadata(&self, path: &str) -> (r: Result<FsMetadata, VfsError>) {
        if is_svc(path) {
            return svc_metadata(&self.integrations, path);
        }
        self.inner.metadata(path)
    }

    fn snapshot(&self) -> (r: Result<VfsSnapshot, VfsError>) {
        self.inner.snapshot()
    }

    fn restore(&mut self, snapshot: &VfsSnapshot) -> (r: Result<(), VfsError>) {
        self.inner.restore(snapshot)
    }
}

/// The lister gives the same answer each time it is asked the same.
pub open spec fn answers_alike<I: IntegrationLister>(lister: I) -> bool {
    &&& forall|name: Seq<char>, a: Option<Seq<char>>, b: Option<Seq<char>>|
        #![trigger metadata_is(lister, name, a), metadata_is(lister, name, b)]
        metadata_is(lister, name, a) && metadata_is(lister, name, b) ==> a == b
    &&& forall|name: Seq<char>, a: Option<Seq<char>>, b: Option<Seq<char>>|
        #![trigger readme_is(lister, name, a), readme_is(lister, name, b)]
        readme_is(lister, name, a) && readme_is(lister, name, b) ==> a == b
}

/// The metadata, the bytes and the listing of a path under `/svc` agree: what is there is
/// either a file, which can be read and is as long as it says, or a directory, which can be
/// listed; nothing else can be listed, and what is not there is not found.
pub proof fn services_agree_with_themselves<I: IntegrationLister>(
    lister: I,
    path: Seq<char>,
    metadata: Result<FsMetadata, VfsErrorView>,
    bytes: Result<Seq<u8>, VfsErrorView>,
    names: Result<Seq<Seq<char>>, VfsErrorView>,
)
    requires
        answers_alike(lister),
        service_describes(lister, path, metadata),
        service_reads(lister, path, bytes),
        service_lists(lister, path, names),
    ensures
        metadata is Ok ==> metadata->Ok_0.is_file != metadata->Ok_0.is_dir,
        metadata is Ok && metadata->Ok_0.is_file ==> bytes is Ok && metadata->Ok_0.size == bytes->Ok_0.len() as u64,
        names is Ok <==> metadata is Ok && metadata->Ok_0.is_dir && metadata->Ok_0.size == 0,
        metadata is Err ==> metadata == Err::<FsMetadata, VfsErrorView>(VfsErrorView::NotFound(path)),
{
    reveal_strlit("skills");
    reveal_strlit("README.md");
    reveal_strlit("config.json");
    assert("skills"@.len() == 6 && "README.md"@.len() == 9 && "config.json"@.len() == 11);
    assert forall|again: Result<Seq<u8>, VfsErrorView>| #[trigger] service_reads(lister, path, again) implies again == bytes by {}
}

/// Nothing under `/svc` can be written, created or removed, and an attempt changes
/// nothing.
pub proof fn services_never_change<V: VirtualFs, I: IntegrationLister>(
    fs: ServiceFs<V, I>,
    path: Seq<char>,
    data: Seq<u8>,
    after: ServiceFs<V, I>,
    out: Result<(), VfsErrorView>,
)
    requires
        is_service_path(path),
        fs.writes(path, data, after, out) || fs.makes_dir(path, after, out) || fs.removes(path, after, out),
    ensures
        out is Err && out->Err_0 is PermissionDenied,
        after.inner_fs() == fs.inner_fs(),
{
}

/// Paths outside `/svc` are those of the filesystem inside.
pub proof fn paths_outside_the_services_pass_through<V: VirtualFs, I: IntegrationLister>(
    fs: ServiceFs<V, I>,
    path: Seq<char>,
    data: Seq<u8>,
    after: ServiceFs<V, I>,
    out: Result<(), VfsErrorView>,
    bytes: Result<Seq<u8>, VfsErrorView>,
    names: Result<Seq<Seq<char>>, VfsErrorView>,
    metadata: Result<FsMetadata, VfsErrorView>,
    there: bool,
)
    requires
        !is_service_path(path),
    ensures
        fs.reads(path, bytes) <==> fs.inner_fs().reads(path, bytes),
        fs.has(path, there) <==> fs.inner_fs().has(path, there),
        fs.lists(path, names) <==> fs.inner_fs().lists(path, names),
        fs.describes(path, metadata) <==> fs.inner_fs().describes(path, metadata),
        fs.writes(path, data, after, out) ==> fs.inner_fs().writes(path, data, after.inner_fs(), out),
        fs.makes_dir(path, after, out) ==> fs.inner_fs().makes_dir(path, after.inner_fs(), out),
        fs.removes(path, after, out) ==> fs.inner_fs().removes(path, after.inner_fs(), out),
{
}

} // verus!
