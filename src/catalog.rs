use vstd::prelude::*;
use crate::error::AppError;
use crate::external::{guess_mime, parse_uuid, random_uuid, uuid_parsed, uuid_text};
use crate::folder_path::{valid_folder_path, validate_folder_path};
use crate::gate::{AuthUser, OptionalAuthUser};
use crate::models::{
    BulkDeleteRequest, DeleteFolderFilesRequest, DownloadQuery, File, Folder, Project, UploadResponse,
};
use vstd::string::*;
use crate::text::text_eq;

verus! {

broadcast use vstd::seq_lib::group_seq_properties;

/// The API key presented with a request: the `X-API-Key` header when there is
/// one, else the `api_key` query parameter.
pub fn choose_api_key<'a>(header: Option<&'a str>, query: Option<&'a str>) -> (r: Option<&'a str>)
    ensures
        header is Some ==> r == header,
        header is None ==> r == query,
{
    match header {
        Some(h) => Some(h),
        None => query,
    }
}

/// The presented key names exactly this project's key.
pub open spec fn key_opens(presented: Option<Seq<char>>, project: Project) -> bool {
    match presented {
        Some(k) => uuid_parsed(k) == Some(project.api_key),
        None => false,
    }
}

pub open spec fn view_opt(o: Option<&str>) -> Option<Seq<char>> {
    match o {
        Some(s) => Some(s@),
        None => None,
    }
}

/// Whether the presented key opens the project.
pub fn key_matches(presented: Option<&str>, project: &Project) -> (r: bool)
    ensures
        r == key_opens(view_opt(presented), *project),
{
    match presented {
        Some(k) => match parse_uuid(k) {
            Some(v) => v == project.api_key,
            None => false,
        },
        None => false,
    }
}

/// Visibility of a file: its folder's flag when it is in a folder, else the
/// project's.
pub open spec fn visible(project: Project, folder: Option<Folder>) -> bool {
    match folder {
        Some(f) => f.is_public,
        None => project.is_public,
    }
}

/// Download policy: a visible file needs no credential; any other needs a key
/// that opens its project. There is no user-session path.
pub fn authorize_download(
    project: &Project,
    folder: Option<&Folder>,
    header_key: Option<&str>,
    query_key: Option<&str>,
) -> (r: Result<(), AppError>)
    ensures
        visible(*project, match folder { Some(f) => Some(*f), None => None }) ==> r is Ok,
        !visible(*project, match folder { Some(f) => Some(*f), None => None }) ==> (r is Ok
            <==> key_opens(view_opt(choose_key_spec(header_key, query_key)), *project)),
        r is Err ==> (r matches Err(AppError::Unauthorized)),
{
    let public = match folder {
        Some(f) => f.is_public,
        None => project.is_public,
    };
    if public {
        return Ok(());
    }
    if key_matches(choose_api_key(header_key, query_key), project) {
        Ok(())
    } else {
        Err(AppError::Unauthorized)
    }
}

pub open spec fn choose_key_spec<'a>(header: Option<&'a str>, query: Option<&'a str>) -> Option<
    &'a str,
> {
    match header {
        Some(h) => Some(h),
        None => query,
    }
}

/// Delete policy for one file: with a user identity, the user must own the
/// project; without one, the header key must open the project.
pub fn authorize_delete(identity: &OptionalAuthUser, header_key: Option<&str>, project: &Project) -> (r:
    Result<(), AppError>)
    ensures
        identity.0 matches Some(u) ==> (r is Ok <==> project.user_id == u.id),
        identity.0 is None ==> (r is Ok <==> key_opens(view_opt(header_key), *project)),
        r is Err ==> (r matches Err(AppError::Unauthorized)),
{
    let ok = match &identity.0 {
        Some(u) => project.user_id == u.id,
        None => key_matches(header_key, project),
    };
    if ok {
        Ok(())
    } else {
        Err(AppError::Unauthorized)
    }
}

/// Mutation policy for projects and folders: only the owner may act; anyone
/// else is told the project does not exist.
pub fn authorize_owner(identity: &AuthUser, project: &Project) -> (r: Result<(), AppError>)
    ensures
        r is Ok <==> project.user_id == identity.id,
        r is Err ==> (r matches Err(AppError::NotFound(_))),
{
    if project.user_id == identity.id {
        Ok(())
    } else {
        Err(AppError::NotFound(String::from_str("Project not found")))
    }
}

/// Which files a removal reaches.
#[derive(Debug)]
pub enum Doom<'a> {
    /// Requested files whose project the user owns.
    OwnedBy(&'a Vec<u128>, u128),
    /// Requested files of one project.
    InProject(&'a Vec<u128>, u128),
    /// Every file of a folder.
    InFolder(u128),
    /// One file.
    One(u128),
}

/// Some project with id `pid` is owned by `user`.
pub open spec fn owner_is(projects: Seq<Project>, pid: u128, user: u128) -> bool {
    exists|k: int| 0 <= k < projects.len() && (#[trigger] projects[k]).id == pid && projects[k].user_id == user
}

pub open spec fn dooms(d: Doom, projects: Seq<Project>, f: File) -> bool {
    match d {
        Doom::OwnedBy(ids, u) => ids@.contains(f.id) && owner_is(projects, f.project_id, u),
        Doom::InProject(ids, p) => ids@.contains(f.id) && f.project_id == p,
        Doom::InFolder(fid) => f.folder_id == Some(fid),
        Doom::One(id) => f.id == id,
    }
}

/// Every requested id names a file of project `p`.
pub open spec fn all_in_project(files: Seq<File>, ids: Seq<u128>, p: u128) -> bool {
    forall|i: int| 0 <= i < ids.len() ==> #[trigger] file_in(files, ids[i], p)
}

/// Some file of project `p` has id `id`.
pub open spec fn file_in(files: Seq<File>, id: u128, p: u128) -> bool {
    exists|j: int| 0 <= j < files.len() && (#[trigger] files[j]).id == id && files[j].project_id == p
}

pub open spec fn has_file(files: Seq<File>, id: u128) -> bool {
    exists|j: int| 0 <= j < files.len() && (#[trigger] files[j]).id == id
}

/// Projects and files have unique ids, projects unique keys, folders unique
/// ids and unique paths within a project.
pub open spec fn catalog_wf(projects: Seq<Project>, folders: Seq<Folder>, files: Seq<File>) -> bool {
    &&& forall|i: int, j: int|
        0 <= i < projects.len() && 0 <= j < projects.len() && i != j ==> (#[trigger] projects[i]).id
            != (#[trigger] projects[j]).id && projects[i].api_key != projects[j].api_key
    &&& forall|i: int, j: int|
        0 <= i < folders.len() && 0 <= j < folders.len() && i != j ==> (#[trigger] folders[i]).id
            != (#[trigger] folders[j]).id && !(folders[i].project_id == folders[j].project_id
            && folders[i].path@ == folders[j].path@)
    &&& forall|i: int, j: int|
        0 <= i < files.len() && 0 <= j < files.len() && i != j ==> (#[trigger] files[i]).id
            != (#[trigger] files[j]).id
}

/// What a removal hands back: how many file records went, and the records
/// themselves, so that their blobs can be deleted.
#[derive(Debug)]
pub struct Removal {
    pub deleted_count: u64,
    pub removed: Vec<File>,
}

/// Projects, folders and file records, with the access rules over them.
pub struct Catalog {
    projects: Vec<Project>,
    folders: Vec<Folder>,
    files: Vec<File>,
}

impl<'a> Doom<'a> {
    fn holds_id(ids: &Vec<u128>, id: u128) -> (r: bool)
        ensures
            r == ids@.contains(id),
    {
        let mut i: usize = 0;
        while i < ids.len()
            invariant
                i <= ids@.len(),
                forall|j: int| 0 <= j < i ==> ids@[j] != id,
            decreases ids@.len() - i,
        {
            if ids[i] == id {
                return true;
            }
            i = i + 1;
        }
        false
    }

    fn owned(projects: &Vec<Project>, pid: u128, user: u128) -> (r: bool)
        ensures
            r == owner_is(projects@, pid, user),
    {
        let mut k: usize = 0;
        while k < projects.len()
            invariant
                k <= projects@.len(),
                forall|j: int| 0 <= j < k ==> !(projects@[j].id == pid && projects@[j].user_id == user),
            decreases projects@.len() - k,
        {
            if projects[k].id == pid && projects[k].user_id == user {
                return true;
            }
            k = k + 1;
        }
        false
    }

    pub fn dooms(&self, projects: &Vec<Project>, f: &File) -> (r: bool)
        ensures
            r == dooms(*self, projects@, *f),
    {
        match self {
            Doom::OwnedBy(ids, u) => Self::holds_id(ids, f.id) && Self::owned(projects, f.project_id, *u),
            Doom::InProject(ids, p) => Self::holds_id(ids, f.id) && f.project_id == *p,
            Doom::InFolder(fid) => match f.folder_id {
                Some(x) => x == *fid,
                None => false,
            },
            Doom::One(id) => f.id == *id,
        }
    }
}

pub open spec fn opt_text(o: Option<String>) -> Option<Seq<char>> {
    match o {
        Some(s) => Some(s@),
        None => None,
    }
}

/// The key a download presents: the header if any, else the query parameter.
pub open spec fn presented_key(header: Option<&str>, query: Option<String>) -> Option<Seq<char>> {
    match header {
        Some(h) => Some(h@),
        None => opt_text(query),
    }
}

/// The folder a file sits in, if its folder record exists.
pub open spec fn folder_of(folders: Seq<Folder>, fid: Option<u128>) -> Option<Folder> {
    match fid {
        None => None,
        Some(id) => if exists|k: int| 0 <= k < folders.len() && (#[trigger] folders[k]).id == id {
            Some(folders[choose|k: int| 0 <= k < folders.len() && (#[trigger] folders[k]).id == id])
        } else {
            None
        },
    }
}

pub open spec fn kept(files: Seq<File>, d: Doom, projects: Seq<Project>) -> Seq<File> {
    files.filter(|f: File| !dooms(d, projects, f))
}

pub open spec fn gone(files: Seq<File>, d: Doom, projects: Seq<Project>) -> Seq<File> {
    files.filter(|f: File| dooms(d, projects, f))
}

fn copy_file(f: &File) -> (r: File)
    ensures
        r == *f,
{
    File {
        id: f.id,
        project_id: f.project_id,
        folder_id: f.folder_id,
        original_name: f.original_name.clone(),
        stored_name: f.stored_name.clone(),
        file_path: f.file_path.clone(),
        size: f.size,
        mime_type: f.mime_type.clone(),
        upload_date: f.upload_date,
    }
}

impl Catalog {
    pub closed spec fn projects(&self) -> Seq<Project> {
        self.projects@
    }

    pub closed spec fn folders(&self) -> Seq<Folder> {
        self.folders@
    }

    pub closed spec fn files(&self) -> Seq<File> {
        self.files@
    }

    pub open spec fn wf(&self) -> bool {
        catalog_wf(self.projects(), self.folders(), self.files())
    }

    /// An empty catalog.
    pub fn new() -> (r: Catalog)
        ensures
            r.wf(),
            r.projects().len() == 0,
            r.folders().len() == 0,
            r.files().len() == 0,
    {
        Catalog { projects: Vec::new(), folders: Vec::new(), files: Vec::new() }
    }

    /// Position of the project with this id.
    pub fn find_project(&self, id: u128) -> (r: Option<usize>)
        ensures
            r matches Some(k) ==> k < self.projects().len() && self.projects()[k as int].id == id,
            r is None ==> forall|k: int| 0 <= k < self.projects().len() ==> self.projects()[k].id != id,
    {
        let mut k: usize = 0;
        while k < self.projects.len()
            invariant
                k <= self.projects@.len(),
                forall|j: int| 0 <= j < k ==> self.projects@[j].id != id,
            decreases self.projects@.len() - k,
        {
            if self.projects[k].id == id {
                return Some(k);
            }
            k = k + 1;
        }
        None
    }

    /// Position of the project whose API key is `key`.
    pub fn find_project_by_key(&self, key: u128) -> (r: Option<usize>)
        ensures
            r matches Some(k) ==> k < self.projects().len() && self.projects()[k as int].api_key == key,
            r is None ==> forall|k: int| 0 <= k < self.projects().len() ==> self.projects()[k].api_key != key,
    {
        let mut k: usize = 0;
        while k < self.projects.len()
            invariant
                k <= self.projects@.len(),
                forall|j: int| 0 <= j < k ==> self.projects@[j].api_key != key,
            decreases self.projects@.len() - k,
        {
            if self.projects[k].api_key == key {
                return Some(k);
            }
            k = k + 1;
        }
        None
    }

    /// Position of the folder with this id.
    pub fn find_folder(&self, id: u128) -> (r: Option<usize>)
        ensures
            r matches Some(k) ==> k < self.folders().len() && self.folders()[k as int].id == id,
            r is None ==> forall|k: int| 0 <= k < self.folders().len() ==> self.folders()[k].id != id,
    {
        let mut k: usize = 0;
        while k < self.folders.len()
            invariant
                k <= self.folders@.len(),
                forall|j: int| 0 <= j < k ==> self.folders@[j].id != id,
            decreases self.folders@.len() - k,
        {
            if self.folders[k].id == id {
                return Some(k);
            }
            k = k + 1;
        }
        None
    }

    /// Position of the folder of project `pid` at `path`.
    pub fn find_folder_by_path(&self, pid: u128, path: &str) -> (r: Option<usize>)
        ensures
            r matches Some(k) ==> k < self.folders().len() && self.folders()[k as int].project_id == pid
                && self.folders()[k as int].path@ == path@,
            r is None ==> forall|k: int|
                0 <= k < self.folders().len() ==> !(self.folders()[k].project_id == pid
                    && self.folders()[k].path@ == path@),
    {
        let mut k: usize = 0;
        while k < self.folders.len()
            invariant
                k <= self.folders@.len(),
                forall|j: int|
                    0 <= j < k ==> !(self.folders@[j].project_id == pid && self.folders@[j].path@
                        == path@),
            decreases self.folders@.len() - k,
        {
            if self.folders[k].project_id == pid && text_eq(self.folders[k].path.as_str(), path) {
                return Some(k);
            }
            k = k + 1;
        }
        None
    }

    /// Position of the file with this id.
    pub fn find_file(&self, id: u128) -> (r: Option<usize>)
        ensures
            r matches Some(k) ==> k < self.files().len() && self.files()[k as int].id == id,
            r is None ==> !has_file(self.files(), id),
    {
        let mut k: usize = 0;
        while k < self.files.len()
            invariant
                k <= self.files@.len(),
                forall|j: int| 0 <= j < k ==> self.files@[j].id != id,
            decreases self.files@.len() - k,
        {
            if self.files[k].id == id {
                return Some(k);
            }
            k = k + 1;
        }
        None
    }

    /// The project at position `k`.
    pub fn project(&self, k: usize) -> (r: &Project)
        requires
            k < self.projects().len(),
        ensures
            *r == self.projects()[k as int],
    {
        &self.projects[k]
    }

    /// The folder at position `k`.
    pub fn folder(&self, k: usize) -> (r: &Folder)
        requires
            k < self.folders().len(),
        ensures
            *r == self.folders()[k as int],
    {
        &self.folders[k]
    }

    /// The file record at position `k`.
    pub fn file(&self, k: usize) -> (r: &File)
        requires
            k < self.files().len(),
        ensures
            *r == self.files()[k as int],
    {
        &self.files[k]
    }

    /// Number of folders.
    pub fn folder_count(&self) -> (r: usize)
        ensures
            r == self.folders().len(),
    {
        self.folders.len()
    }

    /// Number of file records.
    pub fn file_count(&self) -> (r: usize)
        ensures
            r == self.files().len(),
    {
        self.files.len()
    }

    /// Removes every file record the selection reaches and hands them back;
    /// all other records stay, in order.
    pub fn remove_where(&mut self, d: &Doom) -> (r: Removal)
        requires
            old(self).wf(),
        ensures
            final(self).wf(),
            final(self).projects() == old(self).projects(),
            final(self).folders() == old(self).folders(),
            final(self).files() == kept(old(self).files(), *d, old(self).projects()),
            r.removed@ == gone(old(self).files(), *d, old(self).projects()),
            r.deleted_count == r.removed@.len(),
    {
        let ghost before = self.files@;
        let ghost pr = self.projects@;
        let mut stay: Vec<File> = Vec::new();
        let mut out: Vec<File> = Vec::new();
        let mut i: usize = 0;
        while i < self.files.len()
            invariant
                self.files@ == before,
                self.projects@ == pr,
                i <= before.len(),
                stay@ == kept(before.take(i as int), *d, pr),
                out@ == gone(before.take(i as int), *d, pr),
                out@.len() <= i,
            decreases before.len() - i,
        {
            proof {
                reveal(Seq::filter);
                assert(before.take(i as int + 1).drop_last() =~= before.take(i as int));
                assert(before.take(i as int + 1).last() == before[i as int]);
            }
            let f = copy_file(&self.files[i]);
            if d.dooms(&self.projects, &f) {
                out.push(f);
            } else {
                stay.push(f);
            }
            i = i + 1;
        }
        proof {
            assert(before.take(before.len() as int) =~= before);
            lemma_kept_unique(before, *d, pr);
        }
        self.files = stay;
        let n = out.len() as u64;
        Removal { deleted_count: n, removed: out }
    }
}

impl Catalog {
    fn project_clash(&self, p: &Project) -> (r: bool)
        ensures
            !r <==> forall|k: int|
                0 <= k < self.projects().len() ==> self.projects()[k].id != p.id
                    && self.projects()[k].api_key != p.api_key,
    {
        let mut k: usize = 0;
        while k < self.projects.len()
            invariant
                k <= self.projects@.len(),
                forall|j: int|
                    0 <= j < k ==> self.projects@[j].id != p.id && self.projects@[j].api_key
                        != p.api_key,
            decreases self.projects@.len() - k,
        {
            if self.projects[k].id == p.id || self.projects[k].api_key == p.api_key {
                assert(!(self.projects()[k as int].id != p.id && self.projects()[k as int].api_key
                    != p.api_key));
                return true;
            }
            k = k + 1;
        }
        false
    }

    /// Adds a project; one whose id or API key is taken is refused.
    pub fn add_project(&mut self, p: Project) -> (r: Result<(), AppError>)
        requires
            old(self).wf(),
        ensures
            final(self).wf(),
            final(self).folders() == old(self).folders(),
            final(self).files() == old(self).files(),
            r is Ok ==> final(self).projects() == old(self).projects().push(p),
            r is Err ==> final(self).projects() == old(self).projects(),
            r is Ok <==> forall|k: int|
                0 <= k < old(self).projects().len() ==> old(self).projects()[k].id != p.id
                    && old(self).projects()[k].api_key != p.api_key,
    {
        if self.project_clash(&p) {
            return Err(AppError::BadRequest(String::from_str("Project already exists")));
        }
        self.projects.push(p);
        Ok(())
    }

    /// Adds a folder; one whose id is taken, or whose path its project
    /// already has, is refused.
    pub fn add_folder(&mut self, f: Folder) -> (r: Result<(), AppError>)
        requires
            old(self).wf(),
        ensures
            final(self).wf(),
            final(self).projects() == old(self).projects(),
            final(self).files() == old(self).files(),
            r is Ok ==> final(self).folders() == old(self).folders().push(f),
            r is Err ==> final(self).folders() == old(self).folders(),
            r is Ok <==> forall|k: int|
                0 <= k < old(self).folders().len() ==> old(self).folders()[k].id != f.id && !(
                old(self).folders()[k].project_id == f.project_id && old(self).folders()[k].path@
                    == f.path@),
    {
        if self.find_folder(f.id).is_some() {
            return Err(AppError::BadRequest(String::from_str("Folder already exists")));
        }
        if self.find_folder_by_path(f.project_id, f.path.as_str()).is_some() {
            return Err(AppError::BadRequest(String::from_str("Folder already exists")));
        }
        self.folders.push(f);
        Ok(())
    }

    /// Adds a file record; one whose id is taken is refused.
    pub fn add_file(&mut self, f: File) -> (r: Result<(), AppError>)
        requires
            old(self).wf(),
        ensures
            final(self).wf(),
            final(self).projects() == old(self).projects(),
            final(self).folders() == old(self).folders(),
            r is Ok ==> final(self).files() == old(self).files().push(f),
            r is Err ==> final(self).files() == old(self).files(),
            r is Ok <==> !has_file(old(self).files(), f.id),
    {
        if self.find_file(f.id).is_some() {
            return Err(AppError::BadRequest(String::from_str("File already exists")));
        }
        self.files.push(f);
        Ok(())
    }

    /// Download authorization for one file. An unknown file or project is
    /// `NotFound`. A file whose folder (or, outside any folder, whose project)
    /// is public needs no credential; any other needs a key, from the header
    /// or else the query, that opens its project, else `Unauthorized`.
    /// Gives the file's position.
    pub fn download_file(&self, file_id: u128, header_key: Option<&str>, query: &DownloadQuery) -> (r:
        Result<usize, AppError>)
        requires
            self.wf(),
        ensures
            !has_file(self.files(), file_id) ==> (r matches Err(AppError::NotFound(_))),
            forall|k: int, pk: int|
                0 <= k < self.files().len() && (#[trigger] self.files()[k]).id == file_id && 0 <= pk
                    < self.projects().len() && (#[trigger] self.projects()[pk]).id
                    == self.files()[k].project_id ==> {
                    &&& r is Ok <==> (visible(
                        self.projects()[pk],
                        folder_of(self.folders(), self.files()[k].folder_id),
                    ) || key_opens(presented_key(header_key, query.api_key), self.projects()[pk]))
                    &&& r is Ok ==> r == Ok::<usize, AppError>(k as usize)
                    &&& r is Err ==> (r matches Err(AppError::Unauthorized))
                },
            forall|k: int|
                0 <= k < self.files().len() && (#[trigger] self.files()[k]).id == file_id && (forall|
                    pk: int,
                |
                    0 <= pk < self.projects().len() ==> (#[trigger] self.projects()[pk]).id
                        != self.files()[k].project_id) ==> (r matches Err(AppError::NotFound(_))),
    {
        let k = match self.find_file(file_id) {
            Some(k) => k,
            None => return Err(AppError::NotFound(String::from_str("File not found"))),
        };
        let pk = match self.find_project(self.files[k].project_id) {
            Some(pk) => pk,
            None => return Err(AppError::NotFound(String::from_str("Project not found"))),
        };
        let folder: Option<&Folder> = match self.files[k].folder_id {
            Some(fid) => match self.find_folder(fid) {
                Some(fk) => Some(&self.folders[fk]),
                None => None,
            },
            None => None,
        };
        proof {
            match self.files@[k as int].folder_id {
                Some(fid) => {
                    if exists|j: int| 0 <= j < self.folders@.len() && (#[trigger] self.folders@[j]).id == fid {
                        let c = choose|j: int| 0 <= j < self.folders@.len() && (#[trigger] self.folders@[j]).id == fid;
                        assert(folder matches Some(f) && self.folders@[c] == *f);
                    }
                },
                None => {},
            }
        }
        let query_key: Option<&str> = match &query.api_key {
            Some(q) => Some(q.as_str()),
            None => None,
        };
        match authorize_download(&self.projects[pk], folder, header_key, query_key) {
            Ok(()) => Ok(k),
            Err(e) => Err(e),
        }
    }

    /// Deletes one file record. An unknown file or project is `NotFound`.
    /// With a user identity the user must own the file's project; without
    /// one, the header key must open it; otherwise `Unauthorized` and nothing
    /// changes.
    pub fn delete_file(&mut self, identity: &OptionalAuthUser, header_key: Option<&str>, file_id: u128) -> (r:
        Result<Removal, AppError>)
        requires
            old(self).wf(),
        ensures
            final(self).wf(),
            final(self).projects() == old(self).projects(),
            final(self).folders() == old(self).folders(),
            r is Err ==> final(self).files() == old(self).files(),
            !has_file(old(self).files(), file_id) ==> (r matches Err(AppError::NotFound(_))),
            forall|k: int, pk: int|
                0 <= k < old(self).files().len() && (#[trigger] old(self).files()[k]).id == file_id
                    && 0 <= pk < old(self).projects().len() && (#[trigger] old(self).projects()[pk]).id
                    == old(self).files()[k].project_id ==> {
                    &&& r is Ok <==> match identity.0 {
                        Some(u) => old(self).projects()[pk].user_id == u.id,
                        None => key_opens(view_opt(header_key), old(self).projects()[pk]),
                    }
                    &&& r is Err ==> (r matches Err(AppError::Unauthorized))
                },
            r is Ok ==> final(self).files() == kept(old(self).files(), Doom::One(file_id), old(self).projects())
                && r->Ok_0.removed@ == gone(old(self).files(), Doom::One(file_id), old(self).projects()),
    {
        let k = match self.find_file(file_id) {
            Some(k) => k,
            None => return Err(AppError::NotFound(String::from_str("File not found"))),
        };
        let pk = match self.find_project(self.files[k].project_id) {
            Some(pk) => pk,
            None => return Err(AppError::NotFound(String::from_str("Project not found"))),
        };
        authorize_delete(identity, header_key, &self.projects[pk])?;
        Ok(self.remove_where(&Doom::One(file_id)))
    }

    /// Bulk delete. An empty request deletes nothing. With a user identity the
    /// files deleted are exactly the requested ones whose project the user
    /// owns; files of others are left out, not reported. Without one, the
    /// header key must name a project (`Unauthorized`) and every requested id
    /// must be a file of that project, else the whole request is a
    /// `BadRequest` and nothing is deleted. When nothing requested exists, or
    /// nothing is left to delete, it is `NotFound`.
    pub fn bulk_delete_files(
        &mut self,
        identity: &OptionalAuthUser,
        header_key: Option<&str>,
        request: &BulkDeleteRequest,
    ) -> (r: Result<Removal, AppError>)
        requires
            old(self).wf(),
        ensures
            final(self).wf(),
            final(self).projects() == old(self).projects(),
            final(self).folders() == old(self).folders(),
            r is Err ==> final(self).files() == old(self).files(),
            request.file_ids@.len() == 0 ==> (r matches Ok(m) && m.deleted_count == 0)
                && final(self).files() == old(self).files(),
            request.file_ids@.len() > 0 && (forall|i: int|
                0 <= i < request.file_ids@.len() ==> !has_file(old(self).files(), #[trigger] request.file_ids@[i]))
                ==> (r matches Err(AppError::NotFound(_))),
            request.file_ids@.len() > 0 && identity.0 is Some ==> {
                let d = Doom::OwnedBy(&request.file_ids, identity.0->Some_0.id);
                &&& gone(old(self).files(), d, old(self).projects()).len() == 0 ==> (r matches Err(
                    AppError::NotFound(_),
                ))
                &&& gone(old(self).files(), d, old(self).projects()).len() > 0 ==> r is Ok
                    && final(self).files() == kept(old(self).files(), d, old(self).projects())
                    && r->Ok_0.removed@ == gone(old(self).files(), d, old(self).projects())
                    && r->Ok_0.deleted_count == r->Ok_0.removed@.len()
            },
            identity.0 is None && request.file_ids@.len() > 0 && (exists|i: int|
                0 <= i < request.file_ids@.len() && has_file(old(self).files(), #[trigger] request.file_ids@[i]))
                ==> {
                &&& (header_key is None || uuid_parsed(header_key->Some_0@) is None || (forall|pk: int|
                    0 <= pk < old(self).projects().len() ==> (#[trigger] old(self).projects()[pk]).api_key
                        != uuid_parsed(header_key->Some_0@)->Some_0)) ==> (r matches Err(AppError::Unauthorized))
                &&& forall|pk: int|
                    0 <= pk < old(self).projects().len() && header_key is Some && uuid_parsed(
                        header_key->Some_0@,
                    ) == Some((#[trigger] old(self).projects()[pk]).api_key) ==> {
                        &&& !all_in_project(old(self).files(), request.file_ids@, old(self).projects()[pk].id)
                            ==> (r matches Err(AppError::BadRequest(_)))
                        &&& all_in_project(old(self).files(), request.file_ids@, old(self).projects()[pk].id)
                            ==> r is Ok && final(self).files() == kept(
                            old(self).files(),
                            Doom::InProject(&request.file_ids, old(self).projects()[pk].id),
                            old(self).projects(),
                        ) && r->Ok_0.removed@ == gone(
                            old(self).files(),
                            Doom::InProject(&request.file_ids, old(self).projects()[pk].id),
                            old(self).projects(),
                        ) && r->Ok_0.deleted_count == r->Ok_0.removed@.len()
                    }
            },
    {
        let ids = &request.file_ids;
        if ids.len() == 0 {
            return Ok(Removal { deleted_count: 0, removed: Vec::new() });
        }
        let mut any = false;
        let mut i: usize = 0;
        while i < ids.len()
            invariant
                i <= ids@.len(),
                any == exists|j: int| 0 <= j < i && has_file(self.files@, #[trigger] ids@[j]),
            decreases ids@.len() - i,
        {
            if self.find_file(ids[i]).is_some() {
                any = true;
            }
            i = i + 1;
        }
        if !any {
            proof {
                if identity.0 is Some {
                    {
                        let d = Doom::OwnedBy(&request.file_ids, identity.0->Some_0.id);
                        let g = gone(self.files@, d, self.projects@);
                        if g.len() > 0 {
                            lemma_filter_member(self.files@, |f: File| dooms(d, self.projects@, f), 0);
                            let j = choose|j: int| 0 <= j < self.files@.len() && self.files@[j] == g[0];
                            let a = choose|a: int| 0 <= a < ids@.len() && ids@[a] == g[0].id;
                            assert(has_file(self.files@, ids@[a]));
                        }
                    }
                }
            }
            return Err(AppError::NotFound(String::from_str("No files found")));
        }
        let doom = match &identity.0 {
            Some(u) => Doom::OwnedBy(ids, u.id),
            None => {
                let key = match header_key {
                    Some(h) => match parse_uuid(h) {
                        Some(v) => v,
                        None => return Err(AppError::Unauthorized),
                    },
                    None => return Err(AppError::Unauthorized),
                };
                let pk = match self.find_project_by_key(key) {
                    Some(pk) => pk,
                    None => return Err(AppError::Unauthorized),
                };
                let pid = self.projects[pk].id;
                if !self.all_requested_in(ids, pid) {
                    return Err(
                        AppError::BadRequest(
                            String::from_str(
                                "With API key auth, all files must belong to the same project",
                            ),
                        ),
                    );
                }
                Doom::InProject(ids, pid)
            },
        };
        proof {
            if doom is InProject {
                let ids2 = doom->InProject_0;
                let pid = doom->InProject_1;
                assert(file_in(self.files@, ids@[0], pid));
                let j = choose|j: int|
                    0 <= j < self.files@.len() && (#[trigger] self.files@[j]).id == ids@[0]
                        && self.files@[j].project_id == pid;
                assert(ids2@[0] == self.files@[j].id);
                assert(dooms(doom, self.projects@, self.files@[j]));
                self.files@.lemma_filter_contains(|f: File| dooms(doom, self.projects@, f), j);
            }
        }
        if self.count_where(&doom) == 0 {
            return Err(
                AppError::NotFound(
                    String::from_str("No files found or you don't have permission to delete them"),
                ),
            );
        }
        Ok(self.remove_where(&doom))
    }

    /// How many file records the selection reaches.
    pub fn count_where(&self, d: &Doom) -> (r: usize)
        ensures
            r == gone(self.files(), *d, self.projects()).len(),
    {
        let ghost before = self.files@;
        let mut n: usize = 0;
        let mut i: usize = 0;
        while i < self.files.len()
            invariant
                i <= before.len(),
                self.files@ == before,
                n == gone(before.take(i as int), *d, self.projects@).len(),
                n <= i,
            decreases before.len() - i,
        {
            proof {
                reveal(Seq::filter);
                assert(before.take(i as int + 1).drop_last() =~= before.take(i as int));
                assert(before.take(i as int + 1).last() == before[i as int]);
            }
            if d.dooms(&self.projects, &self.files[i]) {
                n = n + 1;
            }
            i = i + 1;
        }
        assert(before.take(before.len() as int) =~= before);
        n
    }

    fn all_requested_in(&self, ids: &Vec<u128>, pid: u128) -> (r: bool)
        ensures
            r == all_in_project(self.files(), ids@, pid),
    {
        let mut i: usize = 0;
        while i < ids.len()
            invariant
                i <= ids@.len(),
                forall|a: int| 0 <= a < i ==> #[trigger] file_in(self.files@, ids@[a], pid),
            decreases ids@.len() - i,
        {
            let mut found = false;
            let mut k: usize = 0;
            while k < self.files.len()
                invariant
                    i < ids@.len(),
                    k <= self.files@.len(),
                    found ==> exists|j: int|
                        0 <= j < self.files@.len() && (#[trigger] self.files@[j]).id == ids@[i as int]
                            && self.files@[j].project_id == pid,
                    !found ==> forall|j: int|
                        0 <= j < k ==> !((#[trigger] self.files@[j]).id == ids@[i as int]
                            && self.files@[j].project_id == pid),
                decreases self.files@.len() - k,
            {
                if self.files[k].id == ids[i] && self.files[k].project_id == pid {
                    found = true;
                }
                k = k + 1;
            }
            if !found {
                assert(!file_in(self.files@, ids@[i as int], pid));
                assert(!all_in_project(self.files@, ids@, pid));
                return false;
            }
            i = i + 1;
        }
        true
    }
}

/// A bulk delete by API key cannot reach across projects: when a requested id
/// names a file of another project than the key's, the request is not
/// authorized as a whole, so it is refused and nothing is deleted.
pub proof fn lemma_mixed_projects_rejected(files: Seq<File>, ids: Seq<u128>, p: u128, i: int, j: int)
    requires
        forall|a: int, b: int|
            0 <= a < files.len() && 0 <= b < files.len() && a != b ==> (#[trigger] files[a]).id
                != (#[trigger] files[b]).id,
        0 <= i < ids.len(),
        0 <= j < files.len(),
        files[j].id == ids[i],
        files[j].project_id != p,
    ensures
        !all_in_project(files, ids, p),
{
    if all_in_project(files, ids, p) {
        assert(file_in(files, ids[i], p));
        let k = choose|k: int| 0 <= k < files.len() && (#[trigger] files[k]).id == ids[i] && files[k].project_id == p;
        assert(k != j);
    }
}

impl Catalog {
    /// Deletes every file record of one folder, and the folder, by API key.
    /// The header key must name a project (`Unauthorized`); the path must be
    /// valid (`BadRequest`); a path the project has no folder at deletes nothing.
    pub fn delete_folder_files(&mut self, header_key: Option<&str>, request: &DeleteFolderFilesRequest) -> (r:
        Result<Removal, AppError>)
        requires
            old(self).wf(),
        ensures
            final(self).wf(),
            final(self).projects() == old(self).projects(),
            r is Err ==> final(self).files() == old(self).files() && final(self).folders() == old(self).folders(),
            (header_key is None || uuid_parsed(header_key->Some_0@) is None || (forall|pk: int|
                0 <= pk < old(self).projects().len() ==> (#[trigger] old(self).projects()[pk]).api_key
                    != uuid_parsed(header_key->Some_0@)->Some_0)) ==> (r matches Err(AppError::Unauthorized)),
            forall|pk: int|
                0 <= pk < old(self).projects().len() && header_key is Some && uuid_parsed(
                    header_key->Some_0@,
                ) == Some((#[trigger] old(self).projects()[pk]).api_key) ==> {
                    &&& !valid_folder_path(request.folder_path@) ==> (r matches Err(AppError::BadRequest(_)))
                    &&& valid_folder_path(request.folder_path@) && (forall|fk: int|
                        0 <= fk < old(self).folders().len() ==> !((#[trigger] old(self).folders()[fk]).project_id
                            == old(self).projects()[pk].id && old(self).folders()[fk].path@ == request.folder_path@))
                        ==> (r matches Ok(m) && m.deleted_count == 0) && final(self).files() == old(self).files()
                            && final(self).folders() == old(self).folders()
                    &&& forall|fk: int|
                        0 <= fk < old(self).folders().len() && (#[trigger] old(self).folders()[fk]).project_id
                            == old(self).projects()[pk].id && old(self).folders()[fk].path@ == request.folder_path@
                            && valid_folder_path(request.folder_path@) ==> r is Ok && final(self).files() == kept(
                            old(self).files(),
                            Doom::InFolder(old(self).folders()[fk].id),
                            old(self).projects(),
                        ) && r->Ok_0.removed@ == gone(
                            old(self).files(),
                            Doom::InFolder(old(self).folders()[fk].id),
                            old(self).projects(),
                        ) && r->Ok_0.deleted_count == r->Ok_0.removed@.len() && final(self).folders()
                            == old(self).folders().remove(fk)
                },
    {
        let key = match header_key {
            Some(h) => match parse_uuid(h) {
                Some(v) => v,
                None => return Err(AppError::Unauthorized),
            },
            None => return Err(AppError::Unauthorized),
        };
        let pk = match self.find_project_by_key(key) {
            Some(pk) => pk,
            None => return Err(AppError::Unauthorized),
        };
        validate_folder_path(request.folder_path.as_str())?;
        let pid = self.projects[pk].id;
        let fk = match self.find_folder_by_path(pid, request.folder_path.as_str()) {
            Some(fk) => fk,
            None => return Ok(Removal { deleted_count: 0, removed: Vec::new() }),
        };
        let fid = self.folders[fk].id;
        let removal = self.remove_where(&Doom::InFolder(fid));
        let ghost before = self.folders@;
        self.folders.remove(fk);
        assert forall|a: int, b: int|
            0 <= a < self.folders@.len() && 0 <= b < self.folders@.len() && a != b implies (
            #[trigger] self.folders@[a]).id != (#[trigger] self.folders@[b]).id && !(
            self.folders@[a].project_id == self.folders@[b].project_id && self.folders@[a].path@
                == self.folders@[b].path@) by {
            let a0 = if a < fk { a } else { a + 1 };
            let b0 = if b < fk { b } else { b + 1 };
            assert(self.folders@[a] == before[a0]);
            assert(self.folders@[b] == before[b0]);
            assert(before[a0].id != before[b0].id);
        }
        Ok(removal)
    }

    /// Upload authorization: the header key must name a project
    /// (`Unauthorized`), a folder path must be valid (`BadRequest`) and the
    /// file no larger than the limit (`BadRequest`). Gives the project's position.
    pub fn authorize_upload(
        &self,
        header_key: Option<&str>,
        folder_path: Option<&str>,
        file_size: usize,
        max_file_size: usize,
    ) -> (r: Result<usize, AppError>)
        requires
            self.wf(),
        ensures
            (header_key is None || uuid_parsed(header_key->Some_0@) is None || (forall|pk: int|
                0 <= pk < self.projects().len() ==> (#[trigger] self.projects()[pk]).api_key
                    != uuid_parsed(header_key->Some_0@)->Some_0)) ==> (r matches Err(AppError::Unauthorized)),
            forall|pk: int|
                0 <= pk < self.projects().len() && header_key is Some && uuid_parsed(header_key->Some_0@)
                    == Some((#[trigger] self.projects()[pk]).api_key) ==> {
                    &&& (folder_path matches Some(p) && !valid_folder_path(p@)) ==> (r matches Err(
                        AppError::BadRequest(_),
                    ))
                    &&& (folder_path matches Some(p) ==> valid_folder_path(p@)) && file_size > max_file_size
                        ==> (r matches Err(AppError::BadRequest(_)))
                    &&& (folder_path matches Some(p) ==> valid_folder_path(p@)) && file_size <= max_file_size
                        ==> r == Ok::<usize, AppError>(pk as usize)
                },
    {
        let key = match header_key {
            Some(h) => match parse_uuid(h) {
                Some(v) => v,
                None => return Err(AppError::Unauthorized),
            },
            None => return Err(AppError::Unauthorized),
        };
        let pk = match self.find_project_by_key(key) {
            Some(pk) => pk,
            None => return Err(AppError::Unauthorized),
        };
        match folder_path {
            Some(p) => validate_folder_path(p)?,
            None => {},
        }
        if file_size > max_file_size {
            return Err(AppError::BadRequest(String::from_str("File size exceeds maximum allowed size")));
        }
        Ok(pk)
    }
}

/// The folder path an upload names: none when absent or empty.
pub open spec fn named_folder(p: Option<&str>) -> Option<Seq<char>> {
    match p {
        Some(t) => if t@.len() > 0 { Some(t@) } else { None },
        None => None,
    }
}

/// The project `pid` has a folder at `path`.
pub open spec fn has_folder_at(folders: Seq<Folder>, pid: u128, path: Seq<char>) -> bool {
    exists|fk: int|
        0 <= fk < folders.len() && (#[trigger] folders[fk]).project_id == pid && folders[fk].path@
            == path
}

/// The address a stored file is served from.
pub open spec fn download_url_of(id: u128) -> Seq<char> {
    "/api/files/"@ + crate::external::uuid_text_of(id)
}

impl Catalog {
    /// Records an upload whose blob is already written: the folder of the
    /// project at `path` is found or created with the project's visibility,
    /// and one file record is added, with its media type guessed from its
    /// name. A clash of ids changes nothing.
    pub fn record_upload(
        &mut self,
        project_index: usize,
        folder_path: Option<&str>,
        file_id: u128,
        original_name: &str,
        stored_name: String,
        file_path: String,
        size: i64,
        upload_date: i64,
    ) -> (r: Result<UploadResponse, AppError>)
        requires
            old(self).wf(),
            project_index < old(self).projects().len(),
            folder_path matches Some(p) ==> valid_folder_path(p@),
        ensures
            final(self).wf(),
            final(self).projects() == old(self).projects(),
            r is Err ==> final(self).files() == old(self).files() && final(self).folders() == old(self).folders(),
            has_file(old(self).files(), file_id) ==> (r matches Err(AppError::InternalError(_))),
            !has_file(old(self).files(), file_id) && (named_folder(folder_path) is None
                || has_folder_at(
                old(self).folders(),
                old(self).projects()[project_index as int].id,
                named_folder(folder_path)->Some_0,
            )) ==> r is Ok,
            !has_file(old(self).files(), file_id) ==> r is Ok || (r matches Err(
                AppError::InternalError(_),
            )),
            final(self).folders().take(old(self).folders().len() as int) == old(self).folders(),
            final(self).folders().len() <= old(self).folders().len() + 1,
            final(self).folders().len() > old(self).folders().len() ==> {
                let f = final(self).folders().last();
                &&& named_folder(folder_path) is Some
                &&& !has_folder_at(
                    old(self).folders(),
                    old(self).projects()[project_index as int].id,
                    named_folder(folder_path)->Some_0,
                )
                &&& f.project_id == old(self).projects()[project_index as int].id
                &&& f.path@ == named_folder(folder_path)->Some_0
                &&& f.is_public == old(self).projects()[project_index as int].is_public
                &&& f.created_at == upload_date
            },
            r is Ok ==> {
                let rec = final(self).files().last();
                let p = old(self).projects()[project_index as int];
                &&& final(self).files().drop_last() == old(self).files()
                &&& final(self).files().len() == old(self).files().len() + 1
                &&& rec.id == file_id
                &&& rec.project_id == p.id
                &&& rec.original_name@ == original_name@
                &&& rec.stored_name == stored_name
                &&& rec.file_path == file_path
                &&& rec.size == size
                &&& rec.upload_date == upload_date
                &&& rec.mime_type@ == crate::external::mime_of(original_name@)
                &&& named_folder(folder_path) is None ==> rec.folder_id is None
                &&& named_folder(folder_path) matches Some(path) ==> exists|fk: int|
                    0 <= fk < final(self).folders().len() && Some((#[trigger] final(self).folders()[fk]).id)
                        == rec.folder_id && final(self).folders()[fk].project_id == p.id
                        && final(self).folders()[fk].path@ == path
                &&& r->Ok_0.file_id == file_id
                &&& r->Ok_0.download_url@ == download_url_of(file_id)
                &&& r->Ok_0.mime_type@ == crate::external::mime_of(original_name@)
            },
    {
        if self.find_file(file_id).is_some() {
            return Err(AppError::InternalError(String::from_str("Duplicate file id")));
        }
        let pid = self.projects[project_index].id;
        let path: Option<&str> = match folder_path {
            Some(p) => if p.unicode_len() > 0 { Some(p) } else { None },
            None => None,
        };
        let folder_id: Option<u128> = match path {
            Some(p) => match self.find_folder_by_path(pid, p) {
                Some(fk) => Some(self.folders[fk].id),
                None => {
                    let fid = random_uuid();
                    if self.find_folder(fid).is_some() {
                        return Err(AppError::InternalError(String::from_str("Duplicate folder id")));
                    }
                    let is_public = self.projects[project_index].is_public;
                    let r = self.add_folder(
                        Folder { id: fid, project_id: pid, path: String::from_str(p), is_public, created_at: upload_date },
                    );
                    assert(r is Ok);
                    assert(self.folders@.last().id == fid);
                    Some(fid)
                },
            },
            None => None,
        };
        let mime_type = guess_mime(original_name);
        let mut download_url = String::from_str("/api/files/");
        download_url.append(uuid_text(file_id).as_str());
        let rec = File {
            id: file_id,
            project_id: pid,
            folder_id,
            original_name: String::from_str(original_name),
            stored_name,
            file_path,
            size,
            mime_type: mime_type.clone(),
            upload_date,
        };
        let ghost folders_now = self.folders@;
        let added = self.add_file(rec);
        assert(added is Ok);
        assert(self.files@.drop_last() =~= old(self).files@);
        proof {
            if path is Some {
                let fk = if self.folders@.len() > old(self).folders@.len() {
                    self.folders@.len() - 1
                } else {
                    choose|fk: int| 0 <= fk < self.folders@.len() && self.folders@[fk].project_id == pid
                        && self.folders@[fk].path@ == path->Some_0@ && Some(self.folders@[fk].id) == folder_id
                };
                assert(Some(self.folders@[fk].id) == self.files@.last().folder_id);
            }
        }
        Ok(UploadResponse {
            file_id,
            original_name: String::from_str(original_name),
            size,
            mime_type,
            download_url,
            folder_path: match path {
                Some(p) => Some(String::from_str(p)),
                None => None,
            },
        })
    }
}

/// Every element a filter keeps satisfies the predicate and comes from the sequence.
pub proof fn lemma_filter_member<A>(s: Seq<A>, p: spec_fn(A) -> bool, i: int)
    requires
        0 <= i < s.filter(p).len(),
    ensures
        p(s.filter(p)[i]),
        exists|j: int| 0 <= j < s.len() && s[j] == s.filter(p)[i],
    decreases s.len(),
{
    reveal(Seq::filter);
    s.lemma_filter_pred(p, i);
    if s.len() > 0 {
        let init = s.drop_last();
        if i < init.filter(p).len() {
            lemma_filter_member(init, p, i);
            let j = choose|j: int| 0 <= j < init.len() && init[j] == init.filter(p)[i];
            assert(s[j] == init[j]);
        } else {
            assert(s[s.len() - 1] == s.filter(p)[i]);
        }
    }
}

/// Keeping a part of a sequence of files keeps their ids unique.
proof fn lemma_kept_unique(files: Seq<File>, d: Doom, projects: Seq<Project>)
    requires
        forall|i: int, j: int|
            0 <= i < files.len() && 0 <= j < files.len() && i != j ==> (#[trigger] files[i]).id
                != (#[trigger] files[j]).id,
    ensures
        forall|i: int, j: int|
            0 <= i < kept(files, d, projects).len() && 0 <= j < kept(files, d, projects).len() && i
                != j ==> (#[trigger] kept(files, d, projects)[i]).id != (#[trigger] kept(
                files,
                d,
                projects,
            )[j]).id,
    decreases files.len(),
{
    reveal(Seq::filter);
    if files.len() > 0 {
        let init = files.drop_last();
        lemma_kept_unique(init, d, projects);
        let k = kept(init, d, projects);
        assert(kept(files, d, projects) == if !dooms(d, projects, files.last()) {
            k.push(files.last())
        } else {
            k
        });
        assert forall|i: int| 0 <= i < k.len() implies (#[trigger] k[i]).id != files.last().id by {
            lemma_kept_member(init, d, projects, i);
        }
    }
}

/// Every kept file is one of the files it was kept from.
proof fn lemma_kept_member(files: Seq<File>, d: Doom, projects: Seq<Project>, i: int)
    requires
        0 <= i < kept(files, d, projects).len(),
    ensures
        exists|j: int| 0 <= j < files.len() && files[j] == kept(files, d, projects)[i],
    decreases files.len(),
{
    reveal(Seq::filter);
    if files.len() > 0 {
        let init = files.drop_last();
        let k = kept(init, d, projects);
        if i < k.len() {
            lemma_kept_member(init, d, projects, i);
            let j = choose|j: int| 0 <= j < init.len() && init[j] == k[i];
            assert(files[j] == init[j]);
        } else {
            assert(files[files.len() - 1] == kept(files, d, projects)[i]);
        }
    }
}

} // verus!
