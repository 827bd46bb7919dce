//! The streaming loader's bookkeeping: which texture stands for a path now,
//! which handle a load may fill, and which jobs are owed to the workers.

use crate::text::{decimal, starts_with, with_number};
use crate::textures::texture::Texture;
use vstd::hash_map::StringHashMap;
use vstd::prelude::*;

verus! {

/// The prefix of the paths that name textures made from memory.
pub const DYNAMIC_PREFIX: &'static str = "memory:";

/// The two textures of a path: the one to render with now, and a handle
/// that the next load of the path may fill. While a load is on its way the
/// second is taken.
#[derive(Clone, Copy, Debug)]
pub struct TextureRecord {
    pub current: Texture,
    pub loading: Option<Texture>,
}

/// What the loader is asked to do: put decoded pixels of a given size into
/// a handle, for a path.
#[derive(Debug)]
pub enum TextureLoaderRequest {
    Load(String, Texture, usize, usize, Vec<u8>),
}

/// What the loader answers: the handle that now holds the texture of a path.
#[derive(Debug)]
pub enum TextureLoaderResponse {
    Loaded(String, Texture),
}

/// A file that a reader is asked to read and decode, and the handle that the
/// load may fill.
#[derive(Debug)]
pub struct ReadJob {
    pub reader: usize,
    pub path: String,
    pub handle: Texture,
}

/// How a request to replace a texture made from memory ended.
#[derive(Clone, Copy, Debug, PartialEq, Eq, Structural)]
pub enum DynamicUpdate {
    /// A load was queued for the loader.
    Queued,
    /// No record stands for the path: nothing was done.
    NotFound,
    /// A load of the path is still on its way: the request was dropped.
    InProgress,
}

/// A read job as a value.
pub ghost struct Job {
    pub reader: nat,
    pub path: Seq<char>,
    pub handle: Texture,
}

/// A load request as a value.
pub ghost struct Load {
    pub path: Seq<char>,
    pub handle: Texture,
    pub width: usize,
    pub height: usize,
    pub data: Seq<u8>,
}

/// A loader's answer as a value.
pub ghost struct Loaded {
    pub path: Seq<char>,
    pub handle: Texture,
}

/// True for the paths that name textures made from memory.
pub open spec fn is_dynamic(path: Seq<char>) -> bool {
    DYNAMIC_PREFIX@.is_prefix_of(path)
}

/// The path of the texture made from memory when `count` records exist.
pub open spec fn dynamic_path(count: nat) -> Seq<char> {
    DYNAMIC_PREFIX@ + decimal(count)
}

/// The manager as a value: the record of every path that was asked for,
/// the round-robin position among the readers, the two sentinel textures,
/// and the jobs handed out so far and not yet taken.
pub ghost struct Manager {
    pub records: Map<Seq<char>, TextureRecord>,
    pub readers: nat,
    pub readers_index: nat,
    pub fallback: Texture,
    pub blank: Texture,
    pub read_jobs: Seq<Job>,
    pub load_jobs: Seq<Load>,
}

impl Manager {
    /// The records are finitely many, and the round-robin position names a
    /// reader.
    pub open spec fn wf(self) -> bool {
        &&& self.records.dom().finite()
        &&& self.readers > 0
        &&& self.readers_index < self.readers
    }

    /// The record of `path`, where the path was seen.
    pub open spec fn record(self, path: Seq<char>) -> Option<TextureRecord> {
        if self.records.contains_key(path) {
            Some(self.records[path])
        } else {
            None
        }
    }

    /// The record that a path starts with: the fallback texture to render
    /// with, and the fallback as the handle that the first load may fill.
    pub open spec fn first_record(self) -> TextureRecord {
        TextureRecord { current: self.fallback, loading: Some(self.fallback) }
    }

    /// The manager with `record` standing for `path`, in place of what stood
    /// for it before, if anything.
    pub open spec fn put(self, path: Seq<char>, record: TextureRecord) -> Manager {
        Manager { records: self.records.insert(path, record), ..self }
    }

    /// Manager and texture after one request for `path`. The sentinel paths
    /// answer with their textures and change nothing. Any other path gets a
    /// record on its first request; and while it still renders with the
    /// fallback, is no texture made from memory, and has a handle to fill,
    /// the request takes that handle and owes the next reader one job.
    pub open spec fn get_texture(self, path: Seq<char>) -> (Manager, Texture) {
        if path == Texture::FALLBACK@ {
            (self, self.fallback)
        } else if path == Texture::BLANK@ {
            (self, self.blank)
        } else {
            let record = match self.record(path) {
                Some(record) => record,
                None => self.first_record(),
            };
            if !is_dynamic(path) && record.current == self.fallback && record.loading is Some {
                let reader = (self.readers_index + 1) % self.readers;
                (
                    Manager {
                        readers_index: reader,
                        read_jobs: self.read_jobs.push(
                            Job { reader, path, handle: record.loading->0 },
                        ),
                        ..self.put(path, TextureRecord { current: record.current, loading: None })
                    },
                    record.current,
                )
            } else {
                (self.put(path, record), record.current)
            }
        }
    }

    /// Manager after one answer of the loader: the loaded handle becomes the
    /// texture to render with, and the texture it replaces becomes the handle
    /// that the next load may fill. An answer for an unknown path is dropped.
    pub open spec fn apply(self, response: Loaded) -> Manager {
        match self.record(response.path) {
            Some(record) => self.put(
                response.path,
                TextureRecord { current: response.handle, loading: Some(record.current) },
            ),
            None => self,
        }
    }

    /// Manager after the answers `responses`, in their order.
    pub open spec fn apply_all(self, responses: Seq<Loaded>) -> Manager
        decreases responses.len(),
    {
        if responses.len() == 0 {
            self
        } else {
            self.apply_all(responses.drop_last()).apply(responses.last())
        }
    }

    /// Manager and outcome after a request to replace the texture of `path`
    /// by pixels from memory: the record's free handle is taken and one load
    /// is owed to the loader, or nothing changes.
    pub open spec fn update_dynamic_texture(
        self,
        path: Seq<char>,
        width: usize,
        height: usize,
        data: Seq<u8>,
    ) -> (Manager, DynamicUpdate) {
        match self.record(path) {
            None => (self, DynamicUpdate::NotFound),
            Some(record) => match record.loading {
                None => (self, DynamicUpdate::InProgress),
                Some(handle) => (
                    Manager {
                        load_jobs: self.load_jobs.push(Load { path, handle, width, height, data }),
                        ..self.put(path, TextureRecord { current: record.current, loading: None })
                    },
                    DynamicUpdate::Queued,
                ),
            },
        }
    }

    /// Manager and path after a texture is made from memory: the path is
    /// numbered by the records that exist, starts over with the fallback, and
    /// its first load is owed to the loader at once.
    pub open spec fn create_dynamic_texture(self, width: usize, height: usize, data: Seq<u8>) -> (
        Manager,
        Seq<char>,
    ) {
        let path = dynamic_path(self.records.len());
        (self.put(path, self.first_record()).update_dynamic_texture(path, width, height, data).0, path)
    }
}

/// The jobs of `jobs` by their values.
pub open spec fn jobs_view(jobs: Seq<ReadJob>) -> Seq<Job> {
    jobs.map_values(|job: ReadJob| Job { reader: job.reader as nat, path: job.path@, handle: job.handle })
}

/// The value of one load request.
pub open spec fn load_view(request: TextureLoaderRequest) -> Load {
    match request {
        TextureLoaderRequest::Load(path, handle, width, height, data) => Load {
            path: path@,
            handle,
            width,
            height,
            data: data@,
        },
    }
}

/// The load requests of `loads` by their values.
pub open spec fn loads_view(loads: Seq<TextureLoaderRequest>) -> Seq<Load> {
    loads.map_values(|request: TextureLoaderRequest| load_view(request))
}

/// The value of one answer.
pub open spec fn loaded_view(response: TextureLoaderResponse) -> Loaded {
    match response {
        TextureLoaderResponse::Loaded(path, handle) => Loaded { path: path@, handle },
    }
}

/// The answers of `responses` by their values.
pub open spec fn responses_view(responses: Seq<TextureLoaderResponse>) -> Seq<Loaded> {
    responses.map_values(|response: TextureLoaderResponse| loaded_view(response))
}

/// Keeps the record of every texture path and hands out the jobs that
/// bring textures in: read jobs for the reader threads, load jobs for the
/// loader thread. It performs no I/O itself: the jobs wait in two queues
/// until they are taken, and the loader's answers are handed to `update`.
pub struct TexturesManager {
    records: StringHashMap<TextureRecord>,
    readers: usize,
    readers_index: usize,
    fallback: Texture,
    blank: Texture,
    read_jobs: Vec<ReadJob>,
    load_jobs: Vec<TextureLoaderRequest>,
}

impl View for TexturesManager {
    type V = Manager;

    closed spec fn view(&self) -> Manager {
        Manager {
            records: self.records@,
            readers: self.readers as nat,
            readers_index: self.readers_index as nat,
            fallback: self.fallback,
            blank: self.blank,
            read_jobs: jobs_view(self.read_jobs@),
            load_jobs: loads_view(self.load_jobs@),
        }
    }
}

impl TexturesManager {
    /// The manager behind it is well formed.
    pub open spec fn wf(&self) -> bool {
        self@.wf()
    }

    /// A manager without records or jobs, for `readers` reader threads. The
    /// first read job goes to the first reader.
    pub fn new(fallback: Texture, blank: Texture, readers: usize) -> (manager: TexturesManager)
        requires
            readers > 0,
        ensures
            manager.wf(),
            manager@ == (Manager {
                records: Map::empty(),
                readers: readers as nat,
                readers_index: (readers - 1) as nat,
                fallback,
                blank,
                read_jobs: Seq::empty(),
                load_jobs: Seq::empty(),
            }),
    {
        let manager = TexturesManager {
            records: StringHashMap::new(),
            readers,
            readers_index: readers - 1,
            fallback,
            blank,
            read_jobs: Vec::new(),
            load_jobs: Vec::new(),
        };
        assert(manager@.read_jobs =~= Seq::empty());
        assert(manager@.load_jobs =~= Seq::empty());
        manager
    }

    /// The texture that stands in for every texture not loaded yet.
    pub fn fallback(&self) -> (texture: Texture)
        ensures
            texture == self@.fallback,
    {
        self.fallback
    }

    /// The blank texture.
    pub fn blank(&self) -> (texture: Texture)
        ensures
            texture == self@.blank,
    {
        self.blank
    }

    /// Number of records.
    pub fn len(&self) -> (count: usize)
        requires
            self.wf(),
        ensures
            count == self@.records.len(),
    {
        self.records.len()
    }

    /// The record of `path`, where the path was seen.
    pub fn record(&self, path: &str) -> (record: Option<TextureRecord>)
        requires
            self.wf(),
        ensures
            record == self@.record(path@),
    {
        match self.records.get(path) {
            Some(record) => Some(*record),
            None => None,
        }
    }

    /// Lets `record` stand for the path `key`.
    fn put(&mut self, key: String, record: TextureRecord)
        requires
            old(self).wf(),
        ensures
            final(self).wf(),
            final(self)@ == old(self)@.put(key@, record),
    {
        self.records.insert(key, record);
    }

    /// The texture to render `path` with now. The first request for a file
    /// answers with the fallback at once and queues one read job for the next
    /// reader in turn; until that load is answered, further requests queue
    /// nothing.
    pub fn get_texture(&mut self, path: &str) -> (texture: Texture)
        requires
            old(self).wf(),
        ensures
            final(self).wf(),
            (final(self)@, texture) == old(self)@.get_texture(path@),
    {
        let key: String = path.to_owned();
        if key == Texture::FALLBACK.to_owned() {
            return self.fallback;
        }
        if key == Texture::BLANK.to_owned() {
            return self.blank;
        }
        let record = match self.records.get(path) {
            Some(record) => *record,
            None => TextureRecord { current: self.fallback, loading: Some(self.fallback) },
        };
        let ghost before = self@;
        if !starts_with(path, DYNAMIC_PREFIX) && record.current == self.fallback {
            if let Some(handle) = record.loading {
                let reader: usize = if self.readers_index + 1 == self.readers {
                    0
                } else {
                    self.readers_index + 1
                };
                assert(reader == ((self.readers_index + 1) as nat) % (self.readers as nat)) by {
                    if self.readers_index + 1 == self.readers {
                        vstd::arithmetic::div_mod::lemma_mod_self_0(self.readers as int);
                    } else {
                        vstd::arithmetic::div_mod::lemma_small_mod(
                            (self.readers_index + 1) as nat,
                            self.readers as nat,
                        );
                    }
                }
                self.put(key, TextureRecord { current: record.current, loading: None });
                self.readers_index = reader;
                self.read_jobs.push(ReadJob { reader, path: path.to_owned(), handle });
                assert(jobs_view(self.read_jobs@) =~= before.read_jobs.push(
                    Job { reader: reader as nat, path: path@, handle },
                ));
                return record.current;
            }
        }
        self.put(key, record);
        record.current
    }

    /// Takes in the loader's answers, in their order: each loaded handle
    /// becomes the texture of its path, and the texture it replaces becomes
    /// the handle for the path's next load.
    pub fn update(&mut self, responses: Vec<TextureLoaderResponse>)
        requires
            old(self).wf(),
        ensures
            final(self).wf(),
            final(self)@ == old(self)@.apply_all(responses_view(responses@)),
    {
        let ghost all = responses_view(responses@);
        let mut responses = responses;
        let mut done: usize = 0;
        let count: usize = responses.len();
        assert(all.take(0) =~= Seq::<Loaded>::empty());
        while done < count
            invariant
                self.wf(),
                done <= count,
                count == responses@.len(),
                all.len() == count,
                forall|k: int| done <= k < count ==> loaded_view(#[trigger] responses@[k]) == all[k],
                self@ == old(self)@.apply_all(all.take(done as int)),
            decreases count - done,
        {
            let mut taken = TextureLoaderResponse::Loaded(String::new(), self.fallback);
            core::mem::swap(&mut responses[done], &mut taken);
            let ghost response = loaded_view(taken);
            match taken {
                TextureLoaderResponse::Loaded(path, handle) => {
                    let known = match self.records.get(path.as_str()) {
                        Some(record) => Some(*record),
                        None => None,
                    };
                    match known {
                        Some(record) => {
                            self.put(path, TextureRecord { current: handle, loading: Some(record.current) });
                        },
                        None => {},
                    }
                },
            }
            proof {
                assert(response == all[done as int]);
                assert(all.take(done + 1).drop_last() =~= all.take(done as int));
                assert(all.take(done + 1).last() == all[done as int]);
            }
            done = done + 1;
        }
        assert(all.take(count as int) =~= all);
    }

    /// Replaces the texture of a path made from memory by new pixels: takes
    /// the record's free handle and queues one load, unless the path is
    /// unknown or its last load is still on its way.
    pub fn update_dynamic_texture(&mut self, path: &str, width: usize, height: usize, data: Vec<u8>) -> (outcome:
        DynamicUpdate)
        requires
            old(self).wf(),
        ensures
            final(self).wf(),
            (final(self)@, outcome) == old(self)@.update_dynamic_texture(path@, width, height, data@),
    {
        let key: String = path.to_owned();
        let record = match self.records.get(path) {
            Some(record) => *record,
            None => {
                return DynamicUpdate::NotFound;
            },
        };
        let handle = match record.loading {
            Some(handle) => handle,
            None => {
                return DynamicUpdate::InProgress;
            },
        };
        let ghost before = self@;
        self.put(key, TextureRecord { current: record.current, loading: None });
        self.load_jobs.push(TextureLoaderRequest::Load(path.to_owned(), handle, width, height, data));
        assert(loads_view(self.load_jobs@) =~= before.load_jobs.push(
            Load { path: path@, handle, width, height, data: data@ },
        ));
        DynamicUpdate::Queued
    }

    /// Makes a texture from pixels in memory: gives it the next numbered
    /// path, starts its record over with the fallback, and queues its first
    /// load.
    pub fn create_dynamic_texture(&mut self, width: usize, height: usize, data: Vec<u8>) -> (path: String)
        requires
            old(self).wf(),
        ensures
            final(self).wf(),
            (final(self)@, path@) == old(self)@.create_dynamic_texture(width, height, data@),
    {
        let path: String = with_number(DYNAMIC_PREFIX, self.records.len());
        let record = TextureRecord { current: self.fallback, loading: Some(self.fallback) };
        self.put(path.clone(), record);
        let _ = self.update_dynamic_texture(path.as_str(), width, height, data);
        path
    }

    /// Hands out the read jobs queued so far, oldest first, and empties the
    /// queue.
    pub fn take_read_jobs(&mut self) -> (jobs: Vec<ReadJob>)
        requires
            old(self).wf(),
        ensures
            final(self).wf(),
            jobs_view(jobs@) == old(self)@.read_jobs,
            final(self)@ == (Manager { read_jobs: Seq::empty(), ..old(self)@ }),
    {
        let mut jobs: Vec<ReadJob> = Vec::new();
        core::mem::swap(&mut self.read_jobs, &mut jobs);
        assert(jobs_view(self.read_jobs@) =~= Seq::empty());
        jobs
    }

    /// Hands out the load requests queued so far, oldest first, and empties
    /// the queue.
    pub fn take_load_jobs(&mut self) -> (jobs: Vec<TextureLoaderRequest>)
        requires
            old(self).wf(),
        ensures
            final(self).wf(),
            loads_view(jobs@) == old(self)@.load_jobs,
            final(self)@ == (Manager { load_jobs: Seq::empty(), ..old(self)@ }),
    {
        let mut jobs: Vec<TextureLoaderRequest> = Vec::new();
        core::mem::swap(&mut self.load_jobs, &mut jobs);
        assert(loads_view(self.load_jobs@) =~= Seq::empty());
        jobs
    }
}

/// What the loader does with a request: it makes a new handle of the
/// request's size where the handle that came with it is the null texture,
/// and fills the handle it was given otherwise.
pub fn needs_new_handle(request: &TextureLoaderRequest, null: Texture) -> (needed: bool)
    ensures
        needed == (load_view(*request).handle == null),
{
    match request {
        TextureLoaderRequest::Load(_, handle, _, _, _) => *handle == null,
    }
}

/// The texture that the pixels of a request go into: the handle that came
/// with the request, or, where that is the null texture, the handle `made`
/// for the request's size.
pub open spec fn target_of(request: Load, made: Texture, null: Texture) -> Texture {
    if request.handle == null {
        made
    } else {
        request.handle
    }
}

/// The loader's answer to a request whose pixels went into a texture: the
/// request's path, and the texture that now holds its pixels. `made` is the
/// handle that was made for the request where it needed one. A handle that
/// came with the request is answered as it came, with the size it was made
/// with.
pub fn loaded(request: TextureLoaderRequest, made: Texture, null: Texture) -> (response:
    TextureLoaderResponse)
    ensures
        loaded_view(response) == (Loaded {
            path: load_view(request).path,
            handle: target_of(load_view(request), made, null),
        }),
{
    match request {
        TextureLoaderRequest::Load(path, handle, _, _, _) => {
            if handle == null {
                TextureLoaderResponse::Loaded(path, made)
            } else {
                TextureLoaderResponse::Loaded(path, handle)
            }
        },
    }
}

/// A load that starts from the fallback and is answered by the loader puts
/// the handle that the loader made into the record, and the fallback, which
/// stood there, becomes the handle for the next load: no handle is lost and
/// none is made twice.
pub proof fn lemma_answer_swaps_handles(manager: Manager, request: Load, made: Texture)
    requires
        manager.wf(),
        manager.record(request.path) == Some(
            TextureRecord { current: manager.fallback, loading: None },
        ),
        request.handle == manager.fallback,
    ensures
        manager.apply(
            Loaded { path: request.path, handle: target_of(request, made, manager.fallback) },
        ).record(request.path) == Some(
            TextureRecord { current: made, loading: Some(manager.fallback) },
        ),
{
    lemma_put(
        manager,
        request.path,
        TextureRecord { current: made, loading: Some(manager.fallback) },
        request.path,
    );
}

/// Putting a record under a path keeps the manager well formed, makes the
/// record the path's own, and leaves every other path's record as it was.
/// A path that had no record counts as one record more; a path that had one
/// still counts once.
pub proof fn lemma_put(manager: Manager, path: Seq<char>, record: TextureRecord, other: Seq<char>)
    requires
        manager.wf(),
    ensures
        manager.put(path, record).wf(),
        manager.put(path, record).record(path) == Some(record),
        other != path ==> manager.put(path, record).record(other) == manager.record(other),
        manager.put(path, record).records.len() == manager.records.len() + (if manager.record(path) is None {
            1nat
        } else {
            0nat
        }),
{
    assert(manager.put(path, record).records.dom() =~= manager.records.dom().insert(path));
}

/// A request and an answer keep the manager well formed.
pub proof fn lemma_manager_stays_wf(manager: Manager, path: Seq<char>, response: Loaded)
    requires
        manager.wf(),
    ensures
        manager.get_texture(path).0.wf(),
        manager.apply(response).wf(),
{
    let record = match manager.record(path) {
        Some(record) => record,
        None => manager.first_record(),
    };
    lemma_put(manager, path, record, path);
    lemma_put(manager, path, TextureRecord { current: record.current, loading: None }, path);
    vstd::arithmetic::div_mod::lemma_mod_bound(
        (manager.readers_index + 1) as int,
        manager.readers as int,
    );
    match manager.record(response.path) {
        Some(known) => {
            lemma_put(
                manager,
                response.path,
                TextureRecord { current: response.handle, loading: Some(known.current) },
                path,
            );
        },
        None => {},
    }
}

/// The first request for the file of an unseen path answers with the
/// fallback at once and owes one read job, for that path. Asking again
/// before the load is answered gives the fallback again and owes nothing
/// more. Once the loader has answered with a handle, the next request gives
/// that handle, and still only the one job was ever owed.
pub proof fn lemma_unseen_path_streams_in(manager: Manager, path: Seq<char>, loaded: Texture)
    requires
        manager.wf(),
        path != Texture::FALLBACK@,
        path != Texture::BLANK@,
        !is_dynamic(path),
        manager.record(path) is None,
        loaded != manager.fallback,
    ensures
        ({
            let first = manager.get_texture(path);
            let again = first.0.get_texture(path);
            let answered = again.0.apply(Loaded { path, handle: loaded });
            let after = answered.get_texture(path);
            &&& first.1 == manager.fallback
            &&& first.0.read_jobs.len() == manager.read_jobs.len() + 1
            &&& first.0.read_jobs.last().path == path
            &&& first.0.read_jobs.last().handle == manager.fallback
            &&& first.0.read_jobs.last().reader == (manager.readers_index + 1) % manager.readers
            &&& again.1 == manager.fallback
            &&& again.0.read_jobs == first.0.read_jobs
            &&& answered.read_jobs == first.0.read_jobs
            &&& after.1 == loaded
            &&& after.0.read_jobs == first.0.read_jobs
        }),
{
    let taken = TextureRecord { current: manager.fallback, loading: None };
    lemma_put(manager, path, taken, path);
    let first = manager.get_texture(path);
    assert(first.0.record(path) == Some(taken));
    lemma_manager_stays_wf(manager, path, Loaded { path, handle: loaded });
    lemma_put(first.0, path, taken, path);
    let again = first.0.get_texture(path);
    assert(again.0.record(path) == Some(taken));
    lemma_manager_stays_wf(first.0, path, Loaded { path, handle: loaded });
    let swapped = TextureRecord { current: loaded, loading: Some(manager.fallback) };
    lemma_put(again.0, path, swapped, path);
    let answered = again.0.apply(Loaded { path, handle: loaded });
    assert(answered.record(path) == Some(swapped));
    lemma_put(answered, path, swapped, path);
}

/// The path of a texture made from memory is never read from disk: it
/// carries the prefix, and a request for a path with the prefix owes no
/// read job.
pub proof fn lemma_dynamic_paths_are_not_read(manager: Manager, count: nat, path: Seq<char>)
    requires
        is_dynamic(path),
    ensures
        is_dynamic(dynamic_path(count)),
        manager.get_texture(path).0.read_jobs == manager.read_jobs,
        manager.get_texture(path).0.readers_index == manager.readers_index,
{
}

} // verus!
