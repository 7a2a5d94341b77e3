//! Storage categories, the persistence error type, the value-type contract,
//! the handle pairing an identifier with an in-memory value, and the
//! `Storage` that routes a category to a root directory and performs
//! default-aware reads and writes against a disk.

use vstd::prelude::*;
use vstd::string::StringExecFns;

use crate::disk::Disk;
use crate::disk::OpenOutcome;
use crate::disk::find_entry;
use crate::disk::lemma_put_entry_after_push;
use crate::disk::put_entry;

verus! {

/// The storage category of a value type: selects which base directory the
/// type's files live under. Fixed per type, not per instance.
#[derive(Clone, Copy, Debug, PartialEq, Eq, Structural)]
pub enum StoringType {
    Cache,
    Data,
    Config,
}

/// The errors a read or write can surface. No recovery is performed
/// internally beyond the single default-bootstrap retry.
#[derive(Clone, Copy, Debug, PartialEq, Eq, Structural)]
pub enum StoreError {
    /// File content could not be parsed into the value type.
    DecodeFailure,
    /// The value could not be serialized to text.
    EncodeFailure,
    /// Opening the file failed for a reason other than "not found".
    FileOpenFailure,
    /// Creating parent directories during default-bootstrap failed.
    DirectoryCreateFailure,
    /// Reading an opened file failed.
    FileReadFailure,
    /// Writing to the file failed.
    FileWriteFailure,
}

/// What a type must provide to be persisted: a storage category, a default
/// value, and a text codec whose encoding always decodes back to the value
/// it came from.
pub trait Storing: Sized {
    /// The storage category of the type.
    spec fn store_type_spec() -> StoringType;

    /// The default value, written on first access.
    spec fn default_spec() -> Self;

    /// The codec's text encoding of a value.
    spec fn encode_spec(self) -> Seq<char>;

    /// The value the codec decodes a text to, if any.
    spec fn decode_spec(text: Seq<char>) -> Option<Self>;

    /// The storage category of the type.
    fn store_type() -> (t: StoringType)
        ensures
            t == Self::store_type_spec(),
    ;

    /// The default value, written on first access.
    fn default_value() -> (v: Self)
        ensures
            v == Self::default_spec(),
    ;

    /// Encode a value; the encoding decodes back to the value it came from.
    fn encode(&self) -> (text: String)
        ensures
            text@ == self.encode_spec(),
            Self::decode_spec(text@) == Some(*self),
    ;

    /// Decode a text, if it encodes a value of this type.
    fn decode(text: &str) -> (r: Option<Self>)
        ensures
            r == Self::decode_spec(text@),
    ;
}

/// Pairs an identifier with an in-memory value of a store-value type; pure
/// data holder, no I/O. The identifier is non-empty and stable for the
/// handle's lifetime; the value holds the default or the last successfully
/// read or written value.
pub struct StoreHandle<T> {
    store_id: String,
    store: T,
}

impl<T: Storing> StoreHandle<T> {
    /// The handle's identifier.
    pub closed spec fn id(self) -> Seq<char> {
        self.store_id@
    }

    /// The handle's in-memory value.
    pub closed spec fn value(self) -> T {
        self.store
    }

    /// A handle for `store_id`, holding the type's default value.
    pub fn new(store_id: &str) -> (h: Self)
        requires
            store_id@.len() > 0,
        ensures
            h.id() == store_id@,
            h.value() == T::default_spec(),
    {
        StoreHandle { store_id: store_id.to_owned(), store: T::default_value() }
    }

    /// A reference to the stored value.
    pub fn get_store(&self) -> (v: &T)
        ensures
            *v == self.value(),
    {
        &self.store
    }

    /// A mutable reference to the stored value.
    pub fn get_store_mut(&mut self) -> (v: &mut T)
        ensures
            *v == old(self).value(),
            final(self).value() == *final(v),
            final(self).id() == old(self).id(),
    {
        &mut self.store
    }

    /// The handle's identifier.
    pub fn store_id(&self) -> (s: &str)
        ensures
            s@ == self.id(),
    {
        self.store_id.as_str()
    }

    /// Replace the stored value; used when a read brings disk content in.
    pub(crate) fn set_store(&mut self, store: T)
        ensures
            final(self).value() == store,
            final(self).id() == old(self).id(),
    {
        self.store = store;
    }
}

/// Relies on dirs::cache_dir: the platform's cache base directory, if the
/// platform reports one and its path is unicode. The result depends on the
/// environment, so nothing is promised of it.
#[verifier::external_body]
fn platform_cache_dir() -> (r: Option<String>) {
    dirs::cache_dir().and_then(|p| p.into_os_string().into_string().ok())
}

/// Relies on dirs::data_dir: the platform's data base directory, if the
/// platform reports one and its path is unicode. The result depends on the
/// environment, so nothing is promised of it.
#[verifier::external_body]
fn platform_data_dir() -> (r: Option<String>) {
    dirs::data_dir().and_then(|p| p.into_os_string().into_string().ok())
}

/// Relies on dirs::config_dir: the platform's config base directory, if the
/// platform reports one and its path is unicode. The result depends on the
/// environment, so nothing is promised of it.
#[verifier::external_body]
fn platform_config_dir() -> (r: Option<String>) {
    dirs::config_dir().and_then(|p| p.into_os_string().into_string().ok())
}

/// The files a read leaves on the disk: an existing file is left alone; a
/// missing one is bootstrapped with the encoded default where the disk
/// accepts writes.
pub open spec fn spec_read_files<T: Storing>(
    entries: Seq<(Seq<char>, Seq<char>)>,
    writable: bool,
    p: Seq<char>,
) -> Seq<(Seq<char>, Seq<char>)> {
    if find_entry(entries, p) is Some {
        entries
    } else if writable {
        entries.push((p, T::default_spec().encode_spec()))
    } else {
        entries
    }
}

/// The in-memory value a read leaves behind, starting from `v0`: the decoded
/// file content on success, the default after a bootstrap, `v0` untouched on
/// any failure.
pub open spec fn spec_read_value<T: Storing>(
    entries: Seq<(Seq<char>, Seq<char>)>,
    writable: bool,
    locked: bool,
    p: Seq<char>,
    v0: T,
) -> T {
    match find_entry(entries, p) {
        Some(c) => if locked {
            v0
        } else {
            match T::decode_spec(c) {
                Some(v) => v,
                None => v0,
            }
        },
        None => if writable && !locked {
            T::default_spec()
        } else {
            v0
        },
    }
}

/// What a read returns.
pub open spec fn spec_read_result<T: Storing>(
    entries: Seq<(Seq<char>, Seq<char>)>,
    writable: bool,
    locked: bool,
    p: Seq<char>,
) -> Result<(), StoreError> {
    match find_entry(entries, p) {
        Some(c) => if locked {
            Err(StoreError::FileOpenFailure)
        } else if T::decode_spec(c) is Some {
            Ok(())
        } else {
            Err(StoreError::DecodeFailure)
        },
        None => if !writable {
            Err(StoreError::DirectoryCreateFailure)
        } else if locked {
            Err(StoreError::FileOpenFailure)
        } else {
            Ok(())
        },
    }
}

/// The files a write of `v` leaves on the disk: the encoding of `v` under
/// `p` on success; after a failed reopen of a bootstrapped file, the encoded
/// default; otherwise the disk is untouched.
pub open spec fn spec_write_files<T: Storing>(
    entries: Seq<(Seq<char>, Seq<char>)>,
    writable: bool,
    locked: bool,
    p: Seq<char>,
    v: T,
) -> Seq<(Seq<char>, Seq<char>)> {
    match find_entry(entries, p) {
        Some(_) => if locked || !writable {
            entries
        } else {
            put_entry(entries, p, v.encode_spec())
        },
        None => if !writable {
            entries
        } else if locked {
            entries.push((p, T::default_spec().encode_spec()))
        } else {
            entries.push((p, v.encode_spec()))
        },
    }
}

/// What a write returns.
pub open spec fn spec_write_result<T: Storing>(
    entries: Seq<(Seq<char>, Seq<char>)>,
    writable: bool,
    locked: bool,
    p: Seq<char>,
) -> Result<(), StoreError> {
    match find_entry(entries, p) {
        Some(_) => if locked {
            Err(StoreError::FileOpenFailure)
        } else if !writable {
            Err(StoreError::FileWriteFailure)
        } else {
            Ok(())
        },
        None => if !writable {
            Err(StoreError::DirectoryCreateFailure)
        } else if locked {
            Err(StoreError::FileOpenFailure)
        } else {
            Ok(())
        },
    }
}

/// Owns the three category root directories and resolves a handle's file
/// path from its value type's category; performs read and write with
/// default-on-missing creation. Immutable after construction.
pub struct Storage {
    cache_dir: String,
    data_dir: String,
    config_dir: String,
}

impl Clone for Storage {
    /// Storages are cheaply duplicable and shared across managers.
    fn clone(&self) -> (res: Self)
        ensures
            res == *self,
    {
        Storage {
            cache_dir: self.cache_dir.clone(),
            data_dir: self.data_dir.clone(),
            config_dir: self.config_dir.clone(),
        }
    }
}

impl Storage {
    /// The cache category's root directory.
    pub closed spec fn cache_root(self) -> Seq<char> {
        self.cache_dir@
    }

    /// The data category's root directory.
    pub closed spec fn data_root(self) -> Seq<char> {
        self.data_dir@
    }

    /// The config category's root directory.
    pub closed spec fn config_root(self) -> Seq<char> {
        self.config_dir@
    }

    /// The root directory a category routes to.
    pub open spec fn root_for(self, t: StoringType) -> Seq<char> {
        match t {
            StoringType::Cache => self.cache_root(),
            StoringType::Data => self.data_root(),
            StoringType::Config => self.config_root(),
        }
    }

    /// The three roots are independent: pairwise distinct.
    pub open spec fn wf(self) -> bool {
        self.cache_root() != self.data_root() && self.cache_root() != self.config_root()
            && self.data_root() != self.config_root()
    }

    /// The file path an identifier resolves to under a category.
    pub open spec fn path_spec(self, t: StoringType, id: Seq<char>) -> Seq<char> {
        self.root_for(t) + seq!['/'] + id
    }

    /// Whether three base directories, each joined with `'/'` and `app_id`,
    /// give a storage: all three must be present and the joined roots must
    /// come out pairwise distinct.
    pub open spec fn bases_admit(
        cache: Option<String>,
        data: Option<String>,
        config: Option<String>,
        app_id: Seq<char>,
    ) -> bool {
        match (cache, data, config) {
            (Some(c), Some(d), Some(g)) => {
                let rc = c@ + seq!['/'] + app_id;
                let rd = d@ + seq!['/'] + app_id;
                let rg = g@ + seq!['/'] + app_id;
                rc != rd && rc != rg && rd != rg
            },
            _ => false,
        }
    }

    /// Builds a storage from three base directories: each root is its base
    /// joined with `'/'` and `app_id`. `None` exactly when a base is absent
    /// or the joined roots collide.
    pub fn from_bases(
        cache: Option<String>,
        data: Option<String>,
        config: Option<String>,
        app_id: &str,
    ) -> (r: Option<Storage>)
        ensures
            r is Some <==> Self::bases_admit(cache, data, config, app_id@),
            (match (r, cache, data, config) {
                (Some(st), Some(c), Some(d), Some(g)) => st.cache_root() == c@ + seq!['/']
                    + app_id@ && st.data_root() == d@ + seq!['/'] + app_id@ && st.config_root()
                    == g@ + seq!['/'] + app_id@ && st.wf(),
                _ => true,
            }),
    {
        match (cache, data, config) {
            (Some(cache_base), Some(data_base), Some(config_base)) => {
                let mut cache_dir = cache_base;
                cache_dir.append("/");
                cache_dir.append(app_id);
                let mut data_dir = data_base;
                data_dir.append("/");
                data_dir.append(app_id);
                let mut config_dir = config_base;
                config_dir.append("/");
                config_dir.append(app_id);
                proof {
                    reveal_strlit("/");
                    assert(cache_dir@ =~= cache->0@ + seq!['/'] + app_id@);
                    assert(data_dir@ =~= data->0@ + seq!['/'] + app_id@);
                    assert(config_dir@ =~= config->0@ + seq!['/'] + app_id@);
                }
                if cache_dir.eq(&data_dir) || cache_dir.eq(&config_dir) || data_dir.eq(
                    &config_dir,
                ) {
                    None
                } else {
                    Some(Storage { cache_dir, data_dir, config_dir })
                }
            },
            _ => None,
        }
    }

    /// A storage rooted at the platform's standard cache, data and config
    /// base directories, each joined with `app_id`. `None` when the platform
    /// does not report a base directory (an environment precondition, not a
    /// runtime error) or the reported roots are not independent; what is
    /// built from the reported directories is pinned by `from_bases`.
    pub fn new(app_id: &str) -> (r: Option<Storage>)
        ensures
            r matches Some(st) ==> st.wf(),
    {
        Self::from_bases(
            platform_cache_dir(),
            platform_data_dir(),
            platform_config_dir(),
            app_id,
        )
    }

    /// A storage with explicit, independent root directories; the entry
    /// point for isolation and tests, no platform lookup.
    pub fn from(cache_dir: String, data_dir: String, config_dir: String) -> (st: Storage)
        requires
            cache_dir@ != data_dir@,
            cache_dir@ != config_dir@,
            data_dir@ != config_dir@,
        ensures
            st.wf(),
            st.cache_root() == cache_dir@,
            st.data_root() == data_dir@,
            st.config_root() == config_dir@,
    {
        Storage { cache_dir, data_dir, config_dir }
    }

    /// The root directory for `T`'s category.
    fn dir_path<T: Storing>(&self) -> (p: String)
        ensures
            p@ == self.root_for(T::store_type_spec()),
    {
        match T::store_type() {
            StoringType::Cache => self.cache_dir.clone(),
            StoringType::Data => self.data_dir.clone(),
            StoringType::Config => self.config_dir.clone(),
        }
    }

    /// The file path `identifier` resolves to under `T`'s category:
    /// the category's root joined with the identifier. Pure, no I/O.
    pub fn path_for<T: Storing>(&self, identifier: &str) -> (p: String)
        ensures
            p@ == self.path_spec(T::store_type_spec(), identifier@),
    {
        let mut p = self.dir_path::<T>();
        p.append("/");
        p.append(identifier);
        proof {
            reveal_strlit("/");
            assert(p@ =~= self.path_spec(T::store_type_spec(), identifier@));
        }
        p
    }

    /// Reads the file the handle resolves to and brings its decoded content
    /// into the handle. A missing file is first bootstrapped with the
    /// encoded default (creating the directory tree), then opened on a
    /// second and final attempt. On any failure the handle's value is left
    /// untouched.
    pub fn read<T: Storing>(&self, disk: &mut Disk, handle: &mut StoreHandle<T>) -> (r: Result<
        (),
        StoreError,
    >)
        ensures
            final(disk).writable() == old(disk).writable(),
            final(disk).locked() == old(disk).locked(),
            final(handle).id() == old(handle).id(),
            ({
                let p = self.path_spec(T::store_type_spec(), old(handle).id());
                &&& final(disk).entries() == spec_read_files::<T>(
                    old(disk).entries(),
                    old(disk).writable(),
                    p,
                )
                &&& final(handle).value() == spec_read_value::<T>(
                    old(disk).entries(),
                    old(disk).writable(),
                    old(disk).locked(),
                    p,
                    old(handle).value(),
                )
                &&& r == spec_read_result::<T>(
                    old(disk).entries(),
                    old(disk).writable(),
                    old(disk).locked(),
                    p,
                )
                &&& (find_entry(old(disk).entries(), p) is None && old(disk).writable()
                    ==> T::decode_spec(T::default_spec().encode_spec()) == Some(T::default_spec()))
            }),
    {
        let dir = self.dir_path::<T>();
        let mut path = dir.clone();
        path.append("/");
        path.append(handle.store_id());
        proof {
            reveal_strlit("/");
            assert(path@ =~= self.path_spec(T::store_type_spec(), old(handle).id()));
        }
        match disk.open_file(&path) {
            OpenOutcome::Found(content) => match T::decode(content.as_str()) {
                Some(v) => {
                    handle.set_store(v);
                    Ok(())
                },
                None => Err(StoreError::DecodeFailure),
            },
            OpenOutcome::Refused => Err(StoreError::FileOpenFailure),
            OpenOutcome::Missing => {
                if !disk.create_dir_tree(&dir) {
                    return Err(StoreError::DirectoryCreateFailure);
                }
                let ghost pre = disk.entries();
                let default = T::default_value();
                let text = default.encode();
                let ghost tview = text@;
                if !disk.write_file(&path, text) {
                    return Err(StoreError::FileWriteFailure);
                }
                proof {
                    crate::disk::lemma_find_entry_push(pre, (path@, tview), path@);
                }
                match disk.open_file(&path) {
                    OpenOutcome::Found(content) => match T::decode(content.as_str()) {
                        Some(v) => {
                            handle.set_store(v);
                            Ok(())
                        },
                        None => Err(StoreError::DecodeFailure),
                    },
                    OpenOutcome::Refused => Err(StoreError::FileOpenFailure),
                    OpenOutcome::Missing => Err(StoreError::FileOpenFailure),
                }
            },
        }
    }

    /// Writes the handle's current value, encoded, to the file the handle
    /// resolves to. A missing file is first bootstrapped with the encoded
    /// default (creating the directory tree), then opened on a second and
    /// final attempt and overwritten with the current value.
    pub fn write<T: Storing>(&self, disk: &mut Disk, handle: &mut StoreHandle<T>) -> (r: Result<
        (),
        StoreError,
    >)
        ensures
            final(disk).writable() == old(disk).writable(),
            final(disk).locked() == old(disk).locked(),
            *final(handle) == *old(handle),
            ({
                let p = self.path_spec(T::store_type_spec(), old(handle).id());
                &&& final(disk).entries() == spec_write_files::<T>(
                    old(disk).entries(),
                    old(disk).writable(),
                    old(disk).locked(),
                    p,
                    old(handle).value(),
                )
                &&& r == spec_write_result::<T>(
                    old(disk).entries(),
                    old(disk).writable(),
                    old(disk).locked(),
                    p,
                )
            }),
            T::decode_spec(old(handle).value().encode_spec()) == Some(old(handle).value()),
    {
        let text = handle.get_store().encode();
        let dir = self.dir_path::<T>();
        let mut path = dir.clone();
        path.append("/");
        path.append(handle.store_id());
        proof {
            reveal_strlit("/");
            assert(path@ =~= self.path_spec(T::store_type_spec(), old(handle).id()));
        }
        match disk.open_file(&path) {
            OpenOutcome::Found(_) => {
                if disk.write_file(&path, text) {
                    Ok(())
                } else {
                    Err(StoreError::FileWriteFailure)
                }
            },
            OpenOutcome::Refused => Err(StoreError::FileOpenFailure),
            OpenOutcome::Missing => {
                if !disk.create_dir_tree(&dir) {
                    return Err(StoreError::DirectoryCreateFailure);
                }
                let ghost pre = disk.entries();
                let default = T::default_value();
                let dtext = default.encode();
                let ghost dview = dtext@;
                if !disk.write_file(&path, dtext) {
                    return Err(StoreError::FileWriteFailure);
                }
                proof {
                    crate::disk::lemma_find_entry_push(pre, (path@, dview), path@);
                }
                match disk.open_file(&path) {
                    OpenOutcome::Found(_) => {
                        if disk.write_file(&path, text) {
                            proof {
                                lemma_put_entry_after_push(
                                    pre,
                                    path@,
                                    T::default_spec().encode_spec(),
                                    old(handle).value().encode_spec(),
                                );
                            }
                            Ok(())
                        } else {
                            Err(StoreError::FileWriteFailure)
                        }
                    },
                    OpenOutcome::Refused => Err(StoreError::FileOpenFailure),
                    OpenOutcome::Missing => Err(StoreError::FileOpenFailure),
                }
            },
        }
    }
}

} // verus!
