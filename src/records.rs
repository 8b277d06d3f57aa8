use vstd::prelude::*;
use vstd::string::StringExecFns;
use crate::text::{decimal, decimal_string};

verus! {

/// The reply to an upload: one record per uploaded file.
#[derive(Debug, Clone)]
pub struct UploadResponse {
    pub success: bool,
    pub files: Vec<File>,
}

/// One uploaded file, with its path relative to the display domain.
#[derive(Debug, Clone)]
pub struct File {
    pub success: bool,
    pub hash: String,
    pub name: String,
    pub url: String,
    pub size: Option<i64>,
}

/// The reply to a deletion: the object that was deleted.
#[derive(Debug, Clone)]
pub struct DeleteResponse {
    pub success: bool,
    pub data: FileListData,
}

/// One page of the objects associated with an account.
#[derive(Debug, Clone)]
pub struct FileListResponse {
    pub success: bool,
    pub total_objects: i64,
    pub data: Vec<FileListData>,
}

/// One stored object as the service describes it. `kind` tells which of the
/// optional fields are present: 0 a file, 1 a redirect, 2 a tombstone.
#[derive(Debug, Clone)]
pub struct FileListData {
    pub bucket: String,
    pub key: String,
    pub dir: String,
    pub kind: i64,
    pub dest_url: Option<String>,
    pub content_type: Option<String>,
    pub content_length: Option<i64>,
    pub created_at: String,
    pub deleted_at: Option<String>,
    pub delete_reason: Option<String>,
    pub md5_hash: Option<String>,
    pub sha256_hash: Option<String>,
    pub associated_with_current_user: bool,
}

/// A stored object with exactly the fields that its kind carries.
#[derive(Debug, Clone, PartialEq, Eq)]
pub enum Entry {
    File { key: String, created_at: String, content_type: String, content_length: i64, md5_hash: String },
    Redirect { key: String, dest_url: String, created_at: String },
    Tombstone { key: String, created_at: String, deleted_at: String, delete_reason: String },
}

/// Why a record could not be read as an [`Entry`].
#[derive(Debug, Clone, Copy, PartialEq, Eq, Structural)]
pub enum EntryError {
    /// The kind is none of 0, 1 and 2.
    UnknownKind(i64),
    /// A field that the kind requires is absent.
    MissingField,
}

pub const FILE_KIND: i64 = 0;
pub const REDIRECT_KIND: i64 = 1;
pub const TOMBSTONE_KIND: i64 = 2;

/// Whether the fields that the record's kind requires are all present.
pub open spec fn has_required_fields(d: FileListData) -> bool {
    if d.kind == FILE_KIND {
        d.content_type is Some && d.content_length is Some && d.md5_hash is Some
    } else if d.kind == REDIRECT_KIND {
        d.dest_url is Some
    } else if d.kind == TOMBSTONE_KIND {
        d.deleted_at is Some && d.delete_reason is Some
    } else {
        true
    }
}

/// The entry that a record with a known kind and its required fields
/// stands for.
pub open spec fn entry_of(d: FileListData) -> Entry
    recommends
        0 <= d.kind <= 2,
        has_required_fields(d),
{
    if d.kind == FILE_KIND {
        Entry::File {
            key: d.key,
            created_at: d.created_at,
            content_type: d.content_type->0,
            content_length: d.content_length->0,
            md5_hash: d.md5_hash->0,
        }
    } else if d.kind == REDIRECT_KIND {
        Entry::Redirect { key: d.key, dest_url: d.dest_url->0, created_at: d.created_at }
    } else {
        Entry::Tombstone {
            key: d.key,
            created_at: d.created_at,
            deleted_at: d.deleted_at->0,
            delete_reason: d.delete_reason->0,
        }
    }
}

/// The text shown for an entry in a listing.
pub open spec fn render_of(e: Entry) -> Seq<char> {
    match e {
        Entry::File { key, created_at, content_type, content_length, md5_hash } =>
            "\nType: File\nKey: "@ + key@ + "\nCreation Date: "@ + created_at@
                + "\nMIME Type: "@ + content_type@ + "\nFile Length: "@
                + decimal(content_length as int) + "\nMD5 Hash: "@ + md5_hash@ + "\n"@,
        Entry::Redirect { key, dest_url, created_at } =>
            "\nType: Redirect\nKey: "@ + key@ + "\nRedirect URL: "@ + dest_url@
                + "\nCreation Date: "@ + created_at@ + "\n"@,
        Entry::Tombstone { key, created_at, deleted_at, delete_reason } =>
            "\nType: Tombstone\nKey: "@ + key@ + "\nCreation Date: "@ + created_at@
                + "\nDeletion Date: "@ + deleted_at@ + "\nReason For Deletion: "@
                + delete_reason@ + "\n"@,
    }
}

fn take_string(o: &Option<String>) -> (r: Result<String, EntryError>)
    ensures
        match o {
            Some(s) => r == Ok::<String, EntryError>(*s),
            None => r == Err::<String, EntryError>(EntryError::MissingField),
        },
{
    match o {
        Some(s) => Ok(s.clone()),
        None => Err(EntryError::MissingField),
    }
}

impl FileListData {
    /// Reads the record as an entry of its kind, checking that the fields
    /// that the kind requires are present.
    pub fn entry(&self) -> (r: Result<Entry, EntryError>)
        ensures
            !(0 <= self.kind <= 2) ==> r == Err::<Entry, EntryError>(EntryError::UnknownKind(self.kind)),
            0 <= self.kind <= 2 && !has_required_fields(*self) ==> r == Err::<Entry, EntryError>(EntryError::MissingField),
            0 <= self.kind <= 2 && has_required_fields(*self) ==> r == Ok::<Entry, EntryError>(entry_of(*self)),
    {
        if self.kind == FILE_KIND {
            let content_type = take_string(&self.content_type)?;
            let content_length = match self.content_length {
                Some(n) => n,
                None => return Err(EntryError::MissingField),
            };
            let md5_hash = take_string(&self.md5_hash)?;
            Ok(Entry::File {
                key: self.key.clone(),
                created_at: self.created_at.clone(),
                content_type,
                content_length,
                md5_hash,
            })
        } else if self.kind == REDIRECT_KIND {
            let dest_url = take_string(&self.dest_url)?;
            Ok(Entry::Redirect { key: self.key.clone(), dest_url, created_at: self.created_at.clone() })
        } else if self.kind == TOMBSTONE_KIND {
            let deleted_at = take_string(&self.deleted_at)?;
            let delete_reason = take_string(&self.delete_reason)?;
            Ok(Entry::Tombstone {
                key: self.key.clone(),
                created_at: self.created_at.clone(),
                deleted_at,
                delete_reason,
            })
        } else {
            Err(EntryError::UnknownKind(self.kind))
        }
    }
}

impl Entry {
    /// The text shown for this entry in a listing.
    pub fn render(&self) -> (r: String)
        ensures
            r@ == render_of(*self),
    {
        let mut s = String::new();
        match self {
            Entry::File { key, created_at, content_type, content_length, md5_hash } => {
                s.append("\nType: File\nKey: ");
                s.append(key.as_str());
                s.append("\nCreation Date: ");
                s.append(created_at.as_str());
                s.append("\nMIME Type: ");
                s.append(content_type.as_str());
                s.append("\nFile Length: ");
                let len = decimal_string(*content_length);
                s.append(len.as_str());
                s.append("\nMD5 Hash: ");
                s.append(md5_hash.as_str());
                s.append("\n");
            },
            Entry::Redirect { key, dest_url, created_at } => {
                s.append("\nType: Redirect\nKey: ");
                s.append(key.as_str());
                s.append("\nRedirect URL: ");
                s.append(dest_url.as_str());
                s.append("\nCreation Date: ");
                s.append(created_at.as_str());
                s.append("\n");
            },
            Entry::Tombstone { key, created_at, deleted_at, delete_reason } => {
                s.append("\nType: Tombstone\nKey: ");
                s.append(key.as_str());
                s.append("\nCreation Date: ");
                s.append(created_at.as_str());
                s.append("\nDeletion Date: ");
                s.append(deleted_at.as_str());
                s.append("\nReason For Deletion: ");
                s.append(delete_reason.as_str());
                s.append("\n");
            },
        }
        s
    }
}

/// The text of a listing of `ds`: each record with a known kind rendered in
/// order, records of an unknown kind left out, and `MissingField` as soon as
/// a record of a known kind lacks a field that its kind requires.
pub open spec fn listing_of(ds: Seq<FileListData>) -> Result<Seq<char>, EntryError>
    decreases ds.len(),
{
    if ds.len() == 0 {
        Ok(Seq::empty())
    } else {
        let d = ds.last();
        match listing_of(ds.drop_last()) {
            Err(e) => Err(e),
            Ok(t) => if !(0 <= d.kind <= 2) {
                Ok(t)
            } else if !has_required_fields(d) {
                Err(EntryError::MissingField)
            } else {
                Ok(t + render_of(entry_of(d)))
            },
        }
    }
}

impl FileListResponse {
    /// The text of the listing of this page's records.
    pub fn listing(&self) -> (r: Result<String, EntryError>)
        ensures
            match r {
                Ok(s) => listing_of(self.data@) == Ok::<Seq<char>, EntryError>(s@),
                Err(e) => listing_of(self.data@) == Err::<Seq<char>, EntryError>(e),
            },
    {
        let mut text = String::new();
        let mut i: usize = 0;
        while i < self.data.len()
            invariant
                i <= self.data@.len(),
                listing_of(self.data@.take(i as int)) == Ok::<Seq<char>, EntryError>(text@),
            decreases self.data@.len() - i,
        {
            let ghost before = self.data@.take(i as int);
            assert(self.data@.take(i + 1).drop_last() =~= before);
            match self.data[i].entry() {
                Ok(e) => {
                    let shown = e.render();
                    text.append(shown.as_str());
                },
                Err(EntryError::UnknownKind(_)) => {},
                Err(EntryError::MissingField) => {
                    proof {
                        lemma_listing_stays_failed(self.data@, i as int + 1);
                    }
                    return Err(EntryError::MissingField);
                },
            }
            i = i + 1;
        }
        assert(self.data@.take(i as int) =~= self.data@);
        Ok(text)
    }
}

/// Once a prefix of the records fails to list, the whole sequence fails
/// with the same error.
proof fn lemma_listing_stays_failed(ds: Seq<FileListData>, k: int)
    requires
        0 <= k <= ds.len(),
        listing_of(ds.take(k)) is Err,
    ensures
        listing_of(ds) == listing_of(ds.take(k)),
    decreases ds.len() - k,
{
    if k < ds.len() {
        assert(ds.take(k + 1).drop_last() =~= ds.take(k));
        lemma_listing_stays_failed(ds, k + 1);
    } else {
        assert(ds.take(k) =~= ds);
    }
}

} // verus!
