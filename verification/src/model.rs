//! The metadata model: a remote folder listing and an upload's result.
//!
//! A folder listing holds child entries keyed by an id that is unique
//! site-wide. An entry is either a file (it carries a size, an MD5 digest
//! and a download link) or a sub-folder; the service has historically
//! shipped both an explicit kind tag and a shape where the kind must be
//! inferred from which fields are present, so the model infers it from
//! field presence.

use vstd::prelude::*;

use crate::error::Error;
use crate::strutil::str_eq;

verus! {

/// One child entry of a folder listing.
///
/// Timestamps are Unix seconds. The optional fields are present on file
/// entries and absent on sub-folder entries.
#[derive(Debug, Clone)]
pub struct PageChild {
    /// How many times the file was downloaded; files only.
    pub download_count: Option<u64>,
    /// Creation time, Unix seconds.
    pub create_time: i64,
    /// Last modification time, Unix seconds.
    pub mod_time: i64,
    /// The authenticated download link; files only.
    pub link: Option<String>,
    /// The MD5 digest of the content as lower-case hex; files only.
    pub md5: Option<String>,
    /// The content size in bytes; files only.
    pub size: Option<u64>,
    /// The entry's name.
    pub name: String,
}

impl PageChild {
    /// The entry is a file: the service declared a digest for it.
    ///
    /// Sub-folder entries never carry a digest, so its presence
    /// discriminates the two shapes.
    pub open spec fn spec_is_file(&self) -> bool {
        self.md5 is Some
    }

    /// Whether this entry is a file rather than a sub-folder.
    pub fn is_file(&self) -> (r: bool)
        ensures
            r == self.spec_is_file(),
    {
        self.md5.is_some()
    }
}

/// The first child entry carrying id `id`, if any. Within a well-formed
/// listing ids are unique, so "first" is simply "the" match.
pub open spec fn spec_find_child(children: Seq<(String, PageChild)>, id: Seq<char>) -> Option<
    PageChild,
>
    decreases children.len(),
{
    if children.len() == 0 {
        None
    } else if children[0].0@ == id {
        Some(children[0].1)
    } else {
        spec_find_child(children.skip(1), id)
    }
}

/// A remote folder listing: the folder's own attributes and its children.
#[derive(Debug, Clone)]
pub struct Page {
    /// The number of children.
    pub children_count: u64,
    /// The folder code, as it shows up in `https://gofile.io/d/{code}`.
    pub code: String,
    /// Creation time, Unix seconds.
    pub create_time: i64,
    /// The folder's id.
    pub id: String,
    /// The children, as pairs of child id and entry.
    pub children: Vec<(String, PageChild)>,
    /// The total size of the folder's content in bytes.
    pub total_size: u64,
    /// Last modification time, Unix seconds.
    pub mod_time: i64,
    /// The folder's name.
    pub name: String,
    /// Whether the folder is publicly visible.
    pub public: bool,
    /// The total number of downloads of the folder's content.
    pub total_download_count: u64,
}

impl Page {
    /// Child ids are unique within a listing.
    pub open spec fn wf(&self) -> bool {
        forall|i: int, j: int|
            0 <= i < j < self.children@.len() ==> (#[trigger] self.children@[i]).0@ != (
            #[trigger] self.children@[j]).0@
    }

    /// There is a child with id `id`.
    pub open spec fn spec_has_child(&self, id: Seq<char>) -> bool {
        spec_find_child(self.children@, id) is Some
    }

    /// The listing is complete: it holds as many children as the folder
    /// declares.
    ///
    /// The contents call fetches a single large page and never loops, so a
    /// folder with more children than the page size would come back
    /// truncated; a caller must not treat a truncated listing as the
    /// whole folder.
    pub fn check_complete(&self) -> (r: Result<(), Error>)
        ensures
            r is Ok <==> self.children@.len() == self.children_count,
            r is Err ==> r == Err::<(), Error>(Error::Decode),
    {
        if self.children.len() as u64 == self.children_count {
            Ok(())
        } else {
            Err(Error::Decode)
        }
    }

    /// Look a child up by its id: the first entry carrying it, as
    /// [`spec_find_child`] names it.
    pub fn get_child(&self, id: &str) -> (r: Option<&PageChild>)
        ensures
            r is Some <==> self.spec_has_child(id@),
            r matches Some(c) ==> spec_find_child(self.children@, id@) == Some(*c),
    {
        let n = self.children.len();
        let mut i: usize = 0;
        proof {
            assert(self.children@.skip(0) =~= self.children@);
        }
        while i < n
            invariant
                n == self.children@.len(),
                0 <= i <= n,
                spec_find_child(self.children@, id@) == spec_find_child(
                    self.children@.skip(i as int),
                    id@,
                ),
            decreases n - i,
        {
            let pair = &self.children[i];
            proof {
                let rest = self.children@.skip(i as int);
                assert(rest[0] == self.children@[i as int]);
                assert(rest.skip(1) =~= self.children@.skip(i as int + 1));
            }
            if str_eq(pair.0.as_str(), id) {
                return Some(&pair.1);
            }
            i = i + 1;
        }
        proof {
            assert(self.children@.skip(n as int) =~= Seq::<(String, PageChild)>::empty());
        }
        None
    }
}

/// What the service reports about a completed upload.
#[derive(Debug, Clone)]
pub struct UploadInfo {
    /// Creation time, Unix seconds.
    pub create_time: i64,
    /// The page where the file can be downloaded.
    pub download_page: String,
    /// The guest token, present only when the upload authenticated as a
    /// fresh guest.
    pub guest_token: Option<String>,
    /// The uploaded file's id.
    pub id: String,
    /// The MD5 digest of the uploaded bytes, lower-case hex.
    pub md5: String,
    /// The MIME type the service recorded.
    pub mimetype: String,
    /// Last modification time, Unix seconds.
    pub mod_time: i64,
    /// The uploaded file's name.
    pub name: String,
    /// The parent folder's id.
    pub parent_folder: String,
    /// The parent folder's code.
    pub parent_folder_code: String,
    /// The servers the file is stored on.
    pub servers: Vec<String>,
    /// The file size in bytes.
    pub size: u64,
    /// The entry kind the service reported, `"file"` for uploads.
    pub kind: String,
}

} // verus!
