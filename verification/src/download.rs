//! The download pipeline: skip / conflict / stream / verify / promote.
//!
//! A download never leaves a half-written or corrupted file at the final
//! destination. The bytes stream into a sibling temporary file named
//! `<destination>.part` while an MD5 accumulator runs over them; only when
//! the computed digest equals the server-declared one is the temporary
//! file renamed over the destination. On a mismatch the temporary file is
//! left in place as evidence and the destination is never created.
//!
//! The decisions live here, verified; the application performs the file
//! and network operations they call for. The spec functions at the bottom
//! model the effect of one whole download on the destination directory,
//! and the proof functions state the pipeline's guarantees over that
//! model.

use vstd::prelude::*;

use crate::digest::{md5_of, Md5Hasher};
use crate::error::Error;
use crate::hexcode::{decode_hex_lower, hex_decode_ok, hex_decoded};
use crate::model::{spec_find_child, Page, PageChild};
use crate::strutil::str_eq;

verus! {

/// The name of the sibling temporary file: the destination name followed
/// by `.part`.
pub open spec fn spec_temp_name(name: Seq<char>) -> Seq<char> {
    name + ".part"@
}

/// Build the temporary file's name for a destination name.
pub fn temp_name(name: &str) -> (r: String)
    ensures
        r@ == spec_temp_name(name@),
{
    let mut t = name.to_owned();
    t.append(".part");
    t
}

/// What to do about a destination path before any byte moves.
#[derive(Debug, Clone, Copy, PartialEq, Eq, Structural)]
pub enum DownloadPlan {
    /// A regular file already sits at the destination: leave it untouched,
    /// make no request for the body, and report the skip.
    Skip,
    /// Nothing sits at the destination: stream the body into the sibling
    /// temporary file.
    Fetch,
}

/// The decision for a destination that exists (`dest_exists`) and is a
/// directory (`dest_is_dir`): a directory is a conflict, an existing file
/// is skipped, a free path is fetched into.
pub open spec fn spec_plan_download(dest_exists: bool, dest_is_dir: bool) -> Result<
    DownloadPlan,
    Error,
> {
    if dest_exists && dest_is_dir {
        Err(Error::PathConflict)
    } else if dest_exists {
        Ok(DownloadPlan::Skip)
    } else {
        Ok(DownloadPlan::Fetch)
    }
}

/// Decide what to do with the destination path, given whether something
/// exists there and whether that something is a directory.
pub fn plan_download(dest_exists: bool, dest_is_dir: bool) -> (r: Result<DownloadPlan, Error>)
    ensures
        r == spec_plan_download(dest_exists, dest_is_dir),
{
    if dest_exists && dest_is_dir {
        Err(Error::PathConflict)
    } else if dest_exists {
        Ok(DownloadPlan::Skip)
    } else {
        Ok(DownloadPlan::Fetch)
    }
}

/// The computed digest of the streamed bytes equals the declared one.
pub open spec fn spec_verified(body: Seq<u8>, expected: Seq<u8>) -> bool {
    md5_of(body) == expected
}

/// One in-flight download: the running MD5 accumulator, the declared
/// digest it will be checked against, and the progress counter.
pub struct DownloadTransfer {
    hasher: Md5Hasher,
    expected: Vec<u8>,
    received: u64,
}

impl DownloadTransfer {
    /// The bytes streamed so far.
    pub closed spec fn fed(&self) -> Seq<u8> {
        self.hasher.fed()
    }

    /// The declared digest, decoded to raw bytes.
    pub closed spec fn expected(&self) -> Seq<u8> {
        self.expected@
    }

    /// The progress counter counts exactly the bytes streamed so far.
    pub closed spec fn spec_received(&self) -> u64 {
        self.received
    }

    /// The counter and the accumulator agree.
    pub open spec fn wf(&self) -> bool {
        self.spec_received() == self.fed().len()
    }

    /// Begin a transfer against a declared digest, given as the 32
    /// lower-case hex digits the service reports. Anything else is a
    /// malformed declaration and is rejected before any byte moves.
    pub fn start(declared_md5_hex: &str) -> (r: Result<Self, Error>)
        ensures
            r is Ok <==> hex_decode_ok(declared_md5_hex@) && declared_md5_hex@.len() == 32,
            r matches Ok(t) ==> {
                &&& t.wf()
                &&& t.fed() == Seq::<u8>::empty()
                &&& t.expected() == hex_decoded(declared_md5_hex@)
                &&& t.spec_received() == 0
            },
            r is Err ==> r == Err::<Self, Error>(Error::Decode),
    {
        if declared_md5_hex.unicode_len() != 32 {
            return Err(Error::Decode);
        }
        let expected = decode_hex_lower(declared_md5_hex)?;
        Ok(DownloadTransfer { hasher: Md5Hasher::new(), expected, received: 0 })
    }

    /// Take one chunk of the body: append it to the accumulator and
    /// advance the progress counter by its length.
    ///
    /// The counter is a `u64`, so the caller keeps the total under its
    /// maximum; the declared file size already does.
    pub fn ingest(&mut self, chunk: &[u8])
        requires
            old(self).wf(),
            old(self).spec_received() + chunk@.len() <= u64::MAX,
        ensures
            final (self).wf(),
            final (self).fed() == old(self).fed() + chunk@,
            final (self).expected() == old(self).expected(),
            final (self).spec_received() == old(self).spec_received() + chunk@.len(),
    {
        self.hasher.update(chunk);
        self.received = self.received + chunk.len() as u64;
    }

    /// How many bytes have been streamed, for the progress display.
    pub fn progress(&self) -> (r: u64)
        ensures
            r == self.spec_received(),
    {
        self.received
    }

    /// End of the stream: finalize the digest and compare it against the
    /// declared one. `Ok` exactly when they agree — only then may the
    /// temporary file be renamed over the destination; on `Err` the
    /// destination must not be touched and the temporary file stays.
    pub fn finish(self) -> (r: Result<(), Error>)
        ensures
            r is Ok <==> spec_verified(self.fed(), self.expected()),
            r is Err ==> r == Err::<(), Error>(Error::Integrity),
    {
        let expected = self.expected;
        let actual = self.hasher.finalize();
        if bytes_eq(actual.as_slice(), expected.as_slice()) {
            Ok(())
        } else {
            Err(Error::Integrity)
        }
    }
}

/// Byte-for-byte slice equality.
pub fn bytes_eq(a: &[u8], b: &[u8]) -> (r: bool)
    ensures
        r == (a@ == b@),
{
    if a.len() != b.len() {
        proof {
            assert(a@ != b@);
        }
        return false;
    }
    let n = a.len();
    let mut i: usize = 0;
    while i < n
        invariant
            n == a@.len(),
            n == b@.len(),
            0 <= i <= n,
            forall|k: int| 0 <= k < i ==> a@[k] == b@[k],
        decreases n - i,
    {
        if a[i] != b[i] {
            proof {
                assert(a@[i as int] != b@[i as int]);
            }
            return false;
        }
        i = i + 1;
    }
    proof {
        assert(a@ =~= b@);
    }
    true
}

/// One file child's download order: its name, link, declared digest and
/// declared size, all present.
#[derive(Debug, Clone)]
pub struct DownloadItem {
    /// The destination file name.
    pub name: String,
    /// The authenticated download link.
    pub link: String,
    /// The declared MD5 digest, lower-case hex.
    pub md5: String,
    /// The declared size in bytes, for the progress display.
    pub size: u64,
}

/// The download order a complete file child describes.
pub open spec fn spec_item_of(c: PageChild) -> DownloadItem {
    DownloadItem {
        name: c.name,
        link: c.link->0,
        md5: c.md5->0,
        size: c.size->0,
    }
}

impl PageChild {
    /// Extract the download order from a file child. A child that carries
    /// a digest but is missing its link or size is a malformed listing.
    pub fn download_item(&self) -> (r: Result<DownloadItem, Error>)
        ensures
            r is Ok <==> self.md5 is Some && self.link is Some && self.size is Some,
            r matches Ok(it) ==> it == spec_item_of(*self),
            r is Err ==> r == Err::<DownloadItem, Error>(Error::Decode),
    {
        match (&self.md5, &self.link, &self.size) {
            (Some(md5), Some(link), Some(size)) => Ok(
                DownloadItem {
                    name: self.name.clone(),
                    link: link.clone(),
                    md5: md5.clone(),
                    size: *size,
                },
            ),
            _ => Err(Error::Decode),
        }
    }
}

/// The download orders for a folder's children, in listing order: every
/// file child yields one order; sub-folder children are passed over; a
/// file child missing its link or size fails the whole plan.
pub open spec fn spec_plan_items(children: Seq<(String, PageChild)>) -> Result<
    Seq<DownloadItem>,
    Error,
>
    decreases children.len(),
{
    if children.len() == 0 {
        Ok(Seq::empty())
    } else {
        let c = children[0].1;
        if !c.spec_is_file() {
            spec_plan_items(children.skip(1))
        } else if c.link is None || c.size is None {
            Err(Error::Decode)
        } else {
            match spec_plan_items(children.skip(1)) {
                Ok(items) => Ok(seq![spec_item_of(c)] + items),
                Err(e) => Err(e),
            }
        }
    }
}

/// Plan a whole folder's download: one order per file child, sub-folders
/// passed over.
pub fn plan_folder_download(children: &Vec<(String, PageChild)>) -> (r: Result<
    Vec<DownloadItem>,
    Error,
>)
    ensures
        r matches Ok(items) ==> spec_plan_items(children@) == Ok::<Seq<DownloadItem>, Error>(
            items@,
        ),
        r matches Err(e) ==> spec_plan_items(children@) == Err::<Seq<DownloadItem>, Error>(e),
{
    let n = children.len();
    let mut out: Vec<DownloadItem> = Vec::new();
    let mut i: usize = 0;
    proof {
        assert(children@.skip(0) =~= children@);
    }
    while i < n
        invariant
            n == children@.len(),
            0 <= i <= n,
            spec_plan_items(children@.skip(i as int)) matches Ok(rest) ==> spec_plan_items(
                children@,
            ) == Ok::<Seq<DownloadItem>, Error>(out@ + rest),
            spec_plan_items(children@.skip(i as int)) matches Err(e) ==> spec_plan_items(
                children@,
            ) == Err::<Seq<DownloadItem>, Error>(e),
        decreases n - i,
    {
        let child = &children[i].1;
        proof {
            let rest = children@.skip(i as int);
            assert(rest[0] == children@[i as int]);
            assert(rest.skip(1) =~= children@.skip(i as int + 1));
        }
        if child.is_file() {
            match child.download_item() {
                Ok(item) => {
                    let ghost out_before = out@;
                    out.push(item);
                    proof {
                        match spec_plan_items(children@.skip(i as int + 1)) {
                            Ok(rest2) => {
                                assert(spec_plan_items(children@.skip(i as int)) == Ok::<
                                    Seq<DownloadItem>,
                                    Error,
                                >(seq![spec_item_of(children@[i as int].1)] + rest2));
                                assert(out_before + (seq![spec_item_of(children@[i as int].1)]
                                    + rest2) =~= out@ + rest2);
                            },
                            Err(_) => {},
                        }
                    }
                },
                Err(e) => {
                    return Err(e);
                },
            }
        }
        i = i + 1;
    }
    proof {
        assert(children@.skip(n as int) =~= Seq::<(String, PageChild)>::empty());
        assert(out@ + Seq::<DownloadItem>::empty() =~= out@);
    }
    Ok(out)
}

/// The subdirectory a whole-folder download lands in: one named after the
/// folder's code, unless the caller suppressed appending it.
pub fn folder_subdir<'a>(page: &'a Page, no_append_name: bool) -> (r: Option<&'a String>)
    ensures
        no_append_name ==> r is None,
        !no_append_name ==> (r matches Some(c) && c@ == page.code@),
{
    if no_append_name {
        None
    } else {
        Some(&page.code)
    }
}

/// Plan one child's download by its id: the download order of the first
/// entry carrying the id. An absent id, or a matching child that is not a
/// complete file entry, is a malformed request against this listing.
pub fn plan_child_download(children: &Vec<(String, PageChild)>, child_id: &str) -> (r: Result<
    DownloadItem,
    Error,
>)
    ensures
        spec_find_child(children@, child_id@) is None ==> r == Err::<DownloadItem, Error>(
            Error::Decode,
        ),
        spec_find_child(children@, child_id@) matches Some(c) ==> {
            &&& r is Ok <==> c.md5 is Some && c.link is Some && c.size is Some
            &&& (r matches Ok(it) ==> it == spec_item_of(c))
            &&& (r is Err ==> r == Err::<DownloadItem, Error>(Error::Decode))
        },
{
    let n = children.len();
    let mut i: usize = 0;
    proof {
        assert(children@.skip(0) =~= children@);
    }
    while i < n
        invariant
            n == children@.len(),
            0 <= i <= n,
            spec_find_child(children@, child_id@) == spec_find_child(
                children@.skip(i as int),
                child_id@,
            ),
        decreases n - i,
    {
        let pair = &children[i];
        proof {
            let rest = children@.skip(i as int);
            assert(rest[0] == children@[i as int]);
            assert(rest.skip(1) =~= children@.skip(i as int + 1));
        }
        if str_eq(pair.0.as_str(), child_id) {
            return pair.1.download_item();
        }
        i = i + 1;
    }
    proof {
        assert(children@.skip(n as int) =~= Seq::<(String, PageChild)>::empty());
    }
    Err(Error::Decode)
}

// ---------------------------------------------------------------------
// The model of one whole download's effect on the destination directory.
// ---------------------------------------------------------------------

/// How one download run ends.
#[derive(Debug, Clone, Copy, PartialEq, Eq, Structural)]
pub enum DownloadOutcome {
    /// A regular file already sat at the destination; nothing was touched.
    Skipped,
    /// The destination is a directory; nothing was touched.
    Conflict,
    /// The digest matched and the temporary file was renamed over the
    /// destination.
    Completed,
    /// The digest did not match; the temporary file stays, the destination
    /// was never created.
    IntegrityFailed,
}

/// The outcome of one download run, over a model of the directory:
/// `files` maps each regular file's path to its content, `dirs` is the
/// set of directory paths, `body` is what the server streamed, and
/// `expected` is the declared digest.
pub open spec fn spec_download_outcome(
    files: Map<Seq<char>, Seq<u8>>,
    dirs: Set<Seq<char>>,
    dest: Seq<char>,
    body: Seq<u8>,
    expected: Seq<u8>,
) -> DownloadOutcome {
    let exists = files.contains_key(dest) || dirs.contains(dest);
    let is_dir = dirs.contains(dest);
    match spec_plan_download(exists, is_dir) {
        Err(_) => DownloadOutcome::Conflict,
        Ok(DownloadPlan::Skip) => DownloadOutcome::Skipped,
        Ok(DownloadPlan::Fetch) => if spec_verified(body, expected) {
            DownloadOutcome::Completed
        } else {
            DownloadOutcome::IntegrityFailed
        },
    }
}

/// The regular files after one download run: untouched on a skip or a
/// conflict; on success the body sits at the destination and the
/// temporary file is gone; on a digest mismatch the body sits only in the
/// temporary file.
pub open spec fn spec_files_after(
    files: Map<Seq<char>, Seq<u8>>,
    dirs: Set<Seq<char>>,
    dest: Seq<char>,
    body: Seq<u8>,
    expected: Seq<u8>,
) -> Map<Seq<char>, Seq<u8>> {
    match spec_download_outcome(files, dirs, dest, body, expected) {
        DownloadOutcome::Skipped => files,
        DownloadOutcome::Conflict => files,
        DownloadOutcome::Completed => files.insert(dest, body).remove(spec_temp_name(dest)),
        DownloadOutcome::IntegrityFailed => files.insert(spec_temp_name(dest), body),
    }
}

/// The temporary file's name is never the destination's.
pub proof fn lemma_temp_name_distinct(name: Seq<char>)
    ensures
        spec_temp_name(name) != name,
{
    reveal_strlit(".part");
    assert(spec_temp_name(name).len() == name.len() + 5);
}

/// A successfully completed download leaves at the destination exactly the
/// streamed bytes, whose MD5 digest is the server-declared one, and leaves
/// no temporary file behind.
pub proof fn lemma_download_completed(
    files: Map<Seq<char>, Seq<u8>>,
    dirs: Set<Seq<char>>,
    dest: Seq<char>,
    body: Seq<u8>,
    expected: Seq<u8>,
)
    requires
        spec_download_outcome(files, dirs, dest, body, expected) == DownloadOutcome::Completed,
    ensures
        spec_files_after(files, dirs, dest, body, expected).contains_key(dest),
        spec_files_after(files, dirs, dest, body, expected)[dest] == body,
        md5_of(body) == expected,
        !spec_files_after(files, dirs, dest, body, expected).contains_key(spec_temp_name(dest)),
{
    lemma_temp_name_distinct(dest);
}

/// A download whose computed digest disagrees with the declared one never
/// creates or modifies the destination: it was absent before and stays
/// absent; the streamed bytes sit only in the temporary file.
pub proof fn lemma_download_integrity_failed(
    files: Map<Seq<char>, Seq<u8>>,
    dirs: Set<Seq<char>>,
    dest: Seq<char>,
    body: Seq<u8>,
    expected: Seq<u8>,
)
    requires
        spec_download_outcome(files, dirs, dest, body, expected)
            == DownloadOutcome::IntegrityFailed,
    ensures
        !files.contains_key(dest),
        !spec_files_after(files, dirs, dest, body, expected).contains_key(dest),
        spec_files_after(files, dirs, dest, body, expected).contains_key(spec_temp_name(dest)),
        spec_files_after(files, dirs, dest, body, expected)[spec_temp_name(dest)] == body,
        md5_of(body) != expected,
{
    lemma_temp_name_distinct(dest);
}

/// When a regular file already sits at the destination, the run is a skip:
/// no file in the directory changes, the pre-existing file stays
/// byte-for-byte what it was, and the body — requested or not — goes
/// nowhere.
pub proof fn lemma_download_skipped(
    files: Map<Seq<char>, Seq<u8>>,
    dirs: Set<Seq<char>>,
    dest: Seq<char>,
    body: Seq<u8>,
    expected: Seq<u8>,
)
    requires
        files.contains_key(dest),
        !dirs.contains(dest),
    ensures
        spec_download_outcome(files, dirs, dest, body, expected) == DownloadOutcome::Skipped,
        spec_files_after(files, dirs, dest, body, expected) == files,
        spec_files_after(files, dirs, dest, body, expected)[dest] == files[dest],
{
}

/// When the destination is a directory, the run fails with the path
/// conflict and touches nothing.
pub proof fn lemma_download_conflict(
    files: Map<Seq<char>, Seq<u8>>,
    dirs: Set<Seq<char>>,
    dest: Seq<char>,
    body: Seq<u8>,
    expected: Seq<u8>,
)
    requires
        dirs.contains(dest),
    ensures
        spec_download_outcome(files, dirs, dest, body, expected) == DownloadOutcome::Conflict,
        spec_plan_download(
            files.contains_key(dest) || dirs.contains(dest),
            dirs.contains(dest),
        ) == Err::<DownloadPlan, Error>(Error::PathConflict),
        spec_files_after(files, dirs, dest, body, expected) == files,
{
}

/// Idempotence: re-running a download after it completed finds the
/// destination occupied by a regular file and skips, changing nothing —
/// no second temporary file, no rewrite.
pub proof fn lemma_download_idempotent(
    files: Map<Seq<char>, Seq<u8>>,
    dirs: Set<Seq<char>>,
    dest: Seq<char>,
    body: Seq<u8>,
    expected: Seq<u8>,
)
    requires
        spec_download_outcome(files, dirs, dest, body, expected) == DownloadOutcome::Completed,
    ensures
        spec_download_outcome(
            spec_files_after(files, dirs, dest, body, expected),
            dirs,
            dest,
            body,
            expected,
        ) == DownloadOutcome::Skipped,
        spec_files_after(
            spec_files_after(files, dirs, dest, body, expected),
            dirs,
            dest,
            body,
            expected,
        ) == spec_files_after(files, dirs, dest, body, expected),
{
    lemma_download_completed(files, dirs, dest, body, expected);
    lemma_download_skipped(
        spec_files_after(files, dirs, dest, body, expected),
        dirs,
        dest,
        body,
        expected,
    );
}

} // verus!
