//! The upload pipeline's verified pieces: progress accounting over the
//! streamed file and the MIME type derived from the file's name.
//!
//! The file itself is streamed by the application, which wraps the source
//! so that every successful read of `n` bytes is reported here before the
//! bytes reach the HTTP layer. The declared length is read once up front;
//! it is both the multipart part's content length and the progress total.

use vstd::prelude::*;

use crate::error::Error;

verus! {

/// The sum of a sequence of progress increments.
pub open spec fn sum_u64(s: Seq<u64>) -> int
    decreases s.len(),
{
    if s.len() == 0 {
        0
    } else {
        sum_u64(s.drop_last()) + s.last()
    }
}

/// Progress accounting for one upload: the declared length, the bytes
/// reported so far, and (as ghost history) every increment reported.
pub struct UploadProgressTracker {
    len: u64,
    position: u64,
    increments: Ghost<Seq<u64>>,
}

impl UploadProgressTracker {
    /// The declared length of the source file.
    pub closed spec fn spec_len(&self) -> u64 {
        self.len
    }

    /// How many bytes have been reported read so far.
    pub closed spec fn spec_position(&self) -> u64 {
        self.position
    }

    /// Every increment reported so far, in order.
    pub closed spec fn increments(&self) -> Seq<u64> {
        self.increments@
    }

    /// The position is exactly the sum of the reported increments and
    /// never passes the declared length.
    pub open spec fn wf(&self) -> bool {
        self.spec_position() == sum_u64(self.increments()) && self.spec_position()
            <= self.spec_len()
    }

    /// Start tracking an upload of `len` declared bytes.
    pub fn new(len: u64) -> (r: Self)
        ensures
            r.wf(),
            r.spec_len() == len,
            r.spec_position() == 0,
            r.increments() == Seq::<u64>::empty(),
    {
        UploadProgressTracker { len, position: 0, increments: Ghost(Seq::empty()) }
    }

    /// Report one successful read of `n` bytes, advancing the counter
    /// before the bytes are handed on.
    ///
    /// The source is read up to its declared length, so the reads can
    /// never total more than it.
    pub fn record_read(&mut self, n: u64)
        requires
            old(self).wf(),
            old(self).spec_position() + n <= old(self).spec_len(),
        ensures
            final (self).wf(),
            final (self).spec_len() == old(self).spec_len(),
            final (self).spec_position() == old(self).spec_position() + n,
            final (self).increments() == old(self).increments().push(n),
    {
        proof {
            assert(self.increments@.push(n).drop_last() =~= self.increments@);
        }
        self.position = self.position + n;
        let ghost incs = self.increments@.push(n);
        self.increments = Ghost(incs);
    }

    /// How much may still be read before the declared length is reached.
    pub fn remaining(&self) -> (r: u64)
        requires
            self.wf(),
        ensures
            r == self.spec_len() - self.spec_position(),
    {
        self.len - self.position
    }

    /// The stream has delivered the whole declared length.
    pub fn is_complete(&self) -> (r: bool)
        ensures
            r == (self.spec_position() == self.spec_len()),
    {
        self.position == self.len
    }

    /// The progress counter, for the display.
    pub fn progress(&self) -> (r: u64)
        ensures
            r == self.spec_position(),
    {
        self.position
    }
}

/// Upload progress invariant: once the read stream has reached end of
/// file — the whole declared length has been reported — the increments
/// reported during the upload sum to the declared file length exactly.
pub proof fn lemma_progress_sums_to_len(t: UploadProgressTracker)
    requires
        t.wf(),
        t.spec_position() == t.spec_len(),
    ensures
        sum_u64(t.increments()) == t.spec_len(),
{
}

/// The position of the last dot in a file name, or `-1` when it has none.
pub open spec fn spec_last_dot(name: Seq<char>) -> int
    decreases name.len(),
{
    if name.len() == 0 {
        -1
    } else if name.last() == '.' {
        name.len() - 1
    } else {
        spec_last_dot(name.drop_last())
    }
}

/// The extension of a file name: what follows the last dot, provided the
/// dot is neither absent nor the leading character (a name such as
/// `.config` has no extension).
pub open spec fn spec_extension(name: Seq<char>) -> Option<Seq<char>> {
    let p = spec_last_dot(name);
    if p <= 0 {
        None
    } else {
        Some(name.skip(p + 1))
    }
}

/// The extension of a file name, if it has one.
pub fn file_extension(name: &str) -> (r: Option<String>)
    ensures
        r is Some <==> spec_extension(name@) is Some,
        r matches Some(e) ==> Some(e@) == spec_extension(name@),
{
    let n = name.unicode_len();
    let mut i: usize = n;
    proof {
        assert(name@.take(n as int) =~= name@);
    }
    while i > 0
        invariant
            n == name@.len(),
            0 <= i <= n,
            spec_last_dot(name@) == spec_last_dot(name@.take(i as int)),
        decreases i,
    {
        let c = name.get_char(i - 1);
        proof {
            assert(name@.take(i as int).last() == name@[i as int - 1]);
            assert(name@.take(i as int).drop_last() =~= name@.take(i as int - 1));
        }
        if c == '.' {
            if i - 1 == 0 {
                return None;
            }
            let ext = name.substring_char(i, n);
            return Some(ext.to_owned());
        }
        i = i - 1;
    }
    proof {
        assert(name@.take(0) =~= Seq::<char>::empty());
    }
    None
}

/// The essence of the MIME type guessed from a file extension, as the
/// `mime_guess` crate computes it from its fixed table.
pub uninterp spec fn mime_of(ext: Seq<char>) -> Seq<char>;

/// Relies on `mime_guess::from_ext(..).first_or_octet_stream()`: the
/// guess is a function of the extension alone (a fixed, case-insensitive
/// table), and an empty extension has no guess, so it falls back to
/// `application/octet-stream`.
#[verifier::external_body]
pub fn mime_for_extension(ext: &str) -> (r: String)
    ensures
        r@ == mime_of(ext@),
        ext@.len() == 0 ==> r@ == "application/octet-stream"@,
{
    mime_guess::from_ext(ext).first_or_octet_stream().essence_str().to_owned()
}

/// The MIME type to declare for a file name: guessed from its extension,
/// `application/octet-stream` when the name has none or no guess exists.
pub fn mime_for_name(name: &str) -> (r: String)
    ensures
        r@ == mime_of(
            match spec_extension(name@) {
                Some(e) => e,
                None => Seq::<char>::empty(),
            },
        ),
{
    match file_extension(name) {
        Some(ext) => mime_for_extension(ext.as_str()),
        None => {
            proof {
                reveal_strlit("");
                assert(""@ =~= Seq::<char>::empty());
            }
            mime_for_extension("")
        },
    }
}

/// How an upload authenticates: with an explicitly stored token, or as a
/// freshly created guest.
#[derive(Debug, Clone)]
pub enum AuthPlan {
    /// Use this already-held token.
    UseToken(String),
    /// Create a guest account first and use its token.
    LoginAsGuest,
}

/// Choose the upload's credentials: a forced guest flag wins; otherwise
/// the configured token; with neither, the upload cannot proceed.
pub fn resolve_upload_auth(config_token: Option<String>, use_guest: bool) -> (r: Result<
    AuthPlan,
    Error,
>)
    ensures
        use_guest ==> (r matches Ok(p) && p is LoginAsGuest),
        !use_guest && config_token is Some ==> (r matches Ok(p) && p matches AuthPlan::UseToken(t)
            && Some(t) == config_token),
        !use_guest && config_token is None ==> r == Err::<AuthPlan, Error>(
            Error::MissingCredential,
        ),
{
    if use_guest {
        Ok(AuthPlan::LoginAsGuest)
    } else {
        match config_token {
            Some(t) => Ok(AuthPlan::UseToken(t)),
            None => Err(Error::MissingCredential),
        }
    }
}

/// Choose a download's credentials: the configured token when there is
/// one, otherwise a guest login. A download never lacks credentials.
pub fn resolve_download_auth(config_token: Option<String>) -> (r: AuthPlan)
    ensures
        config_token matches Some(t) ==> r matches AuthPlan::UseToken(u) && u == t,
        config_token is None ==> r is LoginAsGuest,
{
    match config_token {
        Some(t) => AuthPlan::UseToken(t),
        None => AuthPlan::LoginAsGuest,
    }
}

} // verus!
