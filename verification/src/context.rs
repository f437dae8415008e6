//! Repository discovery and deterministic context budgeting.
//!
//! Walking the directory tree and reading files is the caller's part; this
//! module decides which files enter the context and what they cost.

use std::path::PathBuf;

use vstd::prelude::*;
use vstd::string::StringSliceAdditionalSpecFns;
use vstd::utf8::{decode_utf8, encode_utf8, valid_utf8};

use crate::text::str_eq;

verus! {

/// A file taken into the context: its path relative to the root, its text and its cost.
#[derive(Debug, Clone)]
pub struct ContextFile {
    pub path: PathBuf,
    pub content: String,
    pub estimated_tokens: usize,
}

/// The files selected from a repository and what they cost together.
#[derive(Debug, Clone)]
pub struct ContextSnapshot {
    pub root: PathBuf,
    pub files: Vec<ContextFile>,
    pub total_estimated_tokens: usize,
    pub truncated: bool,
}

/// Limits on how much of a repository enters the context.
#[derive(Debug, Clone)]
pub struct ContextOptions {
    pub max_files: usize,
    pub max_bytes_per_file: usize,
    pub token_budget: usize,
}

impl Default for ContextOptions {
    fn default() -> (o: Self)
        ensures
            o.max_files == 64,
            o.max_bytes_per_file == 64 * 1024,
            o.token_budget == 24_000,
    {
        ContextOptions { max_files: 64, max_bytes_per_file: 64 * 1024, token_budget: 24_000 }
    }
}

/// Why discovery failed.
#[derive(Debug)]
pub enum ContextError {
    Io(std::io::Error),
}

/// About one token per four bytes of UTF-8, rounded up; nothing for empty text.
pub open spec fn spec_estimate_tokens(n_bytes: nat) -> nat {
    if n_bytes == 0 {
        0
    } else {
        ((n_bytes + 3) / 4) as nat
    }
}

/// More bytes never cost fewer tokens.
pub proof fn lemma_estimate_monotone(a: nat, b: nat)
    requires
        a <= b,
    ensures
        spec_estimate_tokens(a) <= spec_estimate_tokens(b),
{
    assert((a + 3) / 4 <= (b + 3) / 4) by (nonlinear_arith)
        requires
            a <= b,
    ;
}

/// The UTF-8 encoding of two texts together is the two encodings one after the other.
pub proof fn lemma_encode_concat(a: Seq<char>, b: Seq<char>)
    ensures
        encode_utf8(a + b) == encode_utf8(a) + encode_utf8(b),
    decreases a.len(),
{
    if a.len() == 0 {
        assert(a + b =~= b);
        assert(encode_utf8(a) =~= Seq::<u8>::empty());
        assert(encode_utf8(a) + encode_utf8(b) =~= encode_utf8(b));
    } else {
        assert((a + b).drop_first() =~= a.drop_first() + b);
        assert((a + b)[0] == a[0]);
        lemma_encode_concat(a.drop_first(), b);
        assert(encode_utf8(a + b) =~= encode_utf8(a) + encode_utf8(b));
    }
}

/// The estimate of two texts together is at most the sum of their estimates.
pub proof fn lemma_estimate_subadditive(a: Seq<char>, b: Seq<char>)
    ensures
        spec_estimate_tokens(encode_utf8(a + b).len()) <= spec_estimate_tokens(encode_utf8(a).len())
            + spec_estimate_tokens(encode_utf8(b).len()),
{
    lemma_encode_concat(a, b);
    let x = encode_utf8(a).len();
    let y = encode_utf8(b).len();
    assert((x + y + 3) / 4 <= (x + 3) / 4 + (y + 3) / 4) by (nonlinear_arith);
}

/// Estimates the tokens of a text from its UTF-8 length.
pub fn estimate_tokens(text: &str) -> (r: usize)
    ensures
        r == spec_estimate_tokens(byte_len(text@) as nat),
{
    let n = text.len();
    if n == 0 {
        0
    } else {
        n / 4 + if n % 4 == 0 {
            0
        } else {
            1
        }
    }
}

/// The directory names whose subtrees never enter the context.
pub open spec fn is_ignored_component(c: Seq<char>) -> bool {
    c == ".git"@ || c == ".nexus"@ || c == "target"@ || c == "node_modules"@
}

/// Whether a path, given by its components, lies under an ignored directory.
pub fn ignored(components: &Vec<String>) -> (r: bool)
    ensures
        r == exists|i: int|
            0 <= i < components@.len() && is_ignored_component(#[trigger] components@[i]@),
{
    let mut i: usize = 0;
    while i < components.len()
        invariant
            i <= components@.len(),
            forall|j: int| 0 <= j < i ==> !is_ignored_component(#[trigger] components@[j]@),
        decreases components@.len() - i,
    {
        let c = components[i].as_str();
        if str_eq(c, ".git") || str_eq(c, ".nexus") || str_eq(c, "target") || str_eq(c, "node_modules") {
            return true;
        }
        i = i + 1;
    }
    false
}

/// What `String::from_utf8_lossy` makes of a byte sequence: its characters,
/// with each invalid sequence replaced by U+FFFD.
pub uninterp spec fn utf8_lossy(bytes: Seq<u8>) -> Seq<char>;

/// Calls `String::from_utf8_lossy` and takes ownership of the text. Claimed:
/// the result is the function's value on these bytes, and for valid UTF-8 it
/// is the decoded text, as the documentation says.
#[verifier::external_body]
fn from_utf8_lossy(bytes: &Vec<u8>) -> (s: String)
    ensures
        s@ == utf8_lossy(bytes@),
        valid_utf8(bytes@) ==> s@ == decode_utf8(bytes@),
{
    String::from_utf8_lossy(bytes.as_slice()).into_owned()
}

/// The sum of the estimates of the selected files.
pub open spec fn sum_tokens(files: Seq<ContextFile>) -> nat
    decreases files.len(),
{
    if files.len() == 0 {
        0
    } else {
        (sum_tokens(files.drop_last()) + files.last().estimated_tokens) as nat
    }
}

/// Whether a file's bytes are admitted: not larger than the limit and not binary (no NUL byte).
pub open spec fn admissible(bytes: Seq<u8>, max_bytes: usize) -> bool {
    bytes.len() <= max_bytes && !bytes.contains(0u8)
}

/// The selection in progress while files are offered in path order.
pub struct ContextSelection {
    max_files: usize,
    max_bytes_per_file: usize,
    token_budget: usize,
    files: Vec<ContextFile>,
    total_estimated_tokens: usize,
    truncated: bool,
    offered: usize,
    stopped: bool,
}

impl ContextSelection {
    /// The limits the selection works under.
    pub closed spec fn limits(&self) -> (usize, usize, usize) {
        (self.max_files, self.max_bytes_per_file, self.token_budget)
    }

    pub closed spec fn files_view(&self) -> Seq<ContextFile> {
        self.files@
    }

    pub closed spec fn total(&self) -> usize {
        self.total_estimated_tokens
    }

    pub closed spec fn was_truncated(&self) -> bool {
        self.truncated
    }

    pub closed spec fn offered_count(&self) -> usize {
        self.offered
    }

    pub closed spec fn is_stopped(&self) -> bool {
        self.stopped
    }

    /// The total is the sum of the selected files' estimates and stays within the budget.
    #[verifier::type_invariant]
    closed spec fn within_budget(&self) -> bool {
        &&& self.total_estimated_tokens as nat == sum_tokens(self.files@)
        &&& self.total_estimated_tokens <= self.token_budget
    }

    /// An empty selection under the given limits.
    pub fn new(options: &ContextOptions) -> (s: Self)
        ensures
            s.limits() == (options.max_files, options.max_bytes_per_file, options.token_budget),
            s.files_view().len() == 0,
            s.total() == 0,
            !s.was_truncated(),
            s.offered_count() == 0,
            !s.is_stopped(),
    {
        ContextSelection {
            max_files: options.max_files,
            max_bytes_per_file: options.max_bytes_per_file,
            token_budget: options.token_budget,
            files: Vec::new(),
            total_estimated_tokens: 0,
            truncated: false,
            offered: 0,
            stopped: false,
        }
    }

    pub open spec fn wants_more_spec(&self) -> bool {
        !self.is_stopped() && self.offered_count() < self.limits().0
    }

    /// Whether another file should be read and offered: the budget has not
    /// been exhausted and fewer than `max_files` have been offered.
    pub fn wants_more(&self) -> (r: bool)
        ensures
            r == self.wants_more_spec(),
    {
        !self.stopped && self.offered < self.max_files
    }

    /// Offers the next file in path order. A file that is too large or binary
    /// is skipped and marks the selection truncated; a file whose estimate
    /// would take the total over the budget stops the selection (also
    /// truncated); any other file is taken.
    pub fn offer(&mut self, path: PathBuf, bytes: Vec<u8>)
        requires
            old(self).wants_more_spec(),
        ensures
            final(self).limits() == old(self).limits(),
            final(self).offered_count() == old(self).offered_count() + 1,
            final(self).total() as nat == sum_tokens(final(self).files_view()),
            final(self).total() <= final(self).limits().2,
            !admissible(bytes@, old(self).limits().1) ==> {
                &&& final(self).files_view() == old(self).files_view()
                &&& final(self).total() == old(self).total()
                &&& final(self).was_truncated()
                &&& !final(self).is_stopped()
            },
            admissible(bytes@, old(self).limits().1) ==> {
                let content = utf8_lossy(bytes@);
                let est = spec_estimate_tokens(byte_len(content) as nat);
                if old(self).total() + est > old(self).limits().2 {
                    &&& final(self).files_view() == old(self).files_view()
                    &&& final(self).total() == old(self).total()
                    &&& final(self).was_truncated()
                    &&& final(self).is_stopped()
                } else {
                    &&& final(self).files_view() == old(self).files_view().push(
                        final(self).files_view().last(),
                    )
                    &&& final(self).files_view().last().path == path
                    &&& final(self).files_view().last().content@ == content
                    &&& final(self).files_view().last().estimated_tokens == est
                    &&& final(self).total() == old(self).total() + est
                    &&& final(self).was_truncated() == old(self).was_truncated()
                    &&& !final(self).is_stopped()
                }
            },
    {
        proof {
            use_type_invariant(&*self);
        }
        let options = ContextOptions {
            max_files: self.max_files,
            max_bytes_per_file: self.max_bytes_per_file,
            token_budget: self.token_budget,
        };
        let mut this = ContextSelection::new(&options);
        std::mem::swap(self, &mut this);
        proof {
            use_type_invariant(&this);
        }
        let ContextSelection {
            max_files,
            max_bytes_per_file,
            token_budget,
            mut files,
            total_estimated_tokens,
            mut truncated,
            offered,
            mut stopped,
        } = this;
        let mut total = total_estimated_tokens;
        let mut has_nul = false;
        let mut i: usize = 0;
        while i < bytes.len()
            invariant
                i <= bytes@.len(),
                has_nul == exists|j: int| 0 <= j < i && bytes@[j] == 0u8,
            decreases bytes@.len() - i,
        {
            if bytes[i] == 0u8 {
                has_nul = true;
            }
            i = i + 1;
        }
        proof {
            if has_nul {
                let j = choose|j: int| 0 <= j < bytes@.len() && bytes@[j] == 0u8;
                assert(bytes@.contains(0u8));
            } else {
                assert(!bytes@.contains(0u8));
            }
        }
        if bytes.len() > max_bytes_per_file || has_nul {
            truncated = true;
        } else {
            let content = from_utf8_lossy(&bytes);
            let estimated_tokens = estimate_tokens(content.as_str());
            match total.checked_add(estimated_tokens) {
                Some(t) if t <= token_budget => {
                    let ghost before = files@;
                    total = t;
                    files.push(ContextFile { path, content, estimated_tokens });
                    proof {
                        assert(files@.drop_last() =~= before);
                    }
                },
                _ => {
                    truncated = true;
                    stopped = true;
                },
            }
        }
        *self = ContextSelection {
            max_files,
            max_bytes_per_file,
            token_budget,
            files,
            total_estimated_tokens: total,
            truncated,
            offered: offered + 1,
            stopped,
        };
    }

    /// The snapshot of what was selected.
    pub fn finish(self, root: PathBuf) -> (s: ContextSnapshot)
        ensures
            s.files@ == self.files_view(),
            s.total_estimated_tokens == self.total(),
            s.total_estimated_tokens as nat == sum_tokens(s.files@),
            s.total_estimated_tokens <= self.limits().2,
            s.truncated == self.was_truncated(),
    {
        proof {
            use_type_invariant(&self);
        }
        let ContextSelection { files, total_estimated_tokens, truncated, .. } = self;
        ContextSnapshot { root, files, total_estimated_tokens, truncated }
    }
}

/// The length in bytes of the UTF-8 encoding of a text, as `str::len` gives it.
pub open spec fn byte_len(s: Seq<char>) -> usize {
    vstd::utf8::encode_utf8(s).len() as usize
}

} // verus!

verus! {

impl ContextError {
    /// Whether `text` is how the error reads.
    pub open spec fn message_is(&self, text: Seq<char>) -> bool {
        match self {
            ContextError::Io(e) => exists|t: Seq<char>|
                text == "context discovery failed: "@ + t && crate::text::displays_as(e, t),
        }
    }

    /// How the error reads.
    pub fn message(&self) -> (r: String)
        ensures
            self.message_is(r@),
    {
        match self {
            ContextError::Io(e) => crate::text::prefixed_display("context discovery failed: ", e),
        }
    }
}

} // verus!
