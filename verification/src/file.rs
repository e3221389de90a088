//! Hashing one file: the choice between loading it whole and streaming it, and the steps of
//! either way. The caller reads the file; every decision is taken here.

use vstd::prelude::*;

use crate::algo::{HashAlgo, BUFFER_SIZE};
use crate::backends::MAX_INPUT_LEN;
use crate::castagnoli::Crc32cTable;
use crate::hex::{hex_of_nat, hex_u128, lemma_hex_of_nat_len};
use crate::outcome::{outcome_view, DigestView, FileDigest, HashError, HashResult};
use crate::stream::{digest_hex, digest_whole, StreamHasher};

verus! {

/// How a file is hashed.
#[derive(Clone, Copy, Debug, PartialEq, Eq, Structural)]
pub enum Strategy {
    /// The whole content is read into one buffer and hashed in one call.
    FullLoad,
    /// The content is read and hashed in chunks of at most `BUFFER_SIZE` bytes.
    Streaming,
}

/// The strategy for a file of `size` bytes: full load up to `limit`, streaming above it,
/// and no strategy at all where streaming is called for and the algorithm cannot stream.
pub open spec fn spec_select_strategy(size: u64, limit: u64, algo: HashAlgo) -> Result<
    Strategy,
    HashError,
> {
    if size <= limit {
        Ok(Strategy::FullLoad)
    } else if algo.spec_streaming_capable() {
        Ok(Strategy::Streaming)
    } else {
        Err(HashError::StreamingUnsupported)
    }
}

/// Chooses the strategy for a file of `size` bytes under the full-load limit `limit`.
///
/// A file above the limit is never loaded whole: where the algorithm cannot stream, the
/// choice fails with `StreamingUnsupported`.
pub fn select_strategy(size: u64, limit: u64, algo: HashAlgo) -> (choice: Result<
    Strategy,
    HashError,
>)
    ensures
        choice == spec_select_strategy(size, limit, algo),
{
    if size <= limit {
        Ok(Strategy::FullLoad)
    } else if algo.streaming_capable() {
        Ok(Strategy::Streaming)
    } else {
        Err(HashError::StreamingUnsupported)
    }
}

/// What hashing a whole buffer gives: the digest of the buffer with the size found at
/// opening, unless the buffer is too long.
pub open spec fn whole_model(algo: HashAlgo, size: u64, data: Seq<u8>) -> Result<
    DigestView,
    HashError,
> {
    if data.len() <= MAX_INPUT_LEN {
        Ok(DigestView { digest: digest_hex(algo, data), bytes_hashed: size })
    } else {
        Err(HashError::InputTooLong)
    }
}

/// A file that is hashed whole by this library. The caller reads all of it into one buffer
/// and hands the buffer to `finish`.
pub struct WholeFile {
    algo: HashAlgo,
    size: u64,
}

impl WholeFile {
    #[verifier::type_invariant]
    spec fn well_formed(&self) -> bool {
        self.algo != HashAlgo::City128
    }

    /// The algorithm of the digest.
    pub closed spec fn algo(&self) -> HashAlgo {
        self.algo
    }

    /// The size of the file as found when it was opened.
    pub closed spec fn size(&self) -> u64 {
        self.size
    }

    /// The number of bytes to make room for before reading.
    pub fn capacity(&self) -> (capacity: u64)
        ensures
            capacity == self.size(),
    {
        self.size
    }

    /// The digest of `data`, the whole content of the file, with the size found at opening.
    pub fn finish(self, data: &[u8]) -> (outcome: HashResult)
        ensures
            outcome_view(outcome) == whole_model(self.algo(), self.size(), data@),
            outcome matches Ok(d) ==> d.digest@.len() == self.algo().spec_digest_hex_width(),
    {
        proof {
            use_type_invariant(&self);
        }
        match digest_whole(self.algo, data) {
            Some(digest) => Ok(FileDigest { digest, bytes_hashed: self.size }),
            None => Err(HashError::InputTooLong),
        }
    }
}

/// A file that is hashed whole with City128. The 128-bit hash is taken outside this
/// library: the caller reads the whole file, hashes the buffer and hands the value to
/// `finish`.
pub struct CityFile {
    size: u64,
}

impl CityFile {
    /// The size of the file as found when it was opened.
    pub closed spec fn size(&self) -> u64 {
        self.size
    }

    /// The number of bytes to make room for before reading.
    pub fn capacity(&self) -> (capacity: u64)
        ensures
            capacity == self.size(),
    {
        self.size
    }

    /// The digest for the 128-bit hash `hash` of the whole content: its 32 hexadecimal
    /// digits, with the size found at opening.
    pub fn finish(self, hash: u128) -> (digest: FileDigest)
        ensures
            digest@ == (DigestView {
                digest: hex_of_nat(hash as nat, 32),
                bytes_hashed: self.size(),
            }),
            digest.digest@.len() == HashAlgo::City128.spec_digest_hex_width(),
    {
        proof {
            lemma_hex_of_nat_len(hash as nat, 32);
        }
        FileDigest { digest: hex_u128(hash), bytes_hashed: self.size }
    }
}

/// What is known of a file that is being streamed.
pub struct StreamView {
    pub algo: HashAlgo,
    pub size: u64,
    pub consumed: Seq<u8>,
}

/// What one read leads to, with digests as sequences of characters.
pub enum ProgressView {
    More(StreamView),
    Done(Result<DigestView, HashError>),
}

/// The step that one read leads to. An empty read is the end of the file and gives the
/// digest of everything consumed; any other read is consumed, unless it takes the input
/// past `MAX_INPUT_LEN` bytes.
pub open spec fn absorb_model(state: StreamView, chunk: Seq<u8>) -> ProgressView {
    if chunk.len() == 0 {
        ProgressView::Done(
            Ok(
                DigestView {
                    digest: digest_hex(state.algo, state.consumed),
                    bytes_hashed: state.size,
                },
            ),
        )
    } else if state.consumed.len() + chunk.len() <= MAX_INPUT_LEN {
        ProgressView::More(
            StreamView { algo: state.algo, size: state.size, consumed: state.consumed + chunk },
        )
    } else {
        ProgressView::Done(Err(HashError::InputTooLong))
    }
}

/// A file that is hashed chunk by chunk. The caller reads up to `chunk_len` bytes at a time
/// into a buffer it reuses and hands each read, the empty one at the end of the file
/// included, to `absorb`.
pub struct StreamedFile<'a> {
    hasher: StreamHasher<'a>,
    size: u64,
}

/// What one read leads to.
pub enum StreamProgress<'a> {
    /// The read was consumed; the file goes on.
    More(StreamedFile<'a>),
    /// The file is done: its digest, or why it has none.
    Done(HashResult),
}

impl<'a> View for StreamedFile<'a> {
    type V = StreamView;

    closed spec fn view(&self) -> StreamView {
        StreamView { algo: self.hasher.algo(), size: self.size, consumed: self.hasher.absorbed() }
    }
}

impl<'a> View for StreamProgress<'a> {
    type V = ProgressView;

    open spec fn view(&self) -> ProgressView {
        match *self {
            StreamProgress::More(file) => ProgressView::More(file@),
            StreamProgress::Done(outcome) => ProgressView::Done(outcome_view(outcome)),
        }
    }
}

impl<'a> StreamedFile<'a> {
    /// The most bytes to read at a time.
    pub fn chunk_len(&self) -> (len: usize)
        ensures
            len == BUFFER_SIZE,
    {
        BUFFER_SIZE
    }

    /// The number of bytes consumed so far.
    pub fn consumed_len(&self) -> (len: u64)
        ensures
            len == self@.consumed.len(),
    {
        self.hasher.absorbed_len()
    }

    /// Takes one read of the file.
    pub fn absorb(self, chunk: &[u8]) -> (progress: StreamProgress<'a>)
        ensures
            progress@ == absorb_model(self@, chunk@),
            progress matches StreamProgress::Done(Ok(d)) ==> d.digest@.len()
                == self@.algo.spec_digest_hex_width(),
    {
        if chunk.len() == 0 {
            let digest = self.hasher.finalize();
            StreamProgress::Done(Ok(FileDigest { digest, bytes_hashed: self.size }))
        } else {
            match self.hasher.update(chunk) {
                Ok(hasher) => StreamProgress::More(StreamedFile { hasher, size: self.size }),
                Err(error) => StreamProgress::Done(Err(error)),
            }
        }
    }
}

/// The way one file is going to be hashed.
pub enum FilePlan<'a> {
    /// Read it whole; this library hashes the buffer.
    Whole(WholeFile),
    /// Read it whole; the City128 hash of the buffer is taken outside this library.
    WholeCity128(CityFile),
    /// Read it in chunks.
    Streamed(StreamedFile<'a>),
}

/// Plans the hashing of a file of `size` bytes, the size found when it was opened, under
/// the full-load limit `limit`.
///
/// The plan follows `select_strategy`. City128 above the limit has no plan: it fails with
/// `StreamingUnsupported` and the file is not loaded.
pub fn plan_file<'a>(size: u64, limit: u64, algo: HashAlgo, table: &'a Crc32cTable) -> (plan:
    Result<FilePlan<'a>, HashError>)
    ensures
        match spec_select_strategy(size, limit, algo) {
            Ok(Strategy::FullLoad) => if algo == HashAlgo::City128 {
                plan matches Ok(FilePlan::WholeCity128(file)) && file.size() == size
            } else {
                plan matches Ok(FilePlan::Whole(file)) && file.algo() == algo && file.size()
                    == size
            },
            Ok(Strategy::Streaming) => plan matches Ok(FilePlan::Streamed(file)) && file@ == (
            StreamView { algo, size, consumed: Seq::empty() }),
            Err(error) => plan matches Err(e) && e == error,
        },
{
    match select_strategy(size, limit, algo) {
        Ok(Strategy::FullLoad) => {
            match algo {
                HashAlgo::City128 => Ok(FilePlan::WholeCity128(CityFile { size })),
                _ => Ok(FilePlan::Whole(WholeFile { algo, size })),
            }
        },
        Ok(Strategy::Streaming) => {
            match StreamHasher::new(algo, table) {
                Some(hasher) => Ok(FilePlan::Streamed(StreamedFile { hasher, size })),
                None => Err(HashError::StreamingUnsupported),
            }
        },
        Err(error) => Err(error),
    }
}

/// The bytes of `chunks`, one chunk after another.
pub open spec fn concat_chunks(chunks: Seq<Seq<u8>>) -> Seq<u8>
    decreases chunks.len(),
{
    if chunks.len() == 0 {
        Seq::empty()
    } else {
        chunks.first() + concat_chunks(chunks.drop_first())
    }
}

/// What streaming gives, from `state` on, for a file whose remaining reads are `chunks`
/// followed by the empty read at its end.
pub open spec fn run_model(state: StreamView, chunks: Seq<Seq<u8>>) -> Result<
    DigestView,
    HashError,
>
    decreases chunks.len(),
{
    if chunks.len() == 0 {
        Ok(DigestView { digest: digest_hex(state.algo, state.consumed), bytes_hashed: state.size })
    } else {
        match absorb_model(state, chunks.first()) {
            ProgressView::More(next) => run_model(next, chunks.drop_first()),
            ProgressView::Done(outcome) => outcome,
        }
    }
}

/// The empty read at the end of a file gives what `run_model` gives when no read is left.
pub proof fn lemma_run_model_end(state: StreamView)
    ensures
        absorb_model(state, Seq::empty()) == ProgressView::Done(run_model(state, Seq::empty())),
{
}

/// Streaming and full load agree. A file read in chunks, however it is cut, gets the
/// outcome that hashing the same bytes as one buffer gets: the same digest, or the same
/// refusal of an input that is too long.
pub proof fn lemma_streaming_matches_full_load(state: StreamView, chunks: Seq<Seq<u8>>)
    requires
        state.consumed.len() <= MAX_INPUT_LEN,
        forall|i: int| 0 <= i < chunks.len() ==> (#[trigger] chunks[i]).len() > 0,
    ensures
        run_model(state, chunks) == whole_model(
            state.algo,
            state.size,
            state.consumed + concat_chunks(chunks),
        ),
    decreases chunks.len(),
{
    if chunks.len() == 0 {
        assert(state.consumed + concat_chunks(chunks) =~= state.consumed);
    } else {
        let first = chunks.first();
        let rest = chunks.drop_first();
        assert(first == chunks[0]);
        assert(state.consumed + concat_chunks(chunks) =~= (state.consumed + first)
            + concat_chunks(rest));
        if state.consumed.len() + first.len() <= MAX_INPUT_LEN {
            let next = StreamView {
                algo: state.algo,
                size: state.size,
                consumed: state.consumed + first,
            };
            assert forall|i: int| 0 <= i < rest.len() implies (#[trigger] rest[i]).len() > 0 by {
                assert(rest[i] == chunks[i + 1]);
            }
            lemma_streaming_matches_full_load(next, rest);
        }
    }
}

/// Hashing is repeatable. Two readings of the same bytes with the same algorithm, cut into
/// chunks in whatever two ways, get the same outcome.
pub proof fn lemma_same_bytes_same_digest(
    algo: HashAlgo,
    size: u64,
    first: Seq<Seq<u8>>,
    second: Seq<Seq<u8>>,
)
    requires
        concat_chunks(first) == concat_chunks(second),
        forall|i: int| 0 <= i < first.len() ==> (#[trigger] first[i]).len() > 0,
        forall|i: int| 0 <= i < second.len() ==> (#[trigger] second[i]).len() > 0,
    ensures
        run_model(StreamView { algo, size, consumed: Seq::empty() }, first) == run_model(
            StreamView { algo, size, consumed: Seq::empty() },
            second,
        ),
{
    let start = StreamView { algo, size, consumed: Seq::empty() };
    lemma_streaming_matches_full_load(start, first);
    lemma_streaming_matches_full_load(start, second);
}

} // verus!
