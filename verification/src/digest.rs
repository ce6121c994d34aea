//! Streaming content fingerprints.
//!
//! A `Digester` takes the content of a file chunk by chunk and gives the SHA-1
//! fingerprint of all of it. What it returns depends on the bytes alone, never
//! on how they were cut into chunks.

use vstd::prelude::*;
use vstd::slice::slice_subrange;
use crypto::digest::Digest;

verus! {

/// The most bytes one fingerprint can cover. The hasher counts its input in
/// bits in a 64-bit counter.
pub const DIGEST_MAX_BYTES: u64 = 0x1FFF_FFFF_FFFF_FFFF;

/// `crypto::sha1::Sha1`: the state of a SHA-1 computation. Opaque.
#[verifier::external_type_specification]
#[verifier::external_body]
pub struct ExSha1(crypto::sha1::Sha1);

/// The SHA-1 fingerprint of `data`, as 40 lowercase hexadecimal digits: what
/// `result_str` gives on a hasher that was fed `data`.
pub uninterp spec fn sha1_hex(data: Seq<u8>) -> Seq<char>;

/// Whether `hasher` is a state that a fresh hasher reaches when fed `data`, in
/// any number of pieces, with no result read from it yet.
pub uninterp spec fn sha1_fed(hasher: crypto::sha1::Sha1, data: Seq<u8>) -> bool;

/// `Sha1::new`: a hasher that has been fed nothing.
#[verifier::external_body]
fn sha1_new() -> (hasher: crypto::sha1::Sha1)
    ensures
        sha1_fed(hasher, Seq::<u8>::empty()),
{
    crypto::sha1::Sha1::new()
}

/// `Digest::input` on a `Sha1`: the hasher has then been fed what it had been
/// fed before, followed by `data`. The call panics once a result was read, or
/// when the bit count of all input passes 64 bits; `requires` leaves both out.
#[verifier::external_body]
fn sha1_input(hasher: &mut crypto::sha1::Sha1, data: &[u8])
    requires
        exists|before: Seq<u8>| #[trigger]
            sha1_fed(*old(hasher), before) && before.len() + data@.len() <= DIGEST_MAX_BYTES,
    ensures
        forall|before: Seq<u8>| #[trigger]
            sha1_fed(*old(hasher), before) ==> sha1_fed(*final(hasher), before + data@),
{
    hasher.input(data)
}

/// `Digest::result_str` on a `Sha1`: the fingerprint of all that the hasher was
/// fed, in hexadecimal.
#[verifier::external_body]
fn sha1_result_str(hasher: &mut crypto::sha1::Sha1) -> (hex: String)
    ensures
        forall|fed: Seq<u8>| #[trigger] sha1_fed(*old(hasher), fed) ==> hex@ == sha1_hex(fed),
{
    hasher.result_str()
}

/// A content fingerprint. Two values are the same exactly when their
/// hexadecimal texts are.
#[derive(Debug, Clone, PartialEq, Eq)]
pub struct DigestValue {
    hex: String,
}

impl View for DigestValue {
    type V = Seq<char>;

    closed spec fn view(&self) -> Seq<char> {
        self.hex@
    }
}

impl DigestValue {
    /// The fingerprint in hexadecimal.
    pub fn as_str(&self) -> (text: &str)
        ensures
            text@ == self@,
    {
        self.hex.as_str()
    }

    /// Whether two fingerprints are the same.
    pub fn same_as(&self, other: &DigestValue) -> (same: bool)
        ensures
            same == (self@ == other@),
    {
        self.hex == other.hex
    }
}

/// Why content could not be fingerprinted.
#[derive(Debug, Clone, Copy, PartialEq, Eq, Structural)]
pub enum DigestError {
    /// The read buffer holds no bytes, so no content can pass through it.
    EmptyBuffer,
    /// The content is longer than `DIGEST_MAX_BYTES`.
    TooLong,
}

/// A running fingerprint of content that is read chunk by chunk. The bytes
/// taken so far are its view.
pub struct Digester {
    hasher: crypto::sha1::Sha1,
    count: u64,
    buffer_size: usize,
    fed: Ghost<Seq<u8>>,
}

impl View for Digester {
    type V = Seq<u8>;

    closed spec fn view(&self) -> Seq<u8> {
        self.fed@
    }
}

/// What to do after a read.
pub enum ReadStep {
    /// The chunk was taken: read on.
    More(Digester),
    /// The read gave nothing, so the content has ended: this is its
    /// fingerprint.
    Done(DigestValue),
    /// The chunk could not be taken.
    Failed(DigestError),
}

impl Digester {
    /// The hasher holds exactly the bytes of the view, their count is known,
    /// and the read buffer can hold a byte.
    pub closed spec fn wf(&self) -> bool {
        &&& sha1_fed(self.hasher, self.fed@)
        &&& self.count == self.fed@.len()
        &&& self.count <= DIGEST_MAX_BYTES
        &&& self.buffer_size > 0
    }

    /// The size of the buffer that the content is read through.
    pub closed spec fn buffer(&self) -> usize {
        self.buffer_size
    }

    /// A digester that has taken no bytes, for content that is read through a
    /// buffer of `buffer_size` bytes. A buffer of no bytes is refused: a read
    /// into it gives nothing, and that could not be told from the end of the
    /// content.
    pub fn new(buffer_size: usize) -> (result: Result<Digester, DigestError>)
        ensures
            (match result {
                Ok(digester) => {
                    &&& buffer_size > 0
                    &&& digester.wf()
                    &&& digester@ == Seq::<u8>::empty()
                    &&& digester.buffer() == buffer_size
                },
                Err(error) => buffer_size == 0 && error == DigestError::EmptyBuffer,
            }),
    {
        if buffer_size == 0 {
            Err(DigestError::EmptyBuffer)
        } else {
            Ok(Digester { hasher: sha1_new(), count: 0, buffer_size, fed: Ghost(Seq::empty()) })
        }
    }

    /// The most bytes to ask of one read.
    pub fn buffer_size(&self) -> (size: usize)
        requires
            self.wf(),
        ensures
            size == self.buffer(),
            size > 0,
    {
        self.buffer_size
    }

    /// Takes one more chunk. A chunk that would bring the total over
    /// `DIGEST_MAX_BYTES` is refused and leaves the digester as it was.
    pub fn absorb(&mut self, chunk: &[u8]) -> (accepted: bool)
        requires
            old(self).wf(),
        ensures
            final(self).wf(),
            final(self).buffer() == old(self).buffer(),
            accepted == (old(self)@.len() + chunk@.len() <= DIGEST_MAX_BYTES),
            accepted ==> final(self)@ == old(self)@ + chunk@,
            !accepted ==> final(self)@ == old(self)@,
    {
        let room: u64 = DIGEST_MAX_BYTES - self.count;
        if chunk.len() as u64 > room {
            return false;
        }
        sha1_input(&mut self.hasher, chunk);
        self.count = self.count + chunk.len() as u64;
        self.fed = Ghost(self.fed@ + chunk@);
        true
    }

    /// Ends the stream and gives the fingerprint of all bytes taken.
    pub fn finish(self) -> (value: DigestValue)
        requires
            self.wf(),
        ensures
            value@ == sha1_hex(self@),
    {
        let mut hasher = self.hasher;
        DigestValue { hex: sha1_result_str(&mut hasher) }
    }

    /// Takes what one read gave. A read that gave nothing marks the end of the
    /// content; every other chunk, a short one too, is part of it.
    pub fn on_read(self, chunk: &[u8]) -> (step: ReadStep)
        requires
            self.wf(),
        ensures
            (match step {
                ReadStep::Done(value) => chunk@.len() == 0 && value@ == sha1_hex(self@),
                ReadStep::More(digester) => {
                    &&& chunk@.len() > 0
                    &&& self@.len() + chunk@.len() <= DIGEST_MAX_BYTES
                    &&& digester.wf()
                    &&& digester@ == self@ + chunk@
                    &&& digester.buffer() == self.buffer()
                },
                ReadStep::Failed(error) => {
                    &&& chunk@.len() > 0
                    &&& self@.len() + chunk@.len() > DIGEST_MAX_BYTES
                    &&& error == DigestError::TooLong
                },
            }),
    {
        if chunk.len() == 0 {
            return ReadStep::Done(self.finish());
        }
        let mut digester = self;
        if digester.absorb(chunk) {
            ReadStep::More(digester)
        } else {
            ReadStep::Failed(DigestError::TooLong)
        }
    }
}

/// What fingerprinting `content` through a read buffer of `buffer_size` bytes
/// gives: the SHA-1 of the content, unless the buffer holds nothing or the
/// content is too long for one fingerprint.
pub open spec fn fingerprint(content: Seq<u8>, buffer_size: usize) -> Result<Seq<char>, DigestError> {
    if buffer_size == 0 {
        Err(DigestError::EmptyBuffer)
    } else if content.len() > DIGEST_MAX_BYTES {
        Err(DigestError::TooLong)
    } else {
        Ok(sha1_hex(content))
    }
}

/// Fingerprints `content` as a file is fingerprinted: by reads of at most
/// `buffer_size` bytes, until a read gives nothing. The result is the
/// fingerprint of the bytes, whatever the buffer size.
pub fn digest(content: &[u8], buffer_size: usize) -> (result: Result<DigestValue, DigestError>)
    ensures
        (match result {
            Ok(value) => fingerprint(content@, buffer_size) == Ok::<Seq<char>, DigestError>(value@),
            Err(error) => fingerprint(content@, buffer_size) == Err::<Seq<char>, DigestError>(error),
        }),
{
    let mut digester = match Digester::new(buffer_size) {
        Ok(digester) => digester,
        Err(error) => {
            return Err(error);
        },
    };
    let total: usize = content.len();
    let mut taken: usize = 0;
    loop
        invariant
            total == content@.len(),
            buffer_size > 0,
            taken <= total,
            digester.wf(),
            digester.buffer() == buffer_size,
            digester@ == content@.subrange(0, taken as int),
        decreases total - taken,
    {
        let left: usize = total - taken;
        let wanted: usize = digester.buffer_size();
        let n: usize = if left < wanted {
            left
        } else {
            wanted
        };
        let chunk = slice_subrange(content, taken, taken + n);
        assert(content@.subrange(0, taken as int) + chunk@ == content@.subrange(
            0,
            taken + n,
        ));
        match digester.on_read(chunk) {
            ReadStep::More(next) => {
                digester = next;
                taken = taken + n;
            },
            ReadStep::Done(value) => {
                assert(content@.subrange(0, taken as int) == content@);
                return Ok(value);
            },
            ReadStep::Failed(error) => {
                return Err(error);
            },
        }
    }
}

/// Two buffer sizes give the same result for the same content, as long as
/// both buffers can hold a byte.
pub proof fn fingerprint_ignores_buffer_size(content: Seq<u8>, first: usize, second: usize)
    requires
        first > 0,
        second > 0,
    ensures
        fingerprint(content, first) == fingerprint(content, second),
{
}

/// Content of no bytes has a fingerprint: that of the empty sequence.
pub proof fn empty_content_has_a_fingerprint(buffer_size: usize)
    requires
        buffer_size > 0,
    ensures
        fingerprint(Seq::<u8>::empty(), buffer_size) == Ok::<Seq<char>, DigestError>(
            sha1_hex(Seq::<u8>::empty()),
        ),
{
}

} // verus!
