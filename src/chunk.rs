use vstd::arithmetic::div_mod::{
    lemma_fundamental_div_mod, lemma_fundamental_div_mod_converse, lemma_mod_pos_bound,
};
use vstd::prelude::*;

verus! {

/// Chunk indices travel as a signed 32-bit integer, so at most this many
/// chunks can be labelled.
pub const MAX_CHUNKS: usize = 2147483648;

/// The default chunk size: 512 KiB.
pub const DEFAULT_CHUNK_SIZE: usize = 524288;

/// One ordered, bounded-size slice of a larger payload.
pub struct VideoChunk {
    pub data: Vec<u8>,
    pub filename: String,
    pub chunk_index: i32,
}

/// Number of chunks of size `s` that cover `n` bytes: ceil(n / s).
pub open spec fn chunk_count(n: nat, s: nat) -> nat
    recommends
        s > 0,
{
    ((n + s - 1) / (s as int)) as nat
}

/// Bytes of chunk `i` when `data` is cut into pieces of `s` bytes.
pub open spec fn chunk_slice(data: Seq<u8>, s: nat, i: int) -> Seq<u8> {
    let start = if i * s <= data.len() { i * s } else { data.len() as int };
    let end = if i * s + s <= data.len() { i * s + s } else { data.len() as int };
    data.subrange(start, end)
}

/// The payloads of all chunks of `data`, in index order.
pub open spec fn chunk_payloads(data: Seq<u8>, s: nat) -> Seq<Seq<u8>> {
    Seq::new(chunk_count(data.len(), s), |i: int| chunk_slice(data, s, i))
}

/// Pieces laid end to end, first to last.
pub open spec fn joined(pieces: Seq<Seq<u8>>) -> Seq<u8>
    decreases pieces.len(),
{
    if pieces.len() == 0 {
        Seq::empty()
    } else {
        joined(pieces.drop_last()) + pieces.last()
    }
}

/// The payloads carried by a sequence of chunks.
pub open spec fn payloads_of(chunks: Seq<VideoChunk>) -> Seq<Seq<u8>> {
    chunks.map_values(|c: VideoChunk| c.data@)
}

/// Chunk `i` of `data`, named `filename`.
pub open spec fn is_chunk_of(c: VideoChunk, filename: Seq<char>, data: Seq<u8>, s: nat, i: int) -> bool {
    &&& c.data@ == chunk_slice(data, s, i)
    &&& c.filename@ == filename
    &&& c.chunk_index as int == i
}

/// `i` is below the chunk count exactly when chunk `i` starts inside the data.
proof fn lemma_count_iff(n: int, s: int, i: int)
    requires
        s > 0,
        n >= 0,
        i >= 0,
    ensures
        (i * s < n) <==> (i < chunk_count(n as nat, s as nat)),
{
    let q = (n + s - 1) / s;
    let r = (n + s - 1) % s;
    lemma_fundamental_div_mod(n + s - 1, s);
    lemma_mod_pos_bound(n + s - 1, s);
    assert((i * s < n) <==> (i < q)) by (nonlinear_arith)
        requires
            n + s - 1 == s * q + r,
            0 <= r < s,
            i >= 0,
            s > 0,
    ;
}

proof fn lemma_joined_push(pieces: Seq<Seq<u8>>, p: Seq<u8>)
    ensures
        joined(pieces.push(p)) == joined(pieces) + p,
{
    assert(pieces.push(p).drop_last() =~= pieces);
}

/// The first `k` chunks of `data` joined give the first `min(k * s, n)` bytes.
proof fn lemma_joined_prefix(data: Seq<u8>, s: nat, k: nat)
    requires
        s > 0,
    ensures
        joined(Seq::new(k, |i: int| chunk_slice(data, s, i))) == data.subrange(
            0,
            if k * s <= data.len() { (k * s) as int } else { data.len() as int },
        ),
    decreases k,
{
    let f = |i: int| chunk_slice(data, s, i);
    if k == 0 {
        assert(Seq::new(0, f) =~= Seq::<Seq<u8>>::empty());
        assert(data.subrange(0, 0) =~= Seq::<u8>::empty());
    } else {
        let k1 = (k - 1) as nat;
        lemma_joined_prefix(data, s, k1);
        assert(Seq::new(k, f) =~= Seq::new(k1, f).push(f(k1 as int)));
        lemma_joined_push(Seq::new(k1, f), f(k1 as int));
        assert(k1 * s + s == k * s) by (nonlinear_arith)
            requires k1 == k - 1;
        assert(k1 * s >= 0) by (nonlinear_arith);
        let a = if k1 * s <= data.len() { (k1 * s) as int } else { data.len() as int };
        let b = if k * s <= data.len() { (k * s) as int } else { data.len() as int };
        if k1 * s <= data.len() {
            assert(data.subrange(0, a) + data.subrange(a, b) =~= data.subrange(0, b));
        } else {
            assert(chunk_slice(data, s, k1 as int) =~= Seq::<u8>::empty());
            assert(data.subrange(0, a) + Seq::<u8>::empty() =~= data.subrange(0, b));
        }
    }
}

/// Laid end to end in index order, the chunks of a payload give back the
/// payload exactly, and there are ceil(N / S) of them (none for an empty
/// payload).
pub proof fn lemma_chunks_cover_payload(data: Seq<u8>, s: nat)
    requires
        s > 0,
    ensures
        joined(chunk_payloads(data, s)) == data,
        chunk_payloads(data, s).len() == chunk_count(data.len(), s),
        data.len() == 0 ==> chunk_payloads(data, s).len() == 0,
{
    let k = chunk_count(data.len(), s);
    lemma_joined_prefix(data, s, k);
    lemma_count_iff(data.len() as int, s as int, k as int);
    lemma_count_iff(data.len() as int, s as int, 0);
    assert(data.subrange(0, data.len() as int) =~= data);
}

/// Whether a payload of `len` bytes cut into chunks of `chunk_size` bytes
/// can have every chunk numbered.
pub fn chunks_fit_index(len: usize, chunk_size: usize) -> (r: bool)
    requires
        chunk_size > 0,
    ensures
        r == (chunk_count(len as nat, chunk_size as nat) <= MAX_CHUNKS),
{
    let q = len / chunk_size;
    let rem = len % chunk_size;
    proof {
        lemma_fundamental_div_mod(len as int, chunk_size as int);
        lemma_mod_pos_bound(len as int, chunk_size as int);
        if rem == 0 {
            lemma_fundamental_div_mod_converse(
                len + chunk_size - 1,
                chunk_size as int,
                q as int,
                chunk_size - 1,
            );
        } else {
            assert(len + chunk_size - 1 == (q + 1) * chunk_size + (rem - 1)) by (nonlinear_arith)
                requires
                    len == chunk_size * q + rem,
            ;
            lemma_fundamental_div_mod_converse(
                len + chunk_size - 1,
                chunk_size as int,
                q + 1,
                rem - 1,
            );
        }
    }
    if rem == 0 {
        q <= MAX_CHUNKS
    } else {
        q < MAX_CHUNKS
    }
}

/// Copies `data[start..end]` into a fresh vector.
fn copy_range(data: &Vec<u8>, start: usize, end: usize) -> (r: Vec<u8>)
    requires
        start <= end <= data.len(),
    ensures
        r@ == data@.subrange(start as int, end as int),
{
    let mut r: Vec<u8> = Vec::with_capacity(end - start);
    let mut j: usize = start;
    while j < end
        invariant
            start <= j <= end <= data.len(),
            r@ == data@.subrange(start as int, j as int),
        decreases end - j,
    {
        r.push(data[j]);
        j = j + 1;
        assert(r@ =~= data@.subrange(start as int, j as int));
    }
    r
}

/// Produces the chunks of an in-memory payload one at a time, so that a
/// consumer can take each as soon as it exists.
pub struct BufferChunker {
    data: Vec<u8>,
    filename: String,
    chunk_size: usize,
    offset: usize,
    next_index: usize,
}

impl BufferChunker {
    pub closed spec fn data(&self) -> Seq<u8> {
        self.data@
    }

    pub closed spec fn filename(&self) -> Seq<char> {
        self.filename@
    }

    pub closed spec fn chunk_size(&self) -> nat {
        self.chunk_size as nat
    }

    /// How many chunks have been handed out so far.
    pub closed spec fn emitted(&self) -> nat {
        self.next_index as nat
    }

    /// Total number of chunks this payload yields.
    pub open spec fn total(&self) -> nat {
        chunk_count(self.data().len(), self.chunk_size())
    }

    pub closed spec fn wf(&self) -> bool {
        &&& self.chunk_size > 0
        &&& self.offset <= self.data@.len()
        &&& chunk_count(self.data@.len(), self.chunk_size as nat) <= MAX_CHUNKS
        &&& self.next_index <= chunk_count(self.data@.len(), self.chunk_size as nat)
        &&& self.offset < self.data@.len() ==> self.offset == self.next_index * self.chunk_size
        &&& self.offset < self.data@.len() ==> self.next_index < chunk_count(
            self.data@.len(),
            self.chunk_size as nat,
        )
        &&& self.offset == self.data@.len() ==> self.next_index == chunk_count(
            self.data@.len(),
            self.chunk_size as nat,
        )
    }

    /// Starts slicing `data` into chunks of `chunk_size` bytes named `filename`.
    pub fn new(filename: &str, data: Vec<u8>, chunk_size: usize) -> (r: Self)
        requires
            chunk_size > 0,
            chunk_count(data@.len(), chunk_size as nat) <= MAX_CHUNKS,
        ensures
            r.wf(),
            r.data() == data@,
            r.filename() == filename@,
            r.chunk_size() == chunk_size,
            r.emitted() == 0,
            r.emitted() <= r.total(),
    {
        proof {
            lemma_count_iff(data@.len() as int, chunk_size as int, 0);
        }
        BufferChunker {
            data,
            filename: filename.to_string(),
            chunk_size,
            offset: 0,
            next_index: 0,
        }
    }

    /// The next chunk in order, or `None` once the whole payload has been
    /// handed out.
    pub fn next_chunk(&mut self) -> (r: Option<VideoChunk>)
        requires
            old(self).wf(),
        ensures
            final(self).wf(),
            final(self).data() == old(self).data(),
            final(self).filename() == old(self).filename(),
            final(self).chunk_size() == old(self).chunk_size(),
            final(self).emitted() <= final(self).total(),
            old(self).emitted() < old(self).total() ==> {
                &&& r is Some
                &&& is_chunk_of(
                    r->Some_0,
                    old(self).filename(),
                    old(self).data(),
                    old(self).chunk_size(),
                    old(self).emitted() as int,
                )
                &&& final(self).emitted() == old(self).emitted() + 1
            },
            old(self).emitted() == old(self).total() ==> r is None && final(self).emitted()
                == old(self).emitted(),
    {
        if self.offset >= self.data.len() {
            return None;
        }
        proof {
            lemma_count_iff(self.data@.len() as int, self.chunk_size as int, self.next_index as int);
        }
        let n = self.data.len();
        let s = self.chunk_size;
        let start = self.offset;
        let end = if s <= n - start { start + s } else { n };
        let payload = copy_range(&self.data, start, end);
        let index = self.next_index;
        proof {
            let i = index as int;
            assert((i + 1) * s == i * s + s) by (nonlinear_arith);
            lemma_count_iff(n as int, s as int, i + 1);
            lemma_count_iff(n as int, s as int, i);
        }
        self.offset = end;
        self.next_index = index + 1;
        Some(VideoChunk { data: payload, filename: self.filename.clone(), chunk_index: index as i32 })
    }
}

/// Cuts `video_data` into chunks of `chunk_size` bytes (the last may be
/// shorter), numbered from 0, each named `filename`.
pub fn build_video_chunks(filename: &str, video_data: Vec<u8>, chunk_size: usize) -> (r: Vec<
    VideoChunk,
>)
    requires
        chunk_size > 0,
        chunk_count(video_data@.len(), chunk_size as nat) <= MAX_CHUNKS,
    ensures
        r@.len() == chunk_count(video_data@.len(), chunk_size as nat),
        forall|i: int|
            0 <= i < r@.len() ==> is_chunk_of(
                #[trigger] r@[i],
                filename@,
                video_data@,
                chunk_size as nat,
                i,
            ),
        payloads_of(r@) == chunk_payloads(video_data@, chunk_size as nat),
        joined(payloads_of(r@)) == video_data@,
{
    let ghost data = video_data@;
    let mut chunker = BufferChunker::new(filename, video_data, chunk_size);
    let mut out: Vec<VideoChunk> = Vec::new();
    loop
        invariant
            chunker.wf(),
            chunker.data() == data,
            chunker.filename() == filename@,
            chunker.chunk_size() == chunk_size,
            out@.len() == chunker.emitted(),
            chunker.emitted() <= chunker.total(),
            forall|i: int|
                0 <= i < out@.len() ==> is_chunk_of(
                    #[trigger] out@[i],
                    filename@,
                    data,
                    chunk_size as nat,
                    i,
                ),
        ensures
            out@.len() == chunk_count(data.len(), chunk_size as nat),
            forall|i: int|
                0 <= i < out@.len() ==> is_chunk_of(
                    #[trigger] out@[i],
                    filename@,
                    data,
                    chunk_size as nat,
                    i,
                ),
        decreases chunker.total() - chunker.emitted(),
    {
        match chunker.next_chunk() {
            Some(c) => {
                out.push(c);
            },
            None => {
                break;
            },
        }
    }
    proof {
        assert forall|i: int| 0 <= i < out@.len() implies #[trigger] payloads_of(out@)[i]
            == chunk_payloads(data, chunk_size as nat)[i] by {
            assert(is_chunk_of(out@[i], filename@, data, chunk_size as nat, i));
        }
        assert(payloads_of(out@) =~= chunk_payloads(data, chunk_size as nat));
        lemma_chunks_cover_payload(data, chunk_size as nat);
    }
    out
}

/// What one sequential read of a file gave.
pub enum ReadOutcome {
    /// The bytes read; none at all means end of file.
    Bytes(Vec<u8>),
    /// The read failed.
    Failed,
}

/// Produces chunks from successive reads of a file: each non-empty read
/// becomes the next chunk; an empty read (end of file) or a failed read ends
/// production silently.
pub struct FileChunker {
    filename: String,
    next_index: usize,
    finished: bool,
}

impl FileChunker {
    pub closed spec fn filename(&self) -> Seq<char> {
        self.filename@
    }

    /// How many chunks have been handed out so far.
    pub closed spec fn emitted(&self) -> nat {
        self.next_index as nat
    }

    pub closed spec fn finished(&self) -> bool {
        self.finished
    }

    pub closed spec fn wf(&self) -> bool {
        self.next_index <= MAX_CHUNKS
    }

    /// Starts producing chunks named `filename`.
    pub fn new(filename: &str) -> (r: Self)
        ensures
            r.wf(),
            r.filename() == filename@,
            r.emitted() == 0,
            !r.finished(),
    {
        FileChunker { filename: filename.to_string(), next_index: 0, finished: false }
    }

    /// Whether production has ended; no further read is needed.
    pub fn is_finished(&self) -> (r: bool)
        ensures
            r == self.finished(),
    {
        self.finished
    }

    /// Turns the outcome of one read into the next chunk, or ends production.
    /// Once the index space of `MAX_CHUNKS` chunks is used up, production
    /// ends as well.
    pub fn on_read(&mut self, outcome: ReadOutcome) -> (r: Option<VideoChunk>)
        requires
            old(self).wf(),
        ensures
            final(self).wf(),
            final(self).filename() == old(self).filename(),
            old(self).finished() ==> r is None && final(self).finished() && final(self).emitted()
                == old(self).emitted(),
            !old(self).finished() ==> match outcome {
                ReadOutcome::Bytes(b) => if b@.len() > 0 && old(self).emitted() < MAX_CHUNKS {
                    &&& r is Some
                    &&& r->Some_0.data@ == b@
                    &&& r->Some_0.filename@ == old(self).filename()
                    &&& r->Some_0.chunk_index == old(self).emitted()
                    &&& final(self).emitted() == old(self).emitted() + 1
                    &&& !final(self).finished()
                } else {
                    r is None && final(self).finished() && final(self).emitted() == old(
                        self,
                    ).emitted()
                },
                ReadOutcome::Failed => r is None && final(self).finished() && final(self).emitted()
                    == old(self).emitted(),
            },
    {
        if self.finished {
            return None;
        }
        match outcome {
            ReadOutcome::Bytes(b) => {
                if b.len() > 0 && self.next_index < MAX_CHUNKS {
                    let index = self.next_index;
                    self.next_index = index + 1;
                    Some(
                        VideoChunk {
                            data: b,
                            filename: self.filename.clone(),
                            chunk_index: index as i32,
                        },
                    )
                } else {
                    self.finished = true;
                    None
                }
            },
            ReadOutcome::Failed => {
                self.finished = true;
                None
            },
        }
    }
}

} // verus!
