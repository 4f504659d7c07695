//! The incremental streaming decoder: splitting an unbounded, delimiter-less
//! byte stream into discrete top-level JSON documents, independent of how the
//! bytes were chunked, and the accumulator that stitches the documents' text
//! fragments into one coherent answer.

use vstd::prelude::*;
use crate::models::{Candidate, GenerateContentResponse, Part};

verus! {

/// The double-quote byte.
pub const QUOTE: u8 = 34;

/// The backslash byte.
pub const BACKSLASH: u8 = 92;

/// The opening-brace byte.
pub const OPEN_BRACE: u8 = 123;

/// The closing-brace byte.
pub const CLOSE_BRACE: u8 = 125;

/// The scanner's state after reading a prefix of the buffer: whether the next
/// byte sits inside a string literal, whether it is escaped, and the brace
/// depth outside strings.
pub ghost struct ScanState {
    /// The next byte sits inside a string literal.
    pub in_string: bool,
    /// The next byte is escaped by a preceding backslash.
    pub escape: bool,
    /// How many braces are open outside string literals.
    pub depth: int,
}

/// The scanner's state before any byte has been read.
pub open spec fn scan_start() -> ScanState {
    ScanState { in_string: false, escape: false, depth: 0 }
}

/// One step of the scanner: an escaped byte is consumed blindly; an unescaped
/// quote toggles the string flag; a backslash inside a string escapes the
/// next byte; braces outside strings move the depth.
pub open spec fn scan_byte(st: ScanState, b: u8) -> ScanState {
    if st.escape {
        ScanState { escape: false, ..st }
    } else if b == QUOTE {
        ScanState { in_string: !st.in_string, ..st }
    } else if b == BACKSLASH && st.in_string {
        ScanState { escape: true, ..st }
    } else if b == OPEN_BRACE && !st.in_string {
        ScanState { depth: st.depth + 1, ..st }
    } else if b == CLOSE_BRACE && !st.in_string {
        ScanState { depth: st.depth - 1, ..st }
    } else {
        st
    }
}

/// The scanner's state after reading the first `n` bytes of `s`.
pub open spec fn scan_prefix(s: Seq<u8>, n: int) -> ScanState
    decreases n,
{
    if n <= 0 {
        scan_start()
    } else {
        scan_byte(scan_prefix(s, n - 1), s[n - 1])
    }
}

/// Position `i` closes a top-level document: an unescaped, unquoted closing
/// brace past the first byte that returns the depth to zero.
pub open spec fn closes_document(s: Seq<u8>, i: int) -> bool {
    let st = scan_prefix(s, i);
    &&& 0 < i < s.len()
    &&& !st.escape
    &&& !st.in_string
    &&& st.depth == 1
    &&& s[i] == CLOSE_BRACE
}

/// The end (exclusive) of the first complete document at or after position
/// `i`, if the bytes read so far contain one.
pub open spec fn doc_end_from(s: Seq<u8>, i: int) -> Option<int>
    decreases s.len() - i,
{
    if i < 0 || i >= s.len() {
        None
    } else if closes_document(s, i) {
        Some(i + 1)
    } else {
        doc_end_from(s, i + 1)
    }
}

/// The end (exclusive) of the first complete top-level document in `s`.
pub open spec fn doc_end(s: Seq<u8>) -> Option<int> {
    doc_end_from(s, 0)
}

/// A document end lies past the position searched from, and in `2..=s.len()`.
pub proof fn lemma_doc_end_bounds(s: Seq<u8>, i: int, e: int)
    requires
        doc_end_from(s, i) == Some(e),
        0 <= i,
    ensures
        i + 1 <= e <= s.len(),
        2 <= e,
    decreases s.len() - i,
{
    if i >= s.len() {
    } else if closes_document(s, i) {
    } else {
        lemma_doc_end_bounds(s, i + 1, e);
    }
}

/// The scanner's state over a prefix is unchanged by bytes appended after it.
pub proof fn lemma_scan_prefix_extend(s: Seq<u8>, ext: Seq<u8>, n: int)
    requires
        n <= s.len(),
    ensures
        scan_prefix(s + ext, n) == scan_prefix(s, n),
    decreases n,
{
    if n > 0 {
        lemma_scan_prefix_extend(s, ext, n - 1);
        assert((s + ext)[n - 1] == s[n - 1]);
    }
}

/// Whether a position closes a document is unchanged by bytes appended after
/// the buffer, for positions inside the buffer.
pub proof fn lemma_closes_document_extend(s: Seq<u8>, ext: Seq<u8>, i: int)
    requires
        0 <= i < s.len(),
    ensures
        closes_document(s + ext, i) == closes_document(s, i),
{
    lemma_scan_prefix_extend(s, ext, i);
    assert((s + ext)[i] == s[i]);
}

/// A document boundary, once found, is unchanged by bytes that arrive later.
pub proof fn lemma_doc_end_extend(s: Seq<u8>, ext: Seq<u8>, i: int, e: int)
    requires
        0 <= i,
        doc_end_from(s, i) == Some(e),
    ensures
        doc_end_from(s + ext, i) == Some(e),
    decreases s.len() - i,
{
    if i < s.len() {
        lemma_closes_document_extend(s, ext, i);
        if !closes_document(s, i) {
            lemma_doc_end_extend(s, ext, i + 1, e);
        }
    }
}

/// The complete documents at the front of `s`, in order: each is the span
/// from the buffer's start to the first document end, removed before looking
/// for the next.
pub open spec fn split_docs(s: Seq<u8>) -> Seq<Seq<u8>>
    decreases s.len(),
{
    match doc_end(s) {
        // The range guard always holds (see `lemma_doc_end_bounds`); it is
        // here so the recursion visibly decreases.
        Some(e) => if 0 < e <= s.len() {
            seq![s.take(e)] + split_docs(s.skip(e))
        } else {
            Seq::empty()
        },
        None => Seq::empty(),
    }
}

/// What remains of `s` after every complete document at its front is removed:
/// the bytes still waiting for more input.
pub open spec fn split_rest(s: Seq<u8>) -> Seq<u8>
    decreases s.len(),
{
    match doc_end(s) {
        // The range guard always holds, as in `split_docs`.
        Some(e) => if 0 < e <= s.len() {
            split_rest(s.skip(e))
        } else {
            s
        },
        None => s,
    }
}

/// A document end found in `s` is found at the same place in any prefix of
/// `s` long enough to contain it.
proof fn lemma_doc_end_take(s: Seq<u8>, i: int, e: int, m: int)
    requires
        0 <= i,
        doc_end_from(s, i) == Some(e),
        e <= m <= s.len(),
    ensures
        doc_end_from(s.take(m), i) == Some(e),
    decreases s.len() - i,
{
    lemma_doc_end_bounds(s, i, e);
    assert(s =~= s.take(m) + s.skip(m));
    lemma_closes_document_extend(s.take(m), s.skip(m), i);
    if !closes_document(s, i) {
        lemma_doc_end_take(s, i + 1, e, m);
    }
}

/// The byte just before a document end is the closing brace that ends it.
proof fn lemma_doc_end_closes(s: Seq<u8>, i: int, e: int)
    requires
        0 <= i,
        doc_end_from(s, i) == Some(e),
    ensures
        closes_document(s, e - 1),
    decreases s.len() - i,
{
    if i < s.len() && !closes_document(s, i) {
        lemma_doc_end_closes(s, i + 1, e);
    }
}

/// Every emitted document is itself one complete top-level document: its own
/// first boundary is its very end, and its last byte is the closing brace.
/// Trailing bytes with unbalanced braces are never emitted as a document.
pub proof fn lemma_emitted_docs_complete(s: Seq<u8>, k: int)
    requires
        0 <= k < split_docs(s).len(),
    ensures
        doc_end(split_docs(s)[k]) == Some(split_docs(s)[k].len() as int),
        split_docs(s)[k].last() == CLOSE_BRACE,
    decreases s.len(),
{
    let e = doc_end(s)->Some_0;
    lemma_doc_end_bounds(s, 0, e);
    if k == 0 {
        lemma_doc_end_take(s, 0, e, e);
        lemma_doc_end_closes(s.take(e), 0, e);
    } else {
        lemma_emitted_docs_complete(s.skip(e), k - 1);
    }
}

/// Splitting commutes with appending input: the documents of `h + c` are the
/// documents of `h` followed by the documents of `h`'s leftover extended with
/// `c`, and the leftovers agree. This is why decoding does not depend on how
/// the byte stream was chunked.
pub proof fn lemma_split_append(h: Seq<u8>, c: Seq<u8>)
    ensures
        split_docs(h + c) == split_docs(h) + split_docs(split_rest(h) + c),
        split_rest(h + c) == split_rest(split_rest(h) + c),
    decreases h.len(),
{
    match doc_end(h) {
        Some(e) => {
            lemma_doc_end_bounds(h, 0, e);
            lemma_doc_end_extend(h, c, 0, e);
            assert((h + c).take(e) =~= h.take(e));
            assert((h + c).skip(e) =~= h.skip(e) + c);
            lemma_split_append(h.skip(e), c);
            assert(split_docs(h + c) =~= split_docs(h) + split_docs(split_rest(h) + c));
        },
        None => {
            assert(split_rest(h) + c =~= h + c);
            assert(split_docs(h + c) =~= split_docs(h) + split_docs(split_rest(h) + c));
        },
    }
}

/// Find the end (exclusive) of the first complete top-level document in the
/// buffer, scanning from its start.
fn find_document_end(buffer: &Vec<u8>) -> (r: Option<usize>)
    ensures
        match r {
            Some(e) => doc_end(buffer@) == Some(e as int),
            None => doc_end(buffer@) is None,
        },
{
    let n = buffer.len();
    let mut in_string = false;
    let mut escape = false;
    let mut depth: i128 = 0;
    let mut i: usize = 0;
    while i < n
        invariant
            i <= n,
            n == buffer@.len(),
            scan_prefix(buffer@, i as int) == (ScanState {
                in_string,
                escape,
                depth: depth as int,
            }),
            -(i as int) <= depth <= i as int,
            doc_end(buffer@) == doc_end_from(buffer@, i as int),
        decreases n - i,
    {
        let b = buffer[i];
        if escape {
            escape = false;
        } else if b == QUOTE {
            in_string = !in_string;
        } else if b == BACKSLASH && in_string {
            escape = true;
        } else if b == OPEN_BRACE && !in_string {
            depth = depth + 1;
        } else if b == CLOSE_BRACE && !in_string {
            depth = depth - 1;
            if depth == 0 && i > 0 {
                return Some(i + 1);
            }
        }
        i = i + 1;
    }
    None
}

/// The streaming decoder: an append-only buffer of the bytes received but not
/// yet consumed into an emitted document. Feeding it chunks yields the
/// complete top-level documents as soon as their closing brace arrives,
/// however the chunk boundaries fall.
#[derive(Debug)]
pub struct StreamDecoder {
    buffer: Vec<u8>,
}

impl View for StreamDecoder {
    type V = Seq<u8>;

    /// The bytes buffered and not yet emitted.
    closed spec fn view(&self) -> Seq<u8> {
        self.buffer@
    }
}

impl StreamDecoder {
    /// The buffer never holds a complete document: those are emitted as soon
    /// as they close.
    pub open spec fn wf(self) -> bool {
        doc_end(self@) is None
    }

    /// A fresh decoder with nothing buffered.
    pub fn new() -> (r: Self)
        ensures
            r@ == Seq::<u8>::empty(),
            r.wf(),
    {
        StreamDecoder { buffer: Vec::new() }
    }

    /// How many bytes are buffered awaiting more input.
    pub fn buffered_len(&self) -> (r: usize)
        ensures
            r == self@.len(),
    {
        self.buffer.len()
    }

    /// Append one chunk and emit every document it completes, in order. The
    /// chunk may complete zero, one or several documents, and may end in the
    /// middle of one; what a document's bytes mean is the caller's affair.
    pub fn push_chunk(&mut self, chunk: &[u8]) -> (docs: Vec<Vec<u8>>)
        requires
            old(self).wf(),
        ensures
            final(self).wf(),
            docs@.map_values(|d: Vec<u8>| d@) == split_docs(old(self)@ + chunk@),
            final(self)@ == split_rest(old(self)@ + chunk@),
    {
        let ghost start = self.buffer@ + chunk@;
        let mut k: usize = 0;
        while k < chunk.len()
            invariant
                k <= chunk@.len(),
                self.buffer@ == old(self)@ + chunk@.take(k as int),
            decreases chunk@.len() - k,
        {
            self.buffer.push(chunk[k]);
            k = k + 1;
            proof {
                assert(old(self)@ + chunk@.take(k as int) =~= (old(self)@ + chunk@.take(
                    k - 1,
                )).push(chunk@[k - 1]));
            }
        }
        proof {
            assert(self.buffer@ =~= start);
        }
        let mut docs: Vec<Vec<u8>> = Vec::new();
        loop
            invariant
                start == old(self)@ + chunk@,
                split_docs(start) =~= docs@.map_values(|d: Vec<u8>| d@) + split_docs(
                    self.buffer@,
                ),
                split_rest(start) == split_rest(self.buffer@),
            decreases self.buffer@.len(),
        {
            match find_document_end(&self.buffer) {
                Some(end) => {
                    let ghost pending = self.buffer@;
                    proof {
                        lemma_doc_end_bounds(pending, 0, end as int);
                    }
                    let mut frame = self.buffer.split_off(end);
                    core::mem::swap(&mut frame, &mut self.buffer);
                    proof {
                        assert(frame@ =~= pending.take(end as int));
                        assert(self.buffer@ =~= pending.skip(end as int));
                    }
                    docs.push(frame);
                    proof {
                        assert(split_docs(start) =~= docs@.map_values(|d: Vec<u8>| d@)
                            + split_docs(self.buffer@));
                    }
                },
                None => {
                    proof {
                        assert(split_docs(self.buffer@) =~= Seq::<Seq<u8>>::empty());
                        assert(split_rest(self.buffer@) == self.buffer@);
                        assert(docs@.map_values(|d: Vec<u8>| d@) =~= split_docs(start));
                    }
                    return docs;
                },
            }
        }
    }

    /// End of input: hand back whatever is still buffered, so the caller can
    /// attempt one final parse rather than dropping trailing bytes silently.
    /// Yields nothing when the buffer is empty.
    pub fn finish(self) -> (r: Option<Vec<u8>>)
        ensures
            self@.len() == 0 ==> r is None,
            self@.len() > 0 ==> (r matches Some(rest) && rest@ == self@),
    {
        if self.buffer.len() == 0 {
            None
        } else {
            Some(self.buffer)
        }
    }
}

/// The concatenation of a sequence of chunks.
pub open spec fn concat_chunks(chunks: Seq<Seq<u8>>) -> Seq<u8>
    decreases chunks.len(),
{
    if chunks.len() == 0 {
        Seq::empty()
    } else {
        concat_chunks(chunks.drop_last()) + chunks.last()
    }
}

/// Every document a fresh decoder emits over a sequence of chunks, in order,
/// as [`StreamDecoder::push_chunk`]'s contract folds it up.
pub open spec fn docs_over_chunks(chunks: Seq<Seq<u8>>) -> Seq<Seq<u8>>
    decreases chunks.len(),
{
    if chunks.len() == 0 {
        Seq::empty()
    } else {
        docs_over_chunks(chunks.drop_last()) + split_docs(
            rest_over_chunks(chunks.drop_last()) + chunks.last(),
        )
    }
}

/// What a fresh decoder still buffers after a sequence of chunks.
pub open spec fn rest_over_chunks(chunks: Seq<Seq<u8>>) -> Seq<u8>
    decreases chunks.len(),
{
    if chunks.len() == 0 {
        Seq::empty()
    } else {
        split_rest(rest_over_chunks(chunks.drop_last()) + chunks.last())
    }
}

/// The first text fragment of a response document: the text of the first
/// part of the first candidate, when that part is text.
pub open spec fn first_text_fragment(r: GenerateContentResponse) -> Option<Seq<char>> {
    if r.candidates@.len() > 0 && r.candidates@[0].content.parts@.len() > 0 {
        match r.candidates@[0].content.parts@[0] {
            Part::Text { text } => Some(text@),
            _ => None,
        }
    } else {
        None
    }
}

/// `out` is `prev` with the text of its first part replaced by `text` and
/// everything else kept.
pub open spec fn candidate_with_first_text(prev: Candidate, out: Candidate, text: Seq<char>) -> bool {
    &&& out.finish_reason == prev.finish_reason
    &&& out.safety_ratings == prev.safety_ratings
    &&& out.citation_metadata == prev.citation_metadata
    &&& out.grounding_metadata == prev.grounding_metadata
    &&& out.url_context_metadata == prev.url_context_metadata
    &&& out.content.role == prev.content.role
    &&& out.content.parts@.len() == prev.content.parts@.len()
    &&& forall|j: int|
        1 <= j < prev.content.parts@.len() ==> out.content.parts@[j] == prev.content.parts@[j]
    &&& (out.content.parts@[0] matches Part::Text { text: t } && t@ == text)
}

/// `out` is `prev` with its first text fragment replaced by `text` and
/// everything else kept.
pub open spec fn response_with_first_text(
    prev: GenerateContentResponse,
    out: GenerateContentResponse,
    text: Seq<char>,
) -> bool {
    &&& out.prompt_feedback == prev.prompt_feedback
    &&& out.usage_metadata == prev.usage_metadata
    &&& out.candidates@.len() == prev.candidates@.len()
    &&& forall|i: int| 1 <= i < prev.candidates@.len() ==> out.candidates@[i] == prev.candidates@[i]
    &&& candidate_with_first_text(prev.candidates@[0], out.candidates@[0], text)
}

/// Stream processor that accumulates the partial responses of one streaming
/// call: it keeps the concatenation of every text fragment seen so far, and
/// the most recent document for finalization.
#[derive(Debug)]
pub struct StreamAccumulator {
    accumulated_text: String,
    current_response: Option<GenerateContentResponse>,
}

impl StreamAccumulator {
    /// The text accumulated so far.
    pub closed spec fn text(self) -> Seq<char> {
        self.accumulated_text@
    }

    /// The most recently processed document.
    pub closed spec fn last_response(self) -> Option<GenerateContentResponse> {
        self.current_response
    }

    /// Create a new stream accumulator: no text, no document.
    pub fn new() -> (r: Self)
        ensures
            r.text() == Seq::<char>::empty(),
            r.last_response() is None,
    {
        StreamAccumulator { accumulated_text: String::new(), current_response: None }
    }

    /// Process one streaming response document: append its first text
    /// fragment (if it carries one) to the accumulated text and hand that
    /// fragment back for incremental display; remember the document either
    /// way as the most recent one.
    pub fn process_chunk(&mut self, response: GenerateContentResponse) -> (fragment: Option<
        String,
    >)
        ensures
            final(self).last_response() == Some(response),
            match first_text_fragment(response) {
                Some(t) => (fragment matches Some(f) && f@ == t) && final(self).text() == old(
                    self,
                ).text() + t,
                None => fragment is None && final(self).text() == old(self).text(),
            },
    {
        let text: Option<String> = if response.candidates.len() > 0 {
            let candidate = &response.candidates[0];
            if candidate.content.parts.len() > 0 {
                match &candidate.content.parts[0] {
                    Part::Text { text } => Some(text.clone()),
                    _ => None,
                }
            } else {
                None
            }
        } else {
            None
        };
        match &text {
            Some(t) => {
                self.accumulated_text.append(t.as_str());
            },
            None => {},
        }
        self.current_response = Some(response);
        text
    }

    /// The complete accumulated text.
    pub fn get_accumulated_text(&self) -> (r: &str)
        ensures
            r@ == self.text(),
    {
        self.accumulated_text.as_str()
    }

    /// Finalize the stream: the most recently seen document with its first
    /// text fragment replaced by the complete accumulated text (untouched if
    /// it carries no text fragment), or nothing if no document was ever seen.
    pub fn finalize(self) -> (r: Option<GenerateContentResponse>)
        ensures
            self.last_response() is None ==> r is None,
            self.last_response() matches Some(prev) ==> (r matches Some(out) && (
            if first_text_fragment(prev) is Some {
                response_with_first_text(prev, out, self.text())
            } else {
                out == prev
            })),
    {
        match self.current_response {
            None => None,
            Some(mut response) => {
                let ghost prev = response;
                let replace = if response.candidates.len() > 0 {
                    let candidate = &response.candidates[0];
                    if candidate.content.parts.len() > 0 {
                        match &candidate.content.parts[0] {
                            Part::Text { .. } => true,
                            _ => false,
                        }
                    } else {
                        false
                    }
                } else {
                    false
                };
                if replace {
                    let mut first = response.candidates.remove(0);
                    first.content.parts.set(0, Part::Text { text: self.accumulated_text });
                    response.candidates.insert(0, first);
                    proof {
                        assert(response.candidates@.len() == prev.candidates@.len());
                        assert(forall|i: int|
                            1 <= i < prev.candidates@.len() ==> response.candidates@[i]
                                == prev.candidates@[i]);
                    }
                }
                Some(response)
            },
        }
    }
}

/// Chunk-boundary independence: however a byte stream is cut into chunks,
/// feeding the chunks one at a time emits exactly the documents of the whole
/// stream, in the same order, and buffers the same leftover.
pub proof fn lemma_chunking_independent(chunks: Seq<Seq<u8>>)
    ensures
        docs_over_chunks(chunks) == split_docs(concat_chunks(chunks)),
        rest_over_chunks(chunks) == split_rest(concat_chunks(chunks)),
    decreases chunks.len(),
{
    if chunks.len() == 0 {
        assert(split_docs(Seq::<u8>::empty()) =~= Seq::<Seq<u8>>::empty());
    } else {
        lemma_chunking_independent(chunks.drop_last());
        lemma_split_append(concat_chunks(chunks.drop_last()), chunks.last());
    }
}

} // verus!
