//! Extracting the translated text from the translation service's response
//! page.
//!
//! The response is an HTML page; the translation sits in the first
//! `result-container` division. The extraction takes the bytes between the
//! first occurrence of that division's opening tag and the first closing
//! `</div>` that begins at least one byte later (the division must not be
//! empty), then strips the span markup and turns `<br>` tags into
//! newlines. The surrounding application fetches the page and hands the
//! bytes in; everything here is pure byte-sequence logic.

use vstd::prelude::*;
use vstd::string::StringSliceAdditionalSpecFns;

verus! {

/// The tag that opens the result container.
pub const RESULT_OPEN: &'static str = "<div class=\"result-container\">";

/// The tag that ends the result container: the first one after at least
/// one byte of content.
pub const RESULT_CLOSE: &'static str = "</div>";

/// Span markup stripped from the extracted text.
pub const SPAN_OPEN: &'static str = "<span class=\"hps\">";

pub const SPAN_CLOSE: &'static str = "</span>";

/// A line-break tag, turned into a newline.
pub const LINE_BREAK: &'static str = "<br>";

pub const NEWLINE: &'static str = "\n";

/// The page holds no usable result container.
#[derive(Debug, Clone, Copy, PartialEq, Eq, Structural)]
pub enum ScrapeError {
    NotFound,
}

/// Whether `n` occurs in `h` starting at position `i`.
pub open spec fn match_at(h: Seq<u8>, n: Seq<u8>, i: int) -> bool {
    &&& 0 <= i
    &&& i + n.len() <= h.len()
    &&& h.subrange(i, i + n.len()) == n
}

/// The first position at or after `start` where `n` occurs in `h`.
pub open spec fn find_spec(h: Seq<u8>, n: Seq<u8>, start: int) -> Option<int>
    decreases h.len() - start + 1
        when 0 <= start
{
    if start + n.len() > h.len() {
        None
    } else if match_at(h, n, start) {
        Some(start)
    } else {
        find_spec(h, n, start + 1)
    }
}

/// What `find_spec` returns is the first match: a match in range, with
/// none before it, or nothing when no position at or after `start`
/// matches.
pub proof fn lemma_find_spec(h: Seq<u8>, n: Seq<u8>, start: int)
    requires
        0 <= start,
    ensures
        match find_spec(h, n, start) {
            Some(i) => {
                &&& start <= i
                &&& match_at(h, n, i)
                &&& forall|j: int| start <= j < i ==> !match_at(h, n, j)
            },
            None => forall|j: int| start <= j ==> !match_at(h, n, j),
        },
    decreases h.len() - start + 1,
{
    if start + n.len() > h.len() {
    } else if match_at(h, n, start) {
    } else {
        lemma_find_spec(h, n, start + 1);
    }
}

/// `h` with every occurrence of `from` replaced by `to`, scanning left to
/// right over non-overlapping occurrences. An empty `from` occurs nowhere.
pub open spec fn replace_spec(h: Seq<u8>, from: Seq<u8>, to: Seq<u8>) -> Seq<u8>
    decreases h.len(),
{
    if from.len() == 0 {
        h
    } else if h.len() < from.len() {
        h
    } else if h.take(from.len() as int) == from {
        to + replace_spec(h.skip(from.len() as int), from, to)
    } else {
        seq![h[0]] + replace_spec(h.skip(1), from, to)
    }
}

/// The stripped form of the container's content: span markup dropped,
/// line-break tags turned into newlines.
pub open spec fn cleanup_spec(content: Seq<u8>) -> Seq<u8> {
    replace_spec(
        replace_spec(
            replace_spec(content, SPAN_OPEN.spec_bytes(), Seq::empty()),
            SPAN_CLOSE.spec_bytes(),
            Seq::empty(),
        ),
        LINE_BREAK.spec_bytes(),
        NEWLINE.spec_bytes(),
    )
}

/// The translated text carried by a response page: the cleaned-up content
/// of the first result container, where the page has one with at least one
/// byte of content.
pub open spec fn extract_spec(page: Seq<u8>) -> Result<Seq<u8>, ScrapeError> {
    match find_spec(page, RESULT_OPEN.spec_bytes(), 0) {
        None => Err(ScrapeError::NotFound),
        Some(open_at) => {
            let content_start = open_at + RESULT_OPEN.spec_bytes().len();
            match find_spec(page, RESULT_CLOSE.spec_bytes(), content_start + 1) {
                None => Err(ScrapeError::NotFound),
                Some(close_at) => Ok(cleanup_spec(page.subrange(content_start, close_at))),
            }
        },
    }
}

/// Whether `needle` occurs in `h` at position `i`.
fn matches_at(h: &[u8], needle: &[u8], i: usize) -> (r: bool)
    requires
        i + needle@.len() <= h@.len(),
    ensures
        r == match_at(h@, needle@, i as int),
{
    let h_len: usize = h.len();
    let mut j: usize = 0;
    while j < needle.len()
        invariant
            0 <= j <= needle@.len(),
            i + needle@.len() <= h@.len(),
            h@.len() == h_len,
            forall|k: int| 0 <= k < j ==> h@[i + k] == needle@[k],
        decreases needle@.len() - j,
    {
        if h[i + j] != needle[j] {
            proof {
                if match_at(h@, needle@, i as int) {
                    assert(h@.subrange(i as int, i + needle@.len())[j as int] == needle@[j as int]);
                }
            }
            return false;
        }
        j += 1;
    }
    proof {
        assert(h@.subrange(i as int, i + needle@.len()) =~= needle@);
    }
    true
}

/// The first position at or after `start` where `needle` occurs in `h`.
pub fn find_from(h: &[u8], needle: &[u8], start: usize) -> (r: Option<usize>)
    ensures
        match r {
            Some(i) => find_spec(h@, needle@, start as int) == Some(i as int),
            None => find_spec(h@, needle@, start as int) is None,
        },
{
    if needle.len() == 0 {
        if start <= h.len() {
            proof {
                assert(h@.subrange(start as int, start as int) =~= needle@);
            }
            return Some(start);
        }
        return None;
    }
    if needle.len() > h.len() {
        return None;
    }
    let h_len: usize = h.len();
    let last_pos: usize = h.len() - needle.len();
    let mut i: usize = start;
    while i <= last_pos
        invariant
            start <= i,
            1 <= needle@.len() <= h@.len(),
            h@.len() == h_len,
            last_pos == h@.len() - needle@.len(),
            find_spec(h@, needle@, start as int) == find_spec(h@, needle@, i as int),
        decreases last_pos + 1 - i,
    {
        if matches_at(h, needle, i) {
            return Some(i);
        }
        i += 1;
    }
    None
}

/// `h` with every occurrence of `from` replaced by `to`, scanning left to
/// right over non-overlapping occurrences, as the standard string
/// replacement does.
pub fn replace_all(h: &[u8], from: &[u8], to: &[u8]) -> (r: Vec<u8>)
    ensures
        r@ == replace_spec(h@, from@, to@),
{
    if from.len() == 0 {
        return vstd::slice::slice_to_vec(h);
    }
    let mut out: Vec<u8> = Vec::new();
    let mut i: usize = 0;
    proof {
        assert(h@.skip(0) =~= h@);
        assert(Seq::<u8>::empty() + replace_spec(h@, from@, to@) =~= replace_spec(h@, from@, to@));
    }
    while i < h.len()
        invariant
            0 <= i <= h@.len(),
            from@.len() > 0,
            replace_spec(h@, from@, to@) == out@ + replace_spec(h@.skip(i as int), from@, to@),
        decreases h@.len() - i,
    {
        let ghost out0 = out@;
        let ghost rem = h@.skip(i as int);
        if h.len() - i >= from.len() && matches_at(h, from, i) {
            proof {
                assert(rem.take(from@.len() as int) =~= h@.subrange(i as int, i + from@.len()));
                assert(rem.skip(from@.len() as int) =~= h@.skip(i + from@.len()));
            }
            let mut k: usize = 0;
            while k < to.len()
                invariant
                    0 <= k <= to@.len(),
                    out@ == out0 + to@.take(k as int),
                decreases to@.len() - k,
            {
                proof {
                    assert(to@.take(k + 1) =~= to@.take(k as int).push(to@[k as int]));
                }
                out.push(to[k]);
                k += 1;
            }
            proof {
                assert(to@.take(to@.len() as int) =~= to@);
                assert(out0 + to@ + replace_spec(rem.skip(from@.len() as int), from@, to@) =~= out0
                    + (to@ + replace_spec(rem.skip(from@.len() as int), from@, to@)));
            }
            i += from.len();
        } else {
            proof {
                assert(rem[0] == h@[i as int]);
                assert(rem.skip(1) =~= h@.skip(i + 1));
                if rem.len() >= from@.len() {
                    // the head of the remainder is not an occurrence of `from`
                    assert(rem.take(from@.len() as int) =~= h@.subrange(i as int, i + from@.len()));
                    assert(rem.take(from@.len() as int) != from@);
                    assert(out0 + (seq![rem[0]] + replace_spec(rem.skip(1), from@, to@)) =~= out0.push(
                        h@[i as int]) + replace_spec(rem.skip(1), from@, to@));
                } else {
                    // too little input is left for any further occurrence
                    assert(replace_spec(rem, from@, to@) == rem);
                    assert(replace_spec(rem.skip(1), from@, to@) == rem.skip(1));
                    assert(rem =~= seq![rem[0]] + rem.skip(1));
                    assert(out0 + rem =~= out0.push(h@[i as int]) + rem.skip(1));
                }
            }
            out.push(h[i]);
            i += 1;
        }
    }
    proof {
        assert(h@.skip(h@.len() as int) =~= Seq::<u8>::empty());
        assert(out@ + Seq::<u8>::empty() =~= out@);
    }
    out
}

/// Extract the translated text from a response page: the cleaned-up
/// content of the first result container. Fails if and only if the page
/// has no opening tag, or no closing tag past at least one byte of
/// content.
pub fn extract_translation(page: &[u8]) -> (r: Result<Vec<u8>, ScrapeError>)
    ensures
        match r {
            Ok(v) => extract_spec(page@) == Ok::<Seq<u8>, ScrapeError>(v@),
            Err(e) => extract_spec(page@) == Err::<Seq<u8>, ScrapeError>(e),
        },
{
    // pins the page length to a machine word for the index arithmetic below
    let _page_len: usize = page.len();
    let open_tag: &[u8] = RESULT_OPEN.as_bytes();
    let close_tag: &[u8] = RESULT_CLOSE.as_bytes();
    match find_from(page, open_tag, 0) {
        None => Err(ScrapeError::NotFound),
        Some(open_at) => {
            proof {
                lemma_find_spec(page@, open_tag@, 0);
            }
            let content_start: usize = open_at + open_tag.len();
            if page.len() - content_start <= close_tag.len() {
                // no closing tag fits past one byte of content, so none matches
                proof {
                    lemma_find_spec(page@, close_tag@, content_start + 1);
                    if find_spec(page@, close_tag@, content_start + 1) is Some {
                        let j = find_spec(page@, close_tag@, content_start + 1).unwrap();
                        assert(match_at(page@, close_tag@, j));
                    }
                }
                return Err(ScrapeError::NotFound);
            }
            match find_from(page, close_tag, content_start + 1) {
                None => Err(ScrapeError::NotFound),
                Some(close_at) => {
                    proof {
                        lemma_find_spec(page@, close_tag@, content_start + 1);
                    }
                    let content: &[u8] = &page[content_start..close_at];
                    let empty: Vec<u8> = Vec::new();
                    let without_span_open = replace_all(
                        content,
                        SPAN_OPEN.as_bytes(),
                        empty.as_slice(),
                    );
                    let without_span = replace_all(
                        without_span_open.as_slice(),
                        SPAN_CLOSE.as_bytes(),
                        empty.as_slice(),
                    );
                    let with_newlines = replace_all(
                        without_span.as_slice(),
                        LINE_BREAK.as_bytes(),
                        NEWLINE.as_bytes(),
                    );
                    Ok(with_newlines)
                },
            }
        },
    }
}

} // verus!
