//! Feed responses: a 200 body is a bzip2-compressed stream of
//! newline-delimited JSON records. The stream is decompressed, split on line
//! boundaries, and each line is decoded on its own; lines that are not
//! well-formed JSON are silently dropped, the rest are kept in order.

use vstd::prelude::*;
use crate::VtError;
use crate::json::{json_wf_bytes, parse_json_bytes};

verus! {

/// The bytes the bzip2 decoder yields for this input: the whole plain text
/// on a well-formed stream, the bytes produced before the first error
/// otherwise.
pub uninterp spec fn bz_plain(data: Seq<u8>) -> Seq<u8>;

/// The text that lossy UTF-8 decoding yields for these bytes.
pub uninterp spec fn lossy_text_of(b: Seq<u8>) -> Seq<char>;

/// Relies on `bzip2::read::BzDecoder`, driven by `std::io::Read::read_to_end`:
/// decompresses the stream, keeping whatever was produced before an error.
#[verifier::external_body]
fn bz_decompress(data: &Vec<u8>) -> (r: Vec<u8>)
    ensures
        r@ == bz_plain(data@),
{
    let mut decoder = bzip2::read::BzDecoder::new(&data[..]);
    let mut plain: Vec<u8> = Vec::new();
    let _ = std::io::Read::read_to_end(&mut decoder, &mut plain);
    plain
}

/// Relies on `String::from_utf8_lossy`: decodes bytes as UTF-8, replacing
/// invalid sequences.
#[verifier::external_body]
fn bytes_to_text_lossy(b: &Vec<u8>) -> (r: String)
    ensures
        r@ == lossy_text_of(b@),
{
    String::from_utf8_lossy(b).into_owned()
}

/// A line with a trailing carriage return removed, as line reading does for
/// lines that were terminated by a newline.
pub open spec fn strip_cr(l: Seq<u8>) -> Seq<u8> {
    if l.len() > 0 && l.last() == 13u8 {
        l.drop_last()
    } else {
        l
    }
}

/// The index of the first newline byte, or the length when there is none.
pub open spec fn first_nl(b: Seq<u8>) -> int
    decreases b.len(),
{
    if b.len() == 0 {
        0
    } else if b[0] == 10u8 {
        0
    } else {
        1 + first_nl(b.skip(1))
    }
}

/// The lines of a byte stream: split on newline bytes, each terminated line
/// with a trailing carriage return removed, a final unterminated line kept
/// as it stands, and no line at all after a final newline.
pub open spec fn feed_lines(b: Seq<u8>) -> Seq<Seq<u8>>
    decreases b.len(),
{
    if b.len() == 0 {
        seq![]
    } else {
        let i = first_nl(b);
        // The lower bound always holds; stating it keeps the recursion
        // visibly well-founded.
        if 0 <= i && i < b.len() {
            seq![strip_cr(b.take(i))] + feed_lines(b.skip(i + 1))
        } else {
            seq![b]
        }
    }
}

/// How many of these lines are well-formed JSON documents.
pub open spec fn wf_count(lines: Seq<Seq<u8>>) -> int
    decreases lines.len(),
{
    if lines.len() == 0 {
        0
    } else {
        wf_count(lines.drop_last()) + if json_wf_bytes(lines.last()) {
            1int
        } else {
            0int
        }
    }
}

/// The views of a sequence of byte vectors.
pub open spec fn views_of(v: Seq<Vec<u8>>) -> Seq<Seq<u8>> {
    Seq::new(v.len(), |i: int| v[i]@)
}

proof fn lemma_first_nl_bounds(b: Seq<u8>)
    ensures
        0 <= first_nl(b) <= b.len(),
        first_nl(b) < b.len() ==> b[first_nl(b)] == 10u8,
        forall|j: int| 0 <= j < first_nl(b) ==> b[j] != 10u8,
    decreases b.len(),
{
    if b.len() == 0 {
    } else if b[0] == 10u8 {
    } else {
        lemma_first_nl_bounds(b.skip(1));
        assert(forall|j: int| 0 <= j < first_nl(b.skip(1)) ==> b.skip(1)[j] != 10u8);
        assert forall|j: int| 0 <= j < first_nl(b) implies b[j] != 10u8 by {
            if j > 0 {
                assert(b.skip(1)[j - 1] == b[j]);
            }
        }
    }
}

proof fn lemma_first_nl_at(b: Seq<u8>, k: int)
    requires
        0 <= k < b.len(),
        b[k] == 10u8,
        forall|j: int| 0 <= j < k ==> b[j] != 10u8,
    ensures
        first_nl(b) == k,
    decreases k,
{
    if k == 0 {
    } else {
        assert(b[0] != 10u8);
        assert(b.skip(1)[k - 1] == b[k]);
        assert(forall|j: int| 0 <= j < k - 1 ==> b.skip(1)[j] == b[j + 1]);
        lemma_first_nl_at(b.skip(1), k - 1);
    }
}

proof fn lemma_first_nl_none(b: Seq<u8>)
    requires
        forall|j: int| 0 <= j < b.len() ==> b[j] != 10u8,
    ensures
        first_nl(b) == b.len(),
{
    lemma_first_nl_bounds(b);
    if first_nl(b) < b.len() {
        assert(b[first_nl(b)] == 10u8);
    }
}

/// Splitting a stream at its first newline: the part before it, with a
/// trailing carriage return removed, becomes one line, and the rest is split
/// on its own.
proof fn lemma_feed_lines_step(pre: Seq<u8>, rest: Seq<u8>)
    requires
        forall|j: int| 0 <= j < pre.len() ==> pre[j] != 10u8,
    ensures
        feed_lines(pre + seq![10u8] + rest) == seq![strip_cr(pre)] + feed_lines(rest),
{
    let b = pre + seq![10u8] + rest;
    assert(b.len() > 0);
    assert(b[pre.len() as int] == 10u8);
    assert forall|j: int| 0 <= j < pre.len() implies b[j] != 10u8 by {
        assert(b[j] == pre[j]);
    }
    lemma_first_nl_at(b, pre.len() as int);
    assert(b.take(pre.len() as int) =~= pre);
    assert(b.skip(pre.len() as int + 1) =~= rest);
}

/// A stream without a newline is one line (or none, when it is empty).
proof fn lemma_feed_lines_last(b: Seq<u8>)
    requires
        forall|j: int| 0 <= j < b.len() ==> b[j] != 10u8,
    ensures
        b.len() == 0 ==> feed_lines(b) == Seq::<Seq<u8>>::empty(),
        b.len() > 0 ==> feed_lines(b) == seq![b],
{
    lemma_first_nl_none(b);
}

/// Splits a byte stream into its lines, as `feed_lines` describes.
pub fn split_lines(data: &Vec<u8>) -> (r: Vec<Vec<u8>>)
    ensures
        views_of(r@) == feed_lines(data@),
{
    let mut out: Vec<Vec<u8>> = Vec::new();
    let mut cur: Vec<u8> = Vec::new();
    let mut i: usize = 0;
    proof {
        assert(cur@ + data@.skip(0) =~= data@);
        assert(views_of(out@) =~= Seq::<Seq<u8>>::empty());
    }
    while i < data.len()
        invariant
            i <= data.len(),
            forall|j: int| 0 <= j < cur@.len() ==> cur@[j] != 10u8,
            feed_lines(data@) == views_of(out@) + feed_lines(cur@ + data@.skip(i as int)),
        decreases data.len() - i,
    {
        let b = data[i];
        if b == 10u8 {
            let ghost old_out = out@;
            let ghost old_cur = cur@;
            let line = strip_cr_line(cur);
            out.push(line);
            cur = Vec::new();
            proof {
                assert(old_cur + data@.skip(i as int) =~= old_cur + seq![10u8] + data@.skip(
                    i + 1,
                ));
                lemma_feed_lines_step(old_cur, data@.skip(i + 1));
                assert(views_of(out@) =~= views_of(old_out) + seq![strip_cr(old_cur)]);
                assert(cur@ + data@.skip(i + 1) =~= data@.skip(i + 1));
            }
        } else {
            let ghost old_cur = cur@;
            cur.push(b);
            proof {
                assert(old_cur + data@.skip(i as int) =~= cur@ + data@.skip(i + 1));
            }
        }
        i += 1;
    }
    proof {
        assert(cur@ + data@.skip(data@.len() as int) =~= cur@);
    }
    if cur.len() > 0 {
        proof {
            lemma_feed_lines_last(cur@);
        }
        let ghost old_out = out@;
        out.push(cur);
        proof {
            assert(views_of(out@) =~= views_of(old_out) + seq![out@.last()@]);
            assert(views_of(out@) =~= feed_lines(data@));
        }
        out
    } else {
        proof {
            lemma_feed_lines_last(cur@);
            assert(views_of(out@) + feed_lines(cur@) =~= views_of(out@));
        }
        out
    }
}

/// A line with a trailing carriage return removed.
fn strip_cr_line(line: Vec<u8>) -> (r: Vec<u8>)
    ensures
        r@ == strip_cr(line@),
{
    let mut line = line;
    if line.len() > 0 && line[line.len() - 1] == 13u8 {
        let _ = line.pop();
    }
    line
}

/// Decodes each line as JSON, keeping the well-formed ones in order and
/// silently dropping the rest.
pub fn decode_feed_lines(lines: &Vec<Vec<u8>>) -> (r: Vec<serde_json::Value>)
    ensures
        r@.len() == wf_count(views_of(lines@)),
{
    let mut out: Vec<serde_json::Value> = Vec::new();
    let mut i: usize = 0;
    proof {
        assert(views_of(lines@).take(0) =~= Seq::<Seq<u8>>::empty());
    }
    while i < lines.len()
        invariant
            i <= lines.len(),
            out@.len() == wf_count(views_of(lines@).take(i as int)),
        decreases lines.len() - i,
    {
        match parse_json_bytes(&lines[i]) {
            Some(v) => out.push(v),
            None => (),
        }
        proof {
            let s = views_of(lines@);
            assert(s.take(i + 1).drop_last() =~= s.take(i as int));
            assert(s.take(i + 1).last() == s[i as int]);
        }
        i += 1;
    }
    proof {
        assert(views_of(lines@).take(lines@.len() as int) =~= views_of(lines@));
    }
    out
}

/// Classifies one feed response, given its status code and the outcome of
/// reading its body as bytes (`Err` when the read itself failed).
///
/// On a 200 the body is decompressed and decoded line by line; the result
/// holds exactly the well-formed lines' records. Any other status is a
/// `Remote` error whose text is the body decoded as UTF-8.
pub fn process_resp_bz(status: u16, body: Result<Vec<u8>, String>) -> (r: Result<
    Vec<serde_json::Value>,
    VtError,
>)
    ensures
        r is Ok <==> (status == 200 && body is Ok),
        (status == 200 && body is Ok) ==> r->Ok_0@.len() == wf_count(
            feed_lines(bz_plain(body->Ok_0@)),
        ),
        (status == 200 && body is Err) ==> (r matches Err(VtError::Transport(m)) && m@ == body->Err_0@),
        (status != 200 && body is Ok) ==> (r matches Err(VtError::Remote { status: s, text: t })
            && s == status && t@ == lossy_text_of(body->Ok_0@)),
        (status != 200 && body is Err) ==> (r matches Err(VtError::TextRead(m)) && m@ == body->Err_0@),
{
    match body {
        Ok(bytes) => {
            if status == 200 {
                let plain = bz_decompress(&bytes);
                let lines = split_lines(&plain);
                Ok(decode_feed_lines(&lines))
            } else {
                Err(VtError::Remote { status, text: bytes_to_text_lossy(&bytes) })
            }
        },
        Err(msg) => {
            if status == 200 {
                Err(VtError::Transport(msg))
            } else {
                Err(VtError::TextRead(msg))
            }
        },
    }
}

/// Decoding the same feed response twice gives the same outcome: both calls
/// succeed together, successful ones hold the same number of records, and
/// failing ones fail with the same error. The records themselves come from
/// the JSON codec, of which only well-formedness is stated here.
pub proof fn lemma_process_resp_bz_deterministic(
    status: u16,
    body: Result<Vec<u8>, String>,
    r1: Result<Vec<serde_json::Value>, VtError>,
    r2: Result<Vec<serde_json::Value>, VtError>,
)
    requires
        call_ensures(process_resp_bz, (status, body), r1),
        call_ensures(process_resp_bz, (status, body), r2),
    ensures
        r1 is Ok <==> r2 is Ok,
        r1 is Ok ==> r1->Ok_0@.len() == r2->Ok_0@.len(),
        (r1 matches Err(VtError::Remote { status: s1, text: t1 }) ==> (r2 matches Err(
            VtError::Remote { status: s2, text: t2 },
        ) && s1 == s2 && t1@ == t2@)),
        (r1 matches Err(VtError::Transport(m1)) ==> (r2 matches Err(VtError::Transport(m2))
            && m1@ == m2@)),
        (r1 matches Err(VtError::TextRead(m1)) ==> (r2 matches Err(VtError::TextRead(m2))
            && m1@ == m2@)),
{
}

} // verus!
