//! Wire shapes of one exchange with the embedding service: the JSON
//! request body sent for one document, and the model of the response
//! the caller hands back.

use vstd::prelude::*;
use vstd::string::*;

use crate::embedding::Embedding;
use crate::error::ShapeKind;

verus! {

// ---------------------------------------------------------------------
// Request framing.
//
// The request body for one document is the JSON object
// `{"model":<model>,"input":<document>}`, with both strings escaped as
// JSON string literals. The body is framed here byte by byte, over the
// UTF-8 bytes of the two strings: bytes at or above 0x20 never need
// escaping (continuation bytes of multi-byte characters all lie above
// 0x7f), so escaping bytewise is escaping the text itself.
// ---------------------------------------------------------------------

/// The hexadecimal digit for `n`, as a byte of ASCII text.
pub open spec fn hex_digit(n: u8) -> u8
    recommends
        n < 16,
{
    if n < 10 {
        (0x30 + n) as u8
    } else {
        (0x57 + n) as u8
    }
}

/// How one byte of UTF-8 text appears inside a JSON string literal:
/// the quote and the backslash get two-character escapes, the named
/// control characters their short forms, the remaining control bytes
/// the `\u00XX` form, and every other byte passes through.
pub open spec fn escaped_byte(b: u8) -> Seq<u8> {
    if b == 0x22 {
        seq![0x5cu8, 0x22u8]
    } else if b == 0x5c {
        seq![0x5cu8, 0x5cu8]
    } else if b == 0x08 {
        seq![0x5cu8, 0x62u8]
    } else if b == 0x09 {
        seq![0x5cu8, 0x74u8]
    } else if b == 0x0a {
        seq![0x5cu8, 0x6eu8]
    } else if b == 0x0c {
        seq![0x5cu8, 0x66u8]
    } else if b == 0x0d {
        seq![0x5cu8, 0x72u8]
    } else if b < 0x20 {
        seq![0x5cu8, 0x75u8, 0x30u8, 0x30u8, hex_digit(b >> 4), hex_digit(b & 0x0f)]
    } else {
        seq![b]
    }
}

/// The JSON string-literal escape of a whole byte sequence.
pub open spec fn escape_json(s: Seq<u8>) -> Seq<u8>
    decreases s.len(),
{
    if s.len() == 0 {
        Seq::empty()
    } else {
        escape_json(s.drop_last()) + escaped_byte(s.last())
    }
}

/// The bytes of `{"model":"`.
pub open spec fn body_prefix() -> Seq<u8> {
    seq![0x7bu8, 0x22u8, 0x6du8, 0x6fu8, 0x64u8, 0x65u8, 0x6cu8, 0x22u8, 0x3au8, 0x22u8]
}

/// The bytes of `","input":"`.
pub open spec fn body_middle() -> Seq<u8> {
    seq![0x22u8, 0x2cu8, 0x22u8, 0x69u8, 0x6eu8, 0x70u8, 0x75u8, 0x74u8, 0x22u8, 0x3au8, 0x22u8]
}

/// The bytes of `"}`.
pub open spec fn body_suffix() -> Seq<u8> {
    seq![0x22u8, 0x7du8]
}

/// The whole request body for one document under the given model.
pub open spec fn request_body_spec(model: Seq<u8>, input: Seq<u8>) -> Seq<u8> {
    body_prefix() + escape_json(model) + body_middle() + escape_json(input) + body_suffix()
}

fn hex_digit_exec(n: u8) -> (r: u8)
    requires
        n < 16,
    ensures
        r == hex_digit(n),
{
    if n < 10 {
        0x30 + n
    } else {
        0x57 + n
    }
}

fn push_escaped_byte(out: &mut Vec<u8>, b: u8)
    ensures
        final(out)@ == old(out)@ + escaped_byte(b),
{
    if b == 0x22 {
        out.push(0x5c);
        out.push(0x22);
    } else if b == 0x5c {
        out.push(0x5c);
        out.push(0x5c);
    } else if b == 0x08 {
        out.push(0x5c);
        out.push(0x62);
    } else if b == 0x09 {
        out.push(0x5c);
        out.push(0x74);
    } else if b == 0x0a {
        out.push(0x5c);
        out.push(0x6e);
    } else if b == 0x0c {
        out.push(0x5c);
        out.push(0x66);
    } else if b == 0x0d {
        out.push(0x5c);
        out.push(0x72);
    } else if b < 0x20 {
        let hi: u8 = b >> 4;
        let lo: u8 = b & 0x0f;
        proof {
            assert(b >> 4 < 16 && b & 0x0f < 16) by (bit_vector);
        }
        out.push(0x5c);
        out.push(0x75);
        out.push(0x30);
        out.push(0x30);
        out.push(hex_digit_exec(hi));
        out.push(hex_digit_exec(lo));
    } else {
        out.push(b);
    }
    assert(out@ =~= old(out)@ + escaped_byte(b));
}

fn push_escaped(out: &mut Vec<u8>, s: &[u8])
    ensures
        final(out)@ == old(out)@ + escape_json(s@),
{
    let mut i: usize = 0;
    while i < s.len()
        invariant
            i <= s@.len(),
            out@ == old(out)@ + escape_json(s@.take(i as int)),
        decreases s@.len() - i,
    {
        let b: u8 = s[i];
        push_escaped_byte(out, b);
        proof {
            let t = s@.take((i + 1) as int);
            assert(t.drop_last() =~= s@.take(i as int));
            assert(t.last() == b);
            assert(out@ =~= old(out)@ + escape_json(t));
        }
        i = i + 1;
    }
    proof {
        assert(s@.take(s@.len() as int) =~= s@);
    }
}

fn push_byte_run(out: &mut Vec<u8>, run: &[u8])
    ensures
        final(out)@ == old(out)@ + run@,
{
    let mut i: usize = 0;
    while i < run.len()
        invariant
            i <= run@.len(),
            out@ == old(out)@ + run@.take(i as int),
        decreases run@.len() - i,
    {
        out.push(run[i]);
        proof {
            assert(out@ =~= old(out)@ + run@.take((i + 1) as int));
        }
        i = i + 1;
    }
    proof {
        assert(run@.take(run@.len() as int) =~= run@);
    }
}

/// Builds the JSON request body carrying the model identifier and one
/// document, exactly as `request_body_spec` states it.
pub fn build_request_body(model: &str, input: &str) -> (r: Vec<u8>)
    ensures
        r@ == request_body_spec(model.spec_bytes(), input.spec_bytes()),
{
    let mut out: Vec<u8> = Vec::new();
    let prefix: [u8; 10] = [0x7b, 0x22, 0x6d, 0x6f, 0x64, 0x65, 0x6c, 0x22, 0x3a, 0x22];
    let middle: [u8; 11] = [0x22, 0x2c, 0x22, 0x69, 0x6e, 0x70, 0x75, 0x74, 0x22, 0x3a, 0x22];
    let suffix: [u8; 2] = [0x22, 0x7d];
    push_byte_run(&mut out, &prefix);
    proof {
        assert(prefix@ =~= body_prefix());
    }
    push_escaped(&mut out, model.as_bytes());
    push_byte_run(&mut out, &middle);
    proof {
        assert(middle@ =~= body_middle());
    }
    push_escaped(&mut out, input.as_bytes());
    push_byte_run(&mut out, &suffix);
    proof {
        assert(suffix@ =~= body_suffix());
        assert(out@ =~= request_body_spec(model.spec_bytes(), input.spec_bytes()));
    }
    out
}

// ---------------------------------------------------------------------
// Response model.
// ---------------------------------------------------------------------

/// One entry of the response's result sequence. The embedding is
/// optional: a body that parses as JSON but carries no `embedding`
/// field in its first entry is a shape error, not a crash.
#[derive(Debug, Clone, PartialEq)]
pub struct ResultEntry {
    pub embedding: Option<Embedding>,
}

/// The parsed shape of a success response: `{"data":[...]}`. Only the
/// first result entry is consumed.
#[derive(Debug, Clone, PartialEq)]
pub struct ResponseBody {
    pub data: Vec<ResultEntry>,
}

/// The embedding a parsed body yields, when it yields one: the result
/// sequence is non-empty and its first entry carries an embedding.
pub open spec fn body_embedding(body: ResponseBody) -> Option<Seq<u32>> {
    if body.data@.len() > 0 {
        match body.data@[0].embedding {
            Some(e) => Some(e@),
            None => None,
        }
    } else {
        None
    }
}

/// Which shape error a parsed body without an embedding amounts to.
pub open spec fn body_shape_error(body: ResponseBody) -> ShapeKind
    recommends
        body_embedding(body) is None,
{
    if body.data@.len() == 0 {
        ShapeKind::EmptyData
    } else {
        ShapeKind::MissingEmbedding
    }
}

impl ResponseBody {
    /// Extracts the embedding of the first result entry, or says which
    /// shape error the body amounts to. An empty result sequence is an
    /// explicit error here, never an out-of-bounds access.
    pub fn into_first_embedding(self) -> (r: Result<Embedding, ShapeKind>)
        ensures
            match r {
                Ok(e) => body_embedding(self) == Some(e@),
                Err(k) => body_embedding(self) is None && k == body_shape_error(self),
            },
    {
        let mut data = self.data;
        if data.len() == 0 {
            Err(ShapeKind::EmptyData)
        } else {
            let first = data.remove(0);
            match first.embedding {
                Some(e) => Ok(e),
                None => Err(ShapeKind::MissingEmbedding),
            }
        }
    }
}

} // verus!
