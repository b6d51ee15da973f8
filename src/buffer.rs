//! Token buffers handed across the boundary: a sequence of C integers whose
//! reported count always equals the number of elements it holds.

use vstd::prelude::*;

verus! {

/// Largest count a C `int` can report.
pub const C_INT_MAX: usize = 0x7fff_ffff;

/// Token identifiers as the C side sees them: each one cast to a C `int`.
pub open spec fn as_c_ints(ids: Seq<u32>) -> Seq<i32> {
    ids.map_values(|t: u32| t as i32)
}

/// A buffer of token identifiers owned by whoever holds it. Its length always
/// fits a C `int`, so the count reported for it is exact.
pub struct TokenBuffer {
    tokens: Vec<i32>,
}

impl View for TokenBuffer {
    type V = Seq<i32>;

    closed spec fn view(&self) -> Seq<i32> {
        self.tokens@
    }
}

impl TokenBuffer {
    #[verifier::type_invariant]
    spec fn fits_c_int(&self) -> bool {
        self.tokens.len() <= C_INT_MAX
    }

    /// The number of tokens, as reported to the caller.
    pub fn count(&self) -> (r: i32)
        ensures
            r == self@.len(),
            r >= 0,
    {
        proof {
            use_type_invariant(self);
        }
        self.tokens.len() as i32
    }

    /// The tokens themselves.
    pub fn as_slice(&self) -> (r: &[i32])
        ensures
            r@ == self@,
    {
        self.tokens.as_slice()
    }

    /// Gives up the buffer, handing back exactly the allocation it held.
    pub fn into_vec(self) -> (r: Vec<i32>)
        ensures
            r@ == self@,
            r.len() <= C_INT_MAX,
    {
        proof {
            use_type_invariant(&self);
        }
        self.tokens
    }
}

/// Copies token identifiers into a buffer for the caller. Fails, allocating
/// nothing, when their number does not fit a C `int`.
pub fn export_tokens(ids: &[u32]) -> (r: Option<TokenBuffer>)
    ensures
        r is Some <==> ids@.len() <= C_INT_MAX,
        r matches Some(b) ==> b@ == as_c_ints(ids@),
{
    if ids.len() > C_INT_MAX {
        return None;
    }
    let mut tokens: Vec<i32> = Vec::with_capacity(ids.len());
    let mut i: usize = 0;
    while i < ids.len()
        invariant
            i <= ids@.len() <= C_INT_MAX,
            tokens@ == as_c_ints(ids@.take(i as int)),
        decreases ids.len() - i,
    {
        tokens.push(ids[i] as i32);
        i += 1;
        assert(tokens@ =~= as_c_ints(ids@.take(i as int)));
    }
    assert(ids@.take(ids@.len() as int) =~= ids@);
    Some(TokenBuffer { tokens })
}

/// What an encode operation hands the caller: a buffer, or none, and the count
/// written beside it.
pub struct EncodeOutput {
    pub buffer: Option<TokenBuffer>,
    pub count: i32,
}

impl EncodeOutput {
    /// The count matches the buffer: its length, or zero when there is no buffer.
    pub open spec fn paired(&self) -> bool {
        match self.buffer {
            Some(b) => self.count == b@.len(),
            None => self.count == 0,
        }
    }

    /// The failure sentinel: no buffer and a count of zero.
    pub open spec fn is_sentinel(&self) -> bool {
        self.buffer is None && self.count == 0
    }
}

/// `r` is what exporting the encode outcome `encoded` gives.
pub open spec fn exported(encoded: Option<Seq<u32>>, r: EncodeOutput) -> bool {
    &&& r.paired()
    &&& match encoded {
        None => r.is_sentinel(),
        Some(ids) => if ids.len() <= C_INT_MAX {
            r.buffer matches Some(b) && b@ == as_c_ints(ids) && r.count == ids.len()
        } else {
            r.is_sentinel()
        },
    }
}

/// The number of elements that releasing `buffer` reclaims.
pub open spec fn released_len(buffer: Option<TokenBuffer>) -> nat {
    match buffer {
        Some(b) => b@.len(),
        None => 0,
    }
}

/// Exports the outcome of an encode: the tokens, when there are some, become a
/// buffer with its count; a failed encode, or tokens too many to count in a
/// C `int`, become the sentinel. An empty encoding gives an empty buffer, not
/// the sentinel.
pub fn export_encoding(encoded: Option<Vec<u32>>) -> (r: EncodeOutput)
    ensures
        exported(
            match encoded {
                Some(ids) => Some(ids@),
                None => None,
            },
            r,
        ),
{
    match encoded {
        None => EncodeOutput { buffer: None, count: 0 },
        Some(ids) => match export_tokens(ids.as_slice()) {
            Some(b) => {
                let count = b.count();
                EncodeOutput { buffer: Some(b), count }
            },
            None => EncodeOutput { buffer: None, count: 0 },
        },
    }
}

/// Releases a buffer that an encode handed out, with the length it was made
/// with; returns that length. Releasing no buffer does nothing.
pub fn free_tokens(buffer: Option<TokenBuffer>) -> (released: usize)
    ensures
        released == released_len(buffer),
{
    match buffer {
        Some(b) => {
            let v = b.into_vec();
            v.len()
        },
        None => 0,
    }
}

/// A buffer that an encode handed out is released with exactly the count that
/// was reported beside it: releasing reclaims every element and no other.
pub proof fn lemma_release_matches_count(out: EncodeOutput)
    requires
        out.paired(),
    ensures
        released_len(out.buffer) == out.count,
{
}

/// Exporting adds nothing of its own: two exports of the same tokens report
/// the same count and hand out buffers with the same contents.
pub proof fn lemma_export_deterministic(
    ids: Seq<u32>,
    first: EncodeOutput,
    second: EncodeOutput,
)
    requires
        exported(Some(ids), first),
        exported(Some(ids), second),
    ensures
        first.count == second.count,
        first.buffer is Some <==> second.buffer is Some,
        first.buffer matches Some(a) ==> second.buffer matches Some(b) && a@ == b@,
{
}

} // verus!
