//! The operations of the boundary. Each takes caller bytes, marshals them to
//! text, hands that text to the tokenizer (given as a function, since the
//! tokenizer itself lies outside this layer) and collapses the outcome into the
//! plain values and sentinels that a C caller can check.

use vstd::prelude::*;
use crate::buffer::{export_encoding, exported, EncodeOutput, C_INT_MAX};
use crate::handle::{HandleTable, NULL_HANDLE};
use crate::text::{marshalled, text_from_c_bytes};

verus! {

/// Sentinel of the tokenizer-kind lookup when the model has no tokenizer.
pub const NO_TOKENIZER: i32 = -1;

/// A token budget as reported to the caller: the count itself, held at the
/// largest C `int` when larger, or zero when the budget could not be computed.
pub open spec fn budget_value(budget: Option<usize>) -> i32 {
    match budget {
        Some(n) => if n <= C_INT_MAX {
            n as i32
        } else {
            C_INT_MAX as i32
        },
        None => 0,
    }
}

/// A tokenizer kind as reported to the caller: its tag, or -1 when there is none.
pub open spec fn kind_value(kind: Option<u8>) -> i32 {
    match kind {
        Some(k) => k as i32,
        None => NO_TOKENIZER,
    }
}

/// Collapses a computed token budget into a non-negative C `int`; failure gives 0.
pub fn budget_sentinel(budget: Option<usize>) -> (r: i32)
    ensures
        r == budget_value(budget),
        r >= 0,
{
    match budget {
        Some(n) => if n <= C_INT_MAX {
            n as i32
        } else {
            C_INT_MAX as i32
        },
        None => 0,
    }
}

/// Collapses a tokenizer-kind lookup into a C `int`; no kind gives -1.
pub fn kind_sentinel(kind: Option<u8>) -> (r: i32)
    ensures
        r == kind_value(kind),
        r >= NO_TOKENIZER,
{
    match kind {
        Some(k) => k as i32,
        None => NO_TOKENIZER,
    }
}

/// The messages the budget is computed over: the parsed list, or no messages
/// when the text did not parse.
pub fn messages_or_empty<M>(parsed: Option<Vec<M>>) -> (r: Vec<M>)
    ensures
        r@ == match parsed {
            Some(v) => v@,
            None => Seq::<M>::empty(),
        },
{
    match parsed {
        Some(v) => v,
        None => Vec::new(),
    }
}

/// Largest number of tokens a completion may use for `prompt` under `model`,
/// as computed by `budget`; 0 when it fails.
pub fn ffi_get_completion_max_tokens<F>(model: &[u8], prompt: &[u8], budget: F) -> (r: i32)
    where
        F: Fn(&str, &str) -> Option<usize>,
    requires
        forall|m: &str, p: &str| budget.requires((m, p)),
    ensures
        exists|m: &str, p: &str, b: Option<usize>|
            #![trigger budget.ensures((m, p), b)]
            m@ == marshalled(model@) && p@ == marshalled(prompt@) && budget.ensures((m, p), b)
                && r == budget_value(b),
        r >= 0,
{
    let m = text_from_c_bytes(model);
    let p = text_from_c_bytes(prompt);
    let b = budget(m.as_str(), p.as_str());
    budget_sentinel(b)
}

/// Largest number of tokens a chat completion may use for `messages` (a JSON
/// list, read by `parse`) under `model`, as computed by `budget`; 0 when it
/// fails. Messages that do not parse count as no messages.
pub fn ffi_get_chat_completion_max_tokens<M, P, B>(
    model: &[u8],
    messages: &[u8],
    parse: P,
    budget: B,
) -> (r: i32)
    where
        P: Fn(&str) -> Option<Vec<M>>,
        B: Fn(&str, &[M]) -> Option<usize>,
    requires
        forall|j: &str| parse.requires((j,)),
        forall|m: &str, l: &[M]| budget.requires((m, l)),
    ensures
        exists|m: &str, j: &str, parsed: Option<Vec<M>>, l: &[M], b: Option<usize>|
            #![trigger parse.ensures((j,), parsed), budget.ensures((m, l), b)]
            {
                &&& m@ == marshalled(model@)
                &&& j@ == marshalled(messages@)
                &&& parse.ensures((j,), parsed)
                &&& l@ == match parsed {
                    Some(v) => v@,
                    None => Seq::<M>::empty(),
                }
                &&& budget.ensures((m, l), b)
                &&& r == budget_value(b)
            },
        r >= 0,
{
    let m = text_from_c_bytes(model);
    let j = text_from_c_bytes(messages);
    let parsed = parse(j.as_str());
    let list = messages_or_empty(parsed);
    let b = budget(m.as_str(), list.as_slice());
    budget_sentinel(b)
}

/// Resolves `model` with `resolve` and issues a handle for the instance; the
/// null handle when the model does not resolve.
pub fn ffi_get_bpe_from_model<T, F>(table: &mut HandleTable<T>, model: &[u8], resolve: F) -> (h: u64)
    where
        F: Fn(&str) -> Option<T>,
    requires
        forall|m: &str| resolve.requires((m,)),
    ensures
        exists|m: &str, t: Option<T>|
            #![trigger resolve.ensures((m,), t)]
            m@ == marshalled(model@) && resolve.ensures((m,), t)
                && HandleTable::created(*old(table), *final(table), t, h),
{
    let m = text_from_c_bytes(model);
    let t = resolve(m.as_str());
    table.create(t)
}

/// The tag of the tokenizer that `kind` gives for `model_name`; -1 when none.
pub fn ffi_get_tokenizer<F>(model_name: &[u8], kind: F) -> (r: i32)
    where
        F: Fn(&str) -> Option<u8>,
    requires
        forall|m: &str| kind.requires((m,)),
    ensures
        exists|m: &str, k: Option<u8>|
            #![trigger kind.ensures((m,), k)]
            m@ == marshalled(model_name@) && kind.ensures((m,), k) && r == kind_value(k),
        r >= NO_TOKENIZER,
{
    let m = text_from_c_bytes(model_name);
    let k = kind(m.as_str());
    kind_sentinel(k)
}

/// Encodes the text of `input` with `tokenizer` when there is one, and exports
/// the tokens; the sentinel when there is no tokenizer.
fn encode_text<T, F>(tokenizer: Option<&T>, input: &[u8], encode: F) -> (r: EncodeOutput)
    where
        F: Fn(&T, &str) -> Vec<u32>,
    requires
        forall|t: &T, s: &str| encode.requires((t, s)),
    ensures
        r.paired(),
        tokenizer is None ==> r.is_sentinel(),
        tokenizer matches Some(t) ==> exists|s: &str, ids: Vec<u32>|
            #![trigger encode.ensures((t, s), ids)]
            s@ == marshalled(input@) && encode.ensures((t, s), ids) && exported(Some(ids@), r),
{
    match tokenizer {
        None => EncodeOutput { buffer: None, count: 0 },
        Some(t) => {
            let s = text_from_c_bytes(input);
            let ids = encode(t, s.as_str());
            let ghost ids_view = ids@;
            let r = export_encoding(Some(ids));
            assert(exported(Some(ids_view), r));
            r
        },
    }
}

/// Encodes `input` with the default tokenizer, given as `default` (none when it
/// could not be built). The count always matches the buffer; without a
/// tokenizer the result is the sentinel, and empty text gives an empty buffer.
pub fn tokenize<T, F>(default: Option<&T>, input: &[u8], encode: F) -> (r: EncodeOutput)
    where
        F: Fn(&T, &str) -> Vec<u32>,
    requires
        forall|t: &T, s: &str| encode.requires((t, s)),
    ensures
        r.paired(),
        default is None ==> r.is_sentinel(),
        default matches Some(t) ==> exists|s: &str, ids: Vec<u32>|
            #![trigger encode.ensures((t, s), ids)]
            s@ == marshalled(input@) && encode.ensures((t, s), ids) && exported(Some(ids@), r),
{
    encode_text(default, input, encode)
}

/// Encodes `input`, special tokens allowed, with the instance that handle `h`
/// names. The count always matches the buffer, whatever the handle; the null
/// handle, a released one or one never issued gives the sentinel.
pub fn ffi_encode_with_special_tokens<T, F>(
    table: &HandleTable<T>,
    h: u64,
    input: &[u8],
    encode: F,
) -> (r: EncodeOutput)
    where
        F: Fn(&T, &str) -> Vec<u32>,
    requires
        forall|t: &T, s: &str| encode.requires((t, s)),
    ensures
        r.paired(),
        !table.live().contains_key(h) ==> r.is_sentinel(),
        table.live().contains_key(h) ==> exists|s: &str, ids: Vec<u32>|
            #![trigger encode.ensures((&table.live()[h], s), ids)]
            s@ == marshalled(input@) && encode.ensures((&table.live()[h], s), ids)
                && exported(Some(ids@), r),
{
    encode_text(table.get(h), input, encode)
}

/// Releases the instance that handle `h` names and reports whether there was
/// one; the null handle, a released one or one never issued changes nothing.
pub fn free_core_bpe<T>(table: &mut HandleTable<T>, h: u64) -> (released: bool)
    ensures
        released == old(table).live().contains_key(h),
        final(table).live() == old(table).live().remove(h),
        final(table).issued() == old(table).issued(),
        h == NULL_HANDLE ==> !released,
{
    table.release(h)
}

} // verus!
