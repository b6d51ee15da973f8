use tiktoken_ffi::boundary::{
    budget_sentinel, ffi_encode_with_special_tokens, ffi_get_bpe_from_model,
    ffi_get_chat_completion_max_tokens, ffi_get_completion_max_tokens, ffi_get_tokenizer,
    free_core_bpe, kind_sentinel, messages_or_empty, tokenize, NO_TOKENIZER,
};
use tiktoken_ffi::buffer::{export_encoding, export_tokens, free_tokens};
use tiktoken_ffi::handle::{HandleState, HandleTable, NULL_HANDLE};
use tiktoken_ffi::text::{c_str_prefix, text_from_c_bytes};

struct Tagged {
    tag: u32,
}

fn resolve(model: &str) -> Option<Tagged> {
    match model {
        "gpt-4" => Some(Tagged { tag: 1000 }),
        "gpt2" => Some(Tagged { tag: 2000 }),
        _ => None,
    }
}

fn encode(t: &Tagged, s: &str) -> Vec<u32> {
    s.chars().map(|c| c as u32 + t.tag).collect()
}

#[test]
fn text_stops_at_first_nul() {
    assert_eq!(text_from_c_bytes(b"abc\0def\0"), "abc");
    assert_eq!(c_str_prefix(b"ab\0c"), vec![b'a', b'b']);
}

#[test]
fn text_without_nul_is_taken_whole() {
    assert_eq!(text_from_c_bytes(b"hello"), "hello");
    assert_eq!(text_from_c_bytes(b""), "");
    assert_eq!(text_from_c_bytes(b"\0"), "");
}

#[test]
fn text_decodes_multibyte_utf8() {
    assert_eq!(text_from_c_bytes("h\u{e9}llo \u{1f600}\0".as_bytes()), "h\u{e9}llo \u{1f600}");
}

#[test]
fn invalid_utf8_degrades_to_empty_text() {
    assert_eq!(text_from_c_bytes(&[0x66, 0xff, 0x6f, 0x00]), "");
    assert_eq!(text_from_c_bytes(&[0xc3, 0x00]), "");
}

#[test]
fn invalid_utf8_is_encoded_as_empty_input() {
    let t = Tagged { tag: 0 };
    let out = tokenize(Some(&t), &[0xfe, 0xfe, 0x00], encode);
    assert!(out.buffer.is_some());
    assert_eq!(out.count, 0);
}

#[test]
fn whitespace_input_count_matches_buffer() {
    let t = Tagged { tag: 0 };
    let out = tokenize(Some(&t), b"  \t \0", encode);
    let b = out.buffer.unwrap();
    assert_eq!(out.count, 4);
    assert_eq!(b.as_slice().len(), 4);
    assert_eq!(b.as_slice(), &[32, 32, 9, 32]);
}

#[test]
fn export_casts_each_token_to_c_int() {
    let b = export_tokens(&[0, 7, 0x8000_0000, 0xffff_ffff]).unwrap();
    assert_eq!(b.as_slice(), &[0, 7, i32::MIN, -1]);
    assert_eq!(b.count(), 4);
    assert_eq!(b.into_vec(), vec![0, 7, i32::MIN, -1]);
}

#[test]
fn empty_encoding_gives_empty_buffer_not_sentinel() {
    let out = export_encoding(Some(Vec::new()));
    assert!(out.buffer.is_some());
    assert_eq!(out.count, 0);
    assert_eq!(free_tokens(out.buffer), 0);
}

#[test]
fn empty_text_gives_zero_count_buffer() {
    let t = Tagged { tag: 5 };
    let out = tokenize(Some(&t), b"\0", encode);
    assert!(out.buffer.is_some());
    assert_eq!(out.count, 0);
}

#[test]
fn nonempty_text_gives_nonzero_count() {
    let mut table: HandleTable<Tagged> = HandleTable::new();
    let h = ffi_get_bpe_from_model(&mut table, b"gpt-4\0", resolve);
    let out = ffi_encode_with_special_tokens(&table, h, b"Hello, world!\0", encode);
    assert_eq!(out.count, 13);
    assert_eq!(out.buffer.unwrap().as_slice()[0], 1000 + 'H' as i32);
}

#[test]
fn failed_encode_gives_sentinel() {
    let out = export_encoding(None);
    assert!(out.buffer.is_none());
    assert_eq!(out.count, 0);
}

#[test]
fn missing_default_tokenizer_gives_sentinel() {
    let out = tokenize(None::<&Tagged>, b"text\0", encode);
    assert!(out.buffer.is_none());
    assert_eq!(out.count, 0);
}

#[test]
fn free_tokens_reclaims_reported_count() {
    let out = export_encoding(Some(vec![1, 2, 3]));
    let count = out.count;
    assert_eq!(free_tokens(out.buffer), count as usize);
}

#[test]
fn free_tokens_of_null_is_noop() {
    assert_eq!(free_tokens(None), 0);
}

#[test]
fn budget_sentinel_values() {
    assert_eq!(budget_sentinel(None), 0);
    assert_eq!(budget_sentinel(Some(5)), 5);
    assert_eq!(budget_sentinel(Some(0x7fff_ffff)), i32::MAX);
    assert_eq!(budget_sentinel(Some(usize::MAX)), i32::MAX);
}

#[test]
fn kind_sentinel_values() {
    assert_eq!(kind_sentinel(None), -1);
    assert_eq!(kind_sentinel(Some(0)), 0);
    assert_eq!(kind_sentinel(Some(3)), 3);
    assert_eq!(NO_TOKENIZER, -1);
}

#[test]
fn unknown_model_gives_sentinels() {
    let mut table: HandleTable<Tagged> = HandleTable::new();
    assert_eq!(ffi_get_bpe_from_model(&mut table, b"nope\0", resolve), NULL_HANDLE);
    assert_eq!(table.state(1), HandleState::Unissued);
    assert_eq!(ffi_get_tokenizer(b"nope\0", |_m: &str| None), -1);
    let budget = |m: &str, _p: &str| if m == "gpt-4" { Some(10) } else { None };
    assert_eq!(ffi_get_completion_max_tokens(b"nope\0", b"x\0", budget), 0);
}

#[test]
fn unparsable_messages_count_as_none() {
    let parse = |j: &str| if j.starts_with('[') { Some(vec![j.len()]) } else { None };
    let budget = |_m: &str, l: &[usize]| Some(100 - l.len());
    assert_eq!(ffi_get_chat_completion_max_tokens(b"gpt-4\0", b"{oops\0", parse, budget), 100);
    assert_eq!(ffi_get_chat_completion_max_tokens(b"gpt-4\0", b"[1]\0", parse, budget), 99);
    assert_eq!(messages_or_empty::<u8>(None), Vec::<u8>::new());
    assert_eq!(messages_or_empty(Some(vec![1u8, 2])), vec![1u8, 2]);
}

#[test]
fn handle_life_cycle() {
    let mut table: HandleTable<Tagged> = HandleTable::new();
    assert_eq!(table.state(1), HandleState::Unissued);
    let h = table.create(Some(Tagged { tag: 1 }));
    assert_eq!(h, 1);
    assert_eq!(table.state(h), HandleState::Live);
    assert_eq!(table.get(h).map(|t| t.tag), Some(1));
    assert!(table.release(h));
    assert_eq!(table.state(h), HandleState::Released);
    assert!(table.get(h).is_none());
    assert!(!table.release(h));
}

#[test]
fn handles_are_never_reused() {
    let mut table: HandleTable<Tagged> = HandleTable::new();
    let a = table.create(Some(Tagged { tag: 1 }));
    assert!(table.release(a));
    let b = table.create(Some(Tagged { tag: 2 }));
    assert_eq!(b, 2);
    assert!(table.get(a).is_none());
    assert_eq!(table.get(b).map(|t| t.tag), Some(2));
}

#[test]
fn create_failure_returns_null_handle() {
    let mut table: HandleTable<Tagged> = HandleTable::new();
    assert_eq!(table.create(None), NULL_HANDLE);
    assert_eq!(table.state(NULL_HANDLE), HandleState::Unissued);
}

#[test]
fn create_then_release_leaves_nothing_live() {
    let mut table: HandleTable<Tagged> = HandleTable::new();
    for _ in 0..3 {
        let h = ffi_get_bpe_from_model(&mut table, b"gpt-4\0", resolve);
        assert!(free_core_bpe(&mut table, h));
    }
    for h in 1..=3 {
        assert!(table.get(h).is_none());
    }
}

#[test]
fn release_of_null_handle_is_noop() {
    let mut table: HandleTable<Tagged> = HandleTable::new();
    let h = table.create(Some(Tagged { tag: 1 }));
    assert!(!free_core_bpe(&mut table, NULL_HANDLE));
    assert_eq!(table.state(h), HandleState::Live);
}

#[test]
fn encode_with_stale_or_unknown_handle_gives_sentinel() {
    let mut table: HandleTable<Tagged> = HandleTable::new();
    let h = table.create(Some(Tagged { tag: 1 }));
    table.release(h);
    for bad in [NULL_HANDLE, h, 42] {
        let out = ffi_encode_with_special_tokens(&table, bad, b"abc\0", encode);
        assert!(out.buffer.is_none());
        assert_eq!(out.count, 0);
    }
}

#[test]
fn encode_with_other_model_handle_is_well_formed() {
    let mut table: HandleTable<Tagged> = HandleTable::new();
    let _a = ffi_get_bpe_from_model(&mut table, b"gpt-4\0", resolve);
    let b = ffi_get_bpe_from_model(&mut table, b"gpt2\0", resolve);
    let out = ffi_encode_with_special_tokens(&table, b, b"ab\0", encode);
    let buf = out.buffer.unwrap();
    assert_eq!(out.count as usize, buf.as_slice().len());
    assert_eq!(buf.as_slice(), &[2000 + 'a' as i32, 2000 + 'b' as i32]);
}

#[test]
fn repeated_encodes_on_one_handle_agree() {
    let mut table: HandleTable<Tagged> = HandleTable::new();
    let h = table.create(Some(Tagged { tag: 7 }));
    let first = ffi_encode_with_special_tokens(&table, h, b"same text\0", encode);
    let second = ffi_encode_with_special_tokens(&table, h, b"same text\0", encode);
    assert_eq!(first.count, second.count);
    assert_eq!(first.buffer.unwrap().as_slice(), second.buffer.unwrap().as_slice());
}
