use cshell::hexcodec::HexError;
use cshell::numbers::{i64_to_decimal, parse_i64, parse_u32, parse_u64, u64_to_decimal, u64_zero_padded};
use cshell::refs::{parse_block_ref, parse_block_refs, parse_utxo_ref, parse_utxo_ref32, RefError};
use cshell::utils::{clip, drop_prefix, show_is_current, take_prefix, AdaFormat, Name, NameError};

#[test]
fn test_clip() {
    assert_eq!(clip("hello", 10), "hello");
    assert_eq!(clip("hello", 5), "hello");
    assert_eq!(clip("thisisalongstring", 10), "thi...ring");
    assert_eq!(clip("anotherlongstring", 11), "anot...ring");
    assert_eq!(clip("verylong", 3), "ver");
    assert_eq!(clip("short", 2), "sh");
    assert_eq!(clip("", 5), "");
}

#[test]
fn clip_keeps_head_and_tail_of_an_address() {
    let address = "addr_test1qz2fxv2umyhttkxyxp8x0dlpdt3k6cwng5pxj3jhsydzer3n0d3vllmyqwsx5wktcd8cc3sq835lu7drv2xwl2wywfgs68faae";
    let clipped = clip(address, 20);
    assert_eq!(clipped, "addr_tes...fgs68faae");
    assert_eq!(clipped.len(), 20);
}

#[test]
fn clip_with_zero_budget_is_empty() {
    assert_eq!(clip("abc", 0), "");
}

#[test]
fn prefixes_by_characters() {
    assert_eq!(take_prefix("héllo", 2), "hé");
    assert_eq!(drop_prefix("héllo", 2), "llo");
    assert_eq!(take_prefix("abc", 10), "abc");
    assert_eq!(drop_prefix("abc", 10), "");
}

#[test]
fn current_option_is_marked() {
    assert_eq!(show_is_current("mainnet", true), "mainnet (current)");
    assert_eq!(show_is_current("mainnet", false), "mainnet");
}

#[test]
fn empty_name_is_refused() {
    let err = Name::try_from("").unwrap_err();
    assert_eq!(err, NameError::Empty);
    assert_eq!(err.message(), "Value cannot be empty.");
}

#[test]
fn name_keeps_its_text_and_slugs() {
    let name = Name::try_from("My Wallet").unwrap();
    assert_eq!(name.as_str(), "My Wallet");
    assert_eq!(name.to_string(), "My Wallet");
    assert_eq!(name.normalized(), "my-wallet");
    assert!(name.is("My Wallet"));
    assert!(!name.is("my wallet"));
    let other = Name::try_from("My Wallet").unwrap();
    assert!(name.same(&other));
}

#[test]
fn slug_of_punctuated_name() {
    let name = Name::try_from("  Hello,   World!! ").unwrap();
    assert_eq!(name.normalized(), "hello-world");
}

#[test]
fn ada_format_groups_thousands_and_pads_decimals() {
    assert_eq!(1234567890u64.format_ada(), "1,234.567890");
    assert_eq!(0u64.format_ada(), "0.000000");
    assert_eq!(5u64.format_ada(), "0.000005");
    assert_eq!(1_000_000u64.format_ada(), "1.000000");
    assert_eq!(u64::MAX.format_ada(), "18,446,744,073,709.551615");
}

#[test]
fn decimals_of_integers() {
    assert_eq!(u64_to_decimal(0), "0");
    assert_eq!(u64_to_decimal(1234567890), "1234567890");
    assert_eq!(i64_to_decimal(-42), "-42");
    assert_eq!(i64_to_decimal(i64::MIN), "-9223372036854775808");
    assert_eq!(u64_zero_padded(42, 6), "000042");
    assert_eq!(u64_zero_padded(1234567, 6), "1234567");
}

#[test]
fn parsing_unsigned_integers() {
    assert_eq!(parse_u64("42"), Some(42));
    assert_eq!(parse_u64("+7"), Some(7));
    assert_eq!(parse_u64("18446744073709551615"), Some(u64::MAX));
    assert_eq!(parse_u64("18446744073709551616"), None);
    assert_eq!(parse_u64(""), None);
    assert_eq!(parse_u64("-1"), None);
    assert_eq!(parse_u64("1a"), None);
    assert_eq!(parse_u32("4294967295"), Some(u32::MAX));
    assert_eq!(parse_u32("4294967296"), None);
}

#[test]
fn parsing_signed_integers() {
    assert_eq!(parse_i64("-9223372036854775808"), Some(i64::MIN));
    assert_eq!(parse_i64("9223372036854775807"), Some(i64::MAX));
    assert_eq!(parse_i64("9223372036854775808"), None);
    assert_eq!(parse_i64("-"), None);
}

#[test]
fn block_reference_reads_hash_and_index() {
    let (hash, index) = parse_block_ref("00ff,42").unwrap();
    assert_eq!(hash, vec![0x00, 0xff]);
    assert_eq!(index, 42);
}

#[test]
fn block_reference_refusals() {
    assert_eq!(parse_block_ref("nocomma"), Err(RefError::InvalidFormat));
    assert_eq!(parse_block_ref("zz,42"), Err(RefError::InvalidHash(HexError::InvalidHexCharacter { c: 'z', index: 0 })));
    assert_eq!(parse_block_ref("abc,1"), Err(RefError::InvalidHash(HexError::OddLength)));
    assert_eq!(parse_block_ref("ab,99999999999999999999"), Err(RefError::InvalidIndex));
}

#[test]
fn block_references_stop_at_the_first_refusal() {
    let ok = parse_block_refs(&vec!["aa,1".to_string(), "bb,2".to_string()]).unwrap();
    assert_eq!(ok, vec![(vec![0xaa], 1), (vec![0xbb], 2)]);
    let err = parse_block_refs(&vec!["aa,1".to_string(), "bad".to_string(), "zz,3".to_string()]).unwrap_err();
    assert_eq!(err, (1, RefError::InvalidFormat));
}

#[test]
fn output_references() {
    assert_eq!(parse_utxo_ref("abcd#3"), Ok((vec![0xab, 0xcd], 3)));
    assert_eq!(parse_utxo_ref("abcd"), Err(RefError::InvalidFormat));
    assert_eq!(parse_utxo_ref("ab#1#2"), Err(RefError::InvalidFormat));
    assert_eq!(parse_utxo_ref("ab#x"), Err(RefError::InvalidIndex));
    assert_eq!(parse_utxo_ref32("abcd#3"), Ok((vec![0xab, 0xcd], 3)));
    assert_eq!(parse_utxo_ref32("ab#4294967296"), Err(RefError::InvalidIndex));
    assert_eq!(parse_utxo_ref32("ab#1#2"), Err(RefError::InvalidIndex));
}
