use multisig::address::Address;
use multisig::arg_loader_cd::{loaded_arg, CallDataArgLoader};
use multisig::async_call::{AsyncCall, AsyncCallArg, CallbackCall, ESDT_TRANSFER_STRING};
use multisig::call_data::{decode_argument, CallDataDeserializer};
use multisig::codec::{
    decode_from_byte_slice, extend_bytes, from_bytes_be, to_bytes_be, BigUintApi, Decode,
    DecodeError,
};
use multisig::err_msg;
use multisig::hex_call_data::{byte_to_hex, HexCallDataSerializer, SEPARATOR};
use multisig::sc_error::SCError;
use multisig::token_identifier::{bytes_equal, TokenIdentifier, EGLD_REPRESENTATION};
use multisig::users::UserRegistry;

fn addr(n: u8) -> Address {
    Address::new([n; 32])
}

fn message(e: &SCError) -> Vec<u8> {
    e.as_bytes().to_vec()
}

#[test]
fn address_equality_goes_by_bytes() {
    let mut bytes = [7u8; 32];
    assert!(Address::new(bytes) == addr(7));
    bytes[31] = 8;
    assert!(Address::new(bytes) != addr(7));
    bytes[31] = 7;
    bytes[0] = 0;
    assert!(Address::new(bytes) != addr(7));
    assert!(Address::zero() == addr(0));
}

#[test]
fn address_from_slice_wants_32_bytes() {
    assert_eq!(Address::from_slice(&[3u8; 32]).map(|a| a == addr(3)), Some(true));
    assert!(Address::from_slice(&[3u8; 31]).is_none());
    assert!(Address::from_slice(&[3u8; 33]).is_none());
    assert!(Address::from_slice(&[]).is_none());
    let mut bytes = [0u8; 32];
    for i in 0..32 {
        bytes[i] = i as u8;
    }
    assert_eq!(Address::from_slice(&bytes).unwrap().to_vec(), bytes.to_vec());
}

#[test]
fn registry_hands_out_ids_in_order() {
    let mut users = UserRegistry::new();
    assert_eq!(users.get_num_users(), 0);
    assert_eq!(users.get_user_id(&addr(1)), 0);
    assert_eq!(users.get_or_create_user(&addr(1)), 1);
    assert_eq!(users.get_or_create_user(&addr(2)), 2);
    assert_eq!(users.get_or_create_user(&addr(1)), 1);
    assert_eq!(users.get_num_users(), 2);
    assert_eq!(users.get_user_id(&addr(2)), 2);
    assert_eq!(users.get_user_id(&addr(3)), 0);
    assert!(users.get_user_address(1).unwrap() == addr(1));
    assert!(users.get_user_address(2).unwrap() == addr(2));
    assert!(users.get_user_address(0).is_none());
    assert!(users.get_user_address(3).is_none());
}

#[test]
fn registry_from_addresses_finds_the_later_entry() {
    let users = UserRegistry::from_addresses(vec![addr(5), addr(6), addr(5)]);
    assert_eq!(users.get_num_users(), 3);
    assert_eq!(users.get_user_id(&addr(5)), 3);
    assert_eq!(users.get_user_id(&addr(6)), 2);
    assert!(users.get_user_address(1).unwrap() == addr(5));
}

#[test]
fn hex_digits_are_lowercase() {
    assert_eq!(byte_to_hex(0x00), (b'0', b'0'));
    assert_eq!(byte_to_hex(0x09), (b'0', b'9'));
    assert_eq!(byte_to_hex(0x0a), (b'0', b'a'));
    assert_eq!(byte_to_hex(0xa0), (b'a', b'0'));
    assert_eq!(byte_to_hex(0xff), (b'f', b'f'));
    assert_eq!(byte_to_hex(0x5c), (b'5', b'c'));
    assert_eq!(SEPARATOR, b'@');
}

#[test]
fn serializer_writes_name_and_arguments() {
    let mut ser = HexCallDataSerializer::new(b"transfer");
    assert_eq!(ser.as_slice(), b"transfer");
    ser.push_argument_bytes(&[0x01, 0xab]);
    assert_eq!(ser.as_slice(), b"transfer@01ab");
    ser.push_argument_bytes(&[]);
    assert_eq!(ser.as_slice(), b"transfer@01ab@");
    ser.push_argument_bytes(&[0xff]);
    assert_eq!(ser.into_vec(), b"transfer@01ab@@ff".to_vec());
}

#[test]
fn decode_argument_reads_pairs_of_digits() {
    assert_eq!(decode_argument(b"").unwrap(), Vec::<u8>::new());
    assert_eq!(decode_argument(b"00").unwrap(), vec![0]);
    assert_eq!(decode_argument(b"0a1b").unwrap(), vec![0x0a, 0x1b]);
    assert_eq!(decode_argument(b"ff9f").unwrap(), vec![0xff, 0x9f]);
}

#[test]
fn decode_argument_refuses_odd_and_foreign_digits() {
    let odd = decode_argument(b"abc").unwrap_err();
    assert_eq!(message(&odd), err_msg::DESERIALIZATION_ODD_DIGITS.as_bytes());
    assert_eq!(
        message(&odd),
        b"call data deserialization error: odd number of digits in hex representation".to_vec()
    );
    // odd length is reported before any digit is looked at
    let odd = decode_argument(b"zzz").unwrap_err();
    assert_eq!(message(&odd), err_msg::DESERIALIZATION_ODD_DIGITS.as_bytes());
    let bad = decode_argument(b"0g").unwrap_err();
    assert_eq!(message(&bad), b"call data deserialization error: not a valid byte".to_vec());
    let capital = decode_argument(b"0A").unwrap_err();
    assert_eq!(message(&capital), err_msg::DESERIALIZATION_INVALID_BYTE.as_bytes());
    let low = decode_argument(b"/0").unwrap_err();
    assert_eq!(message(&low), err_msg::DESERIALIZATION_INVALID_BYTE.as_bytes());
    let between = decode_argument(b"0:").unwrap_err();
    assert_eq!(message(&between), err_msg::DESERIALIZATION_INVALID_BYTE.as_bytes());
}

#[test]
fn deserializer_walks_the_components() {
    let mut de = CallDataDeserializer::new(b"func@1111@2222");
    assert_eq!(de.get_func_name(), b"func");
    assert!(de.has_next());
    assert_eq!(de.next_argument().unwrap(), Some(vec![0x11, 0x11]));
    assert!(de.has_next());
    assert_eq!(de.next_argument().unwrap(), Some(vec![0x22, 0x22]));
    assert!(!de.has_next());
    assert_eq!(de.next_argument().unwrap(), None);
    assert_eq!(de.next_argument().unwrap(), None);
    assert_eq!(de.get_func_name(), b"func");
}

#[test]
fn deserializer_without_arguments() {
    let mut de = CallDataDeserializer::new(b"func");
    assert_eq!(de.get_func_name(), b"func");
    assert!(!de.has_next());
    assert_eq!(de.next_argument().unwrap(), None);
    let mut empty = CallDataDeserializer::new(b"");
    assert_eq!(empty.get_func_name(), b"");
    assert!(!empty.has_next());
    assert_eq!(empty.next_argument().unwrap(), None);
}

#[test]
fn deserializer_reads_empty_arguments() {
    let mut de = CallDataDeserializer::new(b"func@@2222@");
    assert_eq!(de.next_argument().unwrap(), Some(vec![]));
    assert_eq!(de.next_argument().unwrap(), Some(vec![0x22, 0x22]));
    assert!(de.has_next());
    assert_eq!(de.next_argument().unwrap(), Some(vec![]));
    assert!(!de.has_next());
    assert_eq!(de.next_argument().unwrap(), None);
    let mut only = CallDataDeserializer::new(b"@");
    assert_eq!(only.get_func_name(), b"");
    assert_eq!(only.next_argument().unwrap(), Some(vec![]));
    assert_eq!(only.next_argument().unwrap(), None);
}

#[test]
fn deserializer_moves_past_a_bad_argument() {
    let mut de = CallDataDeserializer::new(b"func@123@zz@0f");
    let e = de.next_argument().unwrap_err();
    assert_eq!(message(&e), err_msg::DESERIALIZATION_ODD_DIGITS.as_bytes());
    let e = de.next_argument().unwrap_err();
    assert_eq!(message(&e), err_msg::DESERIALIZATION_INVALID_BYTE.as_bytes());
    assert_eq!(de.next_argument().unwrap(), Some(vec![0x0f]));
    assert_eq!(de.next_argument().unwrap(), None);
}

#[test]
fn what_the_serializer_writes_the_deserializer_reads() {
    let mut ser = HexCallDataSerializer::new(b"endpoint");
    let all: Vec<u8> = (0..=255u8).collect();
    ser.push_argument_bytes(&all);
    ser.push_argument_bytes(&[]);
    ser.push_argument_bytes(&[0, 0, 1]);
    let data = ser.into_vec();
    let mut de = CallDataDeserializer::new(&data);
    assert_eq!(de.get_func_name(), b"endpoint");
    assert_eq!(de.next_argument().unwrap(), Some(all));
    assert_eq!(de.next_argument().unwrap(), Some(vec![]));
    assert_eq!(de.next_argument().unwrap(), Some(vec![0, 0, 1]));
    assert_eq!(de.next_argument().unwrap(), None);
}

#[test]
fn numbers_as_shortest_big_endian_bytes() {
    assert_eq!(to_bytes_be(0), Vec::<u8>::new());
    assert_eq!(to_bytes_be(1), vec![1]);
    assert_eq!(to_bytes_be(255), vec![255]);
    assert_eq!(to_bytes_be(256), vec![1, 0]);
    assert_eq!(to_bytes_be(0x0102_0304), vec![1, 2, 3, 4]);
    assert_eq!(to_bytes_be(u128::MAX), vec![0xff; 16]);
    assert_eq!(1000u64.to_bytes_be(), vec![0x03, 0xe8]);
    assert_eq!(1000u128.to_bytes_be(), vec![0x03, 0xe8]);
    assert_eq!(<u64 as BigUintApi>::zero(), 0);
    assert_eq!(<u128 as BigUintApi>::zero().to_bytes_be(), Vec::<u8>::new());
}

#[test]
fn numbers_from_big_endian_bytes() {
    assert_eq!(from_bytes_be(&[], 10), Ok(0));
    assert_eq!(from_bytes_be(&[0, 0, 7], 10), Ok(7));
    assert_eq!(from_bytes_be(&[10], 10), Ok(10));
    assert_eq!(from_bytes_be(&[11], 10), Err(DecodeError::InputTooLong));
    assert_eq!(from_bytes_be(&[1, 0], 255), Err(DecodeError::InputTooLong));
    assert_eq!(from_bytes_be(&[1, 0], 256), Ok(256));
    assert_eq!(from_bytes_be(&[0xff; 16], u128::MAX), Ok(u128::MAX));
    assert_eq!(from_bytes_be(&[1; 17], u128::MAX), Err(DecodeError::InputTooLong));
    assert_eq!(from_bytes_be(&[5], 0), Err(DecodeError::InputTooLong));
    assert_eq!(from_bytes_be(&[0], 0), Ok(0));
}

#[test]
fn values_are_decoded_by_type() {
    assert_eq!(decode_from_byte_slice::<u64>(&[1, 2]), Ok(258));
    assert_eq!(u64::top_decode(&[0xff; 8]), Ok(u64::MAX));
    assert_eq!(u64::top_decode(&[1, 0, 0, 0, 0, 0, 0, 0, 0]), Err(DecodeError::InputTooLong));
    assert_eq!(u128::top_decode(&[0xff; 16]), Ok(u128::MAX));
    assert_eq!(u128::top_decode(&[1; 17]), Err(DecodeError::InputTooLong));
    assert_eq!(usize::top_decode(&[]), Ok(0));
    assert_eq!(usize::top_decode(&[2, 1]), Ok(513));
    assert_eq!(usize::top_decode(&[1; 17]), Err(DecodeError::InputTooLong));
    assert!(Address::top_decode(&[9; 32]).unwrap() == addr(9));
    assert_eq!(Address::top_decode(&[9; 31]).unwrap_err(), DecodeError::InputTooShort);
    assert_eq!(Address::top_decode(&[9; 33]).unwrap_err(), DecodeError::InputTooLong);
    assert_eq!(DecodeError::InputTooShort.message_bytes(), b"input too short");
    assert_eq!(DecodeError::InputTooLong.message_bytes(), b"input too long");
}

#[test]
fn extend_bytes_appends() {
    let mut v = vec![1u8, 2];
    extend_bytes(&mut v, &[3, 4]);
    extend_bytes(&mut v, &[]);
    assert_eq!(v, vec![1, 2, 3, 4]);
}

#[test]
fn loaded_arg_names_the_decode_error() {
    assert_eq!(loaded_arg(Ok::<u64, DecodeError>(5)).unwrap(), Some(5));
    let e = loaded_arg::<u64>(Err(DecodeError::InputTooLong)).unwrap_err();
    assert!(matches!(e, SCError::Dynamic(_)));
    assert_eq!(message(&e), b"argument decode error: input too long".to_vec());
    let e = loaded_arg::<Address>(Err(DecodeError::InputTooShort)).unwrap_err();
    assert_eq!(message(&e), b"argument decode error: input too short".to_vec());
}

#[test]
fn loader_gives_values_of_the_type_asked_for() {
    let mut data = b"proposeSendEgld@".to_vec();
    for _ in 0..32 {
        data.extend_from_slice(b"07");
    }
    data.extend_from_slice(b"@03e8@");
    let mut loader = CallDataArgLoader::new(CallDataDeserializer::new(&data));
    assert!(loader.has_next());
    assert!(loader.next_arg::<Address>().unwrap().unwrap() == addr(7));
    assert_eq!(loader.next_arg::<u64>().unwrap(), Some(1000));
    assert!(loader.has_next());
    assert_eq!(loader.next_arg::<usize>().unwrap(), Some(0));
    assert!(!loader.has_next());
    assert_eq!(loader.next_arg::<u64>().unwrap(), None);
}

#[test]
fn loader_reports_what_went_wrong() {
    let mut loader = CallDataArgLoader::new(CallDataDeserializer::new(b"f@0102@abc@zz@01"));
    let e = loader.next_arg::<Address>().unwrap_err();
    assert_eq!(message(&e), b"argument decode error: input too short".to_vec());
    let e = loader.next_arg::<u64>().unwrap_err();
    assert!(matches!(e, SCError::Static(_)));
    assert_eq!(message(&e), err_msg::DESERIALIZATION_ODD_DIGITS.as_bytes());
    let e = loader.next_arg::<u64>().unwrap_err();
    assert_eq!(message(&e), err_msg::DESERIALIZATION_INVALID_BYTE.as_bytes());
    assert_eq!(loader.next_arg::<u64>().unwrap(), Some(1));
    assert_eq!(loader.next_arg::<u64>().unwrap(), None);
    let mut long = CallDataArgLoader::new(CallDataDeserializer::new(b"f@010000000000000000"));
    let e = long.next_arg::<u64>().unwrap_err();
    assert_eq!(message(&e), b"argument decode error: input too long".to_vec());
}

#[test]
fn token_identifier_knows_the_native_currency() {
    assert!(TokenIdentifier::egld().is_egld());
    assert!(!TokenIdentifier::egld().is_esdt());
    assert_eq!(TokenIdentifier::egld().as_slice(), b"");
    assert_eq!(TokenIdentifier::egld().as_name(), b"EGLD");
    assert_eq!(EGLD_REPRESENTATION, "EGLD");
    let named = TokenIdentifier::from_name(b"EGLD".to_vec());
    assert!(named.is_egld());
    assert_eq!(named.as_slice(), b"");
    let token = TokenIdentifier::from_name(b"TKN-123456".to_vec());
    assert!(token.is_esdt());
    assert!(!token.is_egld());
    assert_eq!(token.as_slice(), b"TKN-123456");
    assert_eq!(token.as_name(), b"TKN-123456");
    assert!(TokenIdentifier::from_name(b"EGLDX".to_vec()).is_esdt());
    assert!(TokenIdentifier::from_name(b"egld".to_vec()).is_esdt());
    assert!(TokenIdentifier::from_name(Vec::new()).is_egld());
}

#[test]
fn bytes_equal_compares_length_and_content() {
    assert!(bytes_equal(b"", b""));
    assert!(bytes_equal(b"abc", b"abc"));
    assert!(!bytes_equal(b"abc", b"abd"));
    assert!(!bytes_equal(b"abc", b"ab"));
    assert!(!bytes_equal(b"ab", b"abc"));
}

#[test]
fn async_call_in_native_currency() {
    let call = AsyncCall::new_egld(addr(3), 77u64, b"deposit");
    assert!(*call.to() == addr(3));
    assert_eq!(*call.egld_payment(), 77);
    assert_eq!(call.hex_data.as_slice(), b"deposit");
    assert_eq!(call.callback_data(), b"");
    let plain = AsyncCall::new_egld(addr(3), 0u64, b"");
    assert_eq!(plain.hex_data.as_slice(), b"");
}

#[test]
fn async_call_in_another_token() {
    let call = AsyncCall::new_esdt(addr(3), b"TKN", &1000u64, b"pay");
    assert!(*call.to() == addr(3));
    assert_eq!(*call.egld_payment(), 0);
    assert_eq!(call.hex_data.as_slice(), b"ESDTTransfer@544b4e@03e8@706179");
    assert_eq!(call.callback_data(), b"");
    assert_eq!(ESDT_TRANSFER_STRING, "ESDTTransfer");
    let nothing = AsyncCall::new_esdt(addr(3), b"TKN", &0u128, b"");
    assert_eq!(nothing.hex_data.as_slice(), b"ESDTTransfer@544b4e@@");
}

#[test]
fn async_call_picks_by_token() {
    let egld = AsyncCall::new(addr(1), TokenIdentifier::egld(), 5u64, b"go");
    assert_eq!(*egld.egld_payment(), 5);
    assert_eq!(egld.hex_data.as_slice(), b"go");
    let named = AsyncCall::new(addr(1), TokenIdentifier::from_name(b"EGLD".to_vec()), 5u64, b"go");
    assert_eq!(*named.egld_payment(), 5);
    assert_eq!(named.hex_data.as_slice(), b"go");
    let esdt = AsyncCall::new(addr(1), TokenIdentifier::from_name(b"AB".to_vec()), 5u64, b"go");
    assert_eq!(*esdt.egld_payment(), 0);
    assert_eq!(esdt.hex_data.as_slice(), b"ESDTTransfer@4142@05@676f");
    assert!(*esdt.to() == addr(1));
}

#[test]
fn async_call_with_callback_and_arguments() {
    let mut callback = CallbackCall::new(b"done");
    callback.push_argument_raw_bytes(&[0x10]);
    assert_eq!(callback.closure_data.as_slice(), b"done@10");
    let mut call = AsyncCall::new_egld(addr(3), 1u64, b"f").with_callback(callback);
    assert_eq!(call.callback_data(), b"done@10");
    assert_eq!(call.hex_data.as_slice(), b"f");
    assert_eq!(*call.egld_payment(), 1);
    call.push_argument_raw_bytes(&[0xde, 0xad]);
    assert_eq!(call.hex_data.as_slice(), b"f@dead");
    call.push_callback_argument_raw_bytes(&[0x01]);
    assert_eq!(call.hex_data.as_slice(), b"f@dead@01");
    assert_eq!(call.callback_data(), b"done@10");
    assert!(*call.to() == addr(3));
}

#[test]
fn async_call_arguments_by_value() {
    let mut call = AsyncCall::new_egld(addr(3), 1u64, b"f");
    assert!(call.push_argument_or_exit(258u64).is_ok());
    assert!(call.push_argument_or_exit(0usize).is_ok());
    assert!(call.push_argument_or_exit(vec![0xaau8, 0xbb]).is_ok());
    assert!(call.push_argument_or_exit(1u128 << 64).is_ok());
    assert_eq!(call.hex_data.as_slice(), b"f@0102@@aabb@010000000000000000");
    let mut with_address = AsyncCall::new_egld(addr(3), 1u64, b"g");
    assert!(with_address.push_argument_or_exit(addr(0xab)).is_ok());
    let mut expected = b"g@".to_vec();
    for _ in 0..32 {
        expected.extend_from_slice(b"ab");
    }
    assert_eq!(with_address.hex_data.as_slice(), expected.as_slice());
    assert_eq!(with_address.callback_data(), b"");
}

#[test]
fn push_async_arg_writes_one_argument() {
    let mut ser = HexCallDataSerializer::new(b"x");
    assert!(7u64.push_async_arg(&mut ser).is_ok());
    assert!(addr(0).push_async_arg(&mut ser).is_ok());
    let mut expected = b"x@07@".to_vec();
    expected.extend_from_slice(&[b'0'; 64]);
    assert_eq!(ser.as_slice(), expected.as_slice());
}
