use init4_bin_base::utils::from_env::{Env, FromEnvErr, FromEnvVar};
use init4_bin_base::utils::primitives::{Address, Bytes, FixedBytes, HexError, UintError, U256};

#[test]
fn address_is_read_from_hex() {
    let mut env = Env::new();
    env.set("ADDR", "0x00000000000000000000000000000000000000ff");
    let mut expected = [0u8; 20];
    expected[19] = 0xff;
    assert_eq!(Address::from_env_var(&env, "ADDR"), Ok(Address(expected)));
    env.set("ADDR", "0x00");
    assert_eq!(
        Address::from_env_var(&env, "ADDR"),
        Err(FromEnvErr::ParseError(HexError::InvalidStringLength))
    );
    env.set("ADDR", "");
    assert_eq!(Address::from_env_var(&env, "ADDR"), Err(FromEnvErr::empty("ADDR")));
}

#[test]
fn bytes_are_read_from_hex() {
    assert_eq!(Bytes::parse("0x0102ff"), Ok(Bytes(vec![1, 2, 255])));
    assert_eq!(Bytes::parse("0102ff"), Ok(Bytes(vec![1, 2, 255])));
    assert_eq!(Bytes::parse("0x012"), Err(HexError::OddLength));
    assert_eq!(
        Bytes::parse("0x01zz"),
        Err(HexError::InvalidHexCharacter { c: 'z', index: 2 })
    );
    let mut env = Env::new();
    env.set("DATA", "0xdead");
    assert_eq!(Bytes::from_env_var(&env, "DATA"), Ok(Bytes(vec![0xde, 0xad])));
}

#[test]
fn fixed_bytes_are_read_from_hex() {
    assert_eq!(FixedBytes::<2>::parse("0xbeef"), Ok(FixedBytes([0xbe, 0xef])));
    assert_eq!(FixedBytes::<2>::parse("0xbe"), Err(HexError::InvalidStringLength));
    let mut env = Env::new();
    env.set("TAG", "beef");
    assert_eq!(FixedBytes::<2>::from_env_var(&env, "TAG"), Ok(FixedBytes([0xbe, 0xef])));
}

#[test]
fn u256_is_read_in_the_base_of_its_prefix() {
    assert_eq!(U256::parse("255"), Ok(U256([255, 0, 0, 0])));
    assert_eq!(U256::parse("0xff"), Ok(U256([255, 0, 0, 0])));
    assert_eq!(U256::parse("0b11"), Ok(U256([3, 0, 0, 0])));
    assert_eq!(U256::parse("18446744073709551616"), Ok(U256([0, 1, 0, 0])));
    assert_eq!(U256::parse("12a"), Err(UintError::InvalidDigit('a')));
    assert_eq!(
        U256::parse("0x10000000000000000000000000000000000000000000000000000000000000000"),
        Err(UintError::Overflow)
    );
    let mut env = Env::new();
    env.set("N", "7");
    assert_eq!(U256::from_env_var(&env, "N"), Ok(U256([7, 0, 0, 0])));
}
