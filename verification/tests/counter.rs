use derived_authority::account::AccountView;
use derived_authority::codec::{decode_count, encode_count};
use derived_authority::counter::{apply, counter_entrypoint, CounterState};
use derived_authority::errors::ProgramError;

fn id_of(tag: u8) -> Vec<u8> {
    vec![tag; 32]
}

#[test]
fn apply_zero_becomes_one() {
    assert_eq!(apply(CounterState { count: 0 }), CounterState { count: 1 });
}

#[test]
fn apply_one_becomes_two() {
    assert_eq!(apply(CounterState { count: 1 }), CounterState { count: 2 });
}

#[test]
fn apply_doubles() {
    assert_eq!(apply(CounterState { count: 21 }), CounterState { count: 42 });
}

#[test]
fn apply_wraps_at_max() {
    let wrapped = u32::MAX.wrapping_mul(2);
    assert_eq!(apply(CounterState { count: u32::MAX }), CounterState { count: wrapped });
    assert_eq!(wrapped, 4294967294);
}

#[test]
fn encode_matches_borsh() {
    for n in [0u32, 1, 256, 65537, u32::MAX] {
        assert_eq!(encode_count(n), borsh::to_vec(&n).unwrap());
    }
}

#[test]
fn decode_matches_borsh() {
    let bytes = vec![0x2a, 0x01, 0x00, 0x80];
    let via_borsh: u32 = borsh::from_slice(&bytes).unwrap();
    assert_eq!(decode_count(&bytes), via_borsh);
}

#[test]
fn codec_round_trips() {
    for n in [0u32, 1, 2, 1023, u32::MAX] {
        assert_eq!(decode_count(&encode_count(n)), n);
    }
}

#[test]
fn counter_entrypoint_requires_signer() {
    let program = id_of(2);
    let mut account = AccountView {
        identity: id_of(5),
        owner: program.clone(),
        data: vec![1, 0, 0, 0],
        is_signer: false,
        is_writable: true,
    };
    let r = counter_entrypoint(&program, &mut account, &vec![]);
    assert_eq!(r, Err(ProgramError::MissingRequiredSignature));
    assert_eq!(account.data, vec![1, 0, 0, 0]);
}

#[test]
fn counter_entrypoint_rejects_short_data() {
    let program = id_of(2);
    let mut account = AccountView {
        identity: id_of(5),
        owner: program.clone(),
        data: vec![1, 0, 0],
        is_signer: true,
        is_writable: true,
    };
    let r = counter_entrypoint(&program, &mut account, &vec![]);
    assert_eq!(r, Err(ProgramError::InvalidAccountData));
    assert_eq!(account.data, vec![1, 0, 0]);
}

#[test]
fn counter_entrypoint_doubles() {
    let program = id_of(2);
    let mut account = AccountView {
        identity: id_of(5),
        owner: program.clone(),
        data: vec![3, 0, 0, 0],
        is_signer: true,
        is_writable: true,
    };
    let r = counter_entrypoint(&program, &mut account, &vec![]);
    assert_eq!(r, Ok(()));
    assert_eq!(account.data, vec![6, 0, 0, 0]);
}
