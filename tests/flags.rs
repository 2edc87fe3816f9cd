use rust8080::{check_flag_ac, check_flag_cy, check_flag_p, check_flag_s, check_flag_z};
use rust8080::FlagType::{AC, CY, P, S, Z};
use rust8080::{join_bytes, split_bytes, Flag, FlagType, State};

#[test]
fn z() {
    let mut flag = Flag::new();

    assert_eq!(flag.get(Z), 0);
    assert_eq!(flag.get(S), 0);
    assert_eq!(flag.get(P), 0);
    assert_eq!(flag.get(CY), 0);
    assert_eq!(flag.get(AC), 0);

    flag.set(Z);
    assert_eq!(flag.get(Z), 1);
    assert_eq!(flag.get(S), 0);
    assert_eq!(flag.get(P), 0);
    assert_eq!(flag.get(CY), 0);
    assert_eq!(flag.get(AC), 0);
    flag.unset(Z);

    flag.set(S);
    assert_eq!(flag.get(Z), 0);
    assert_eq!(flag.get(S), 1);
    assert_eq!(flag.get(P), 0);
    assert_eq!(flag.get(CY), 0);
    assert_eq!(flag.get(AC), 0);
    flag.unset(S);

    flag.set(P);
    assert_eq!(flag.get(Z), 0);
    assert_eq!(flag.get(S), 0);
    assert_eq!(flag.get(P), 1);
    assert_eq!(flag.get(CY), 0);
    assert_eq!(flag.get(AC), 0);
    flag.unset(P);

    flag.set(CY);
    assert_eq!(flag.get(Z), 0);
    assert_eq!(flag.get(S), 0);
    assert_eq!(flag.get(P), 0);
    assert_eq!(flag.get(CY), 1);
    assert_eq!(flag.get(AC), 0);
    flag.unset(CY);

    flag.set(AC);
    assert_eq!(flag.get(Z), 0);
    assert_eq!(flag.get(S), 0);
    assert_eq!(flag.get(P), 0);
    assert_eq!(flag.get(CY), 0);
    assert_eq!(flag.get(AC), 1);
    flag.unset(AC);

    assert_eq!(flag.get(Z), 0);
    assert_eq!(flag.get(S), 0);
    assert_eq!(flag.get(P), 0);
    assert_eq!(flag.get(CY), 0);
    assert_eq!(flag.get(AC), 0);
}

#[test]
fn flag_bits_in_register() {
    let mut flag = Flag::new();
    flag.set(FlagType::Z);
    assert_eq!(flag.reg, 0x80);
    flag.set(FlagType::AC);
    assert_eq!(flag.reg, 0x88);
    flag.set(FlagType::PAD);
    assert_eq!(flag.reg, 0x8f);
    assert_eq!(flag.get(FlagType::PAD), 7);
    flag.unset(FlagType::PAD);
    assert_eq!(flag.reg, 0x88);
    flag.unset(FlagType::Z);
    assert_eq!(flag.reg, 0x08);
}

#[test]
fn zero_and_sign_flags_for_every_byte() {
    let mut state = State::new(vec![]);
    for v in 0..=255u8 {
        check_flag_z(v, &mut state);
        check_flag_s(v, &mut state);
        assert_eq!(state.flags.get(FlagType::Z) == 1, v == 0);
        assert_eq!(state.flags.get(FlagType::S) == 1, v & 0x80 != 0);
    }
}

#[test]
fn parity_carry_and_aux_flags() {
    let mut state = State::new(vec![]);
    check_flag_p(0x02, &mut state);
    assert_eq!(state.flags.get(FlagType::P), 1);
    check_flag_p(0x03, &mut state);
    assert_eq!(state.flags.get(FlagType::P), 0);
    check_flag_cy(0x100, &mut state);
    assert_eq!(state.flags.get(FlagType::CY), 1);
    check_flag_cy(0xff, &mut state);
    assert_eq!(state.flags.get(FlagType::CY), 0);
    check_flag_ac(0x0f, 0x10, &mut state);
    assert_eq!(state.flags.get(FlagType::AC), 1);
    check_flag_ac(0x0e, 0x0f, &mut state);
    assert_eq!(state.flags.get(FlagType::AC), 0);
}

#[test]
fn join_and_split_round_trip() {
    assert_eq!(join_bytes(0x12, 0x34), 0x1234);
    assert_eq!(split_bytes(0xabcd), (0xab, 0xcd));
    for w in [0u16, 1, 0xff, 0x100, 0x8000, 0xfffe, 0xffff] {
        let (hi, lo) = split_bytes(w);
        assert_eq!(join_bytes(hi, lo), w);
    }
    for (hi, lo) in [(0u8, 0u8), (0xff, 0), (0, 0xff), (0x7f, 0x80)] {
        assert_eq!(split_bytes(join_bytes(hi, lo)), (hi, lo));
    }
}
