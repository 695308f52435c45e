use paropt::codec::DecodeError;
use paropt::state::{State, StepInfo};

fn bits(v: &[f64]) -> Vec<u64> {
    v.iter().map(|x| x.to_bits()).collect()
}

#[test]
fn round_trip_keeps_durable_fields() {
    let mut s = State::new(bits(&[1.5, -2.25, 0.0]), bits(&[0.5, 1.0, 2.0]));
    s.loss = 3.75f64.to_bits();
    s.epoch = 42;
    let bytes = s.serialize();
    assert_eq!(bytes.len(), 16 * 3 + 16);
    let back = State::deserialize(&bytes, 3).unwrap();
    assert_eq!(back.parameters, s.parameters);
    match back.step {
        StepInfo::Distances(d) => assert_eq!(d, bits(&[0.5, 1.0, 2.0])),
        _ => panic!("expected distances"),
    }
    assert_eq!(back.loss, 3.75f64.to_bits());
    assert_eq!(back.epoch, 42);
    assert_eq!(back.successful_turns, 0);
    assert!(back.losses_over_time.is_empty());
}

#[test]
fn layout_is_big_endian_blocks() {
    let mut s = State::new(vec![1.0f64.to_bits()], vec![2.0f64.to_bits()]);
    s.loss = 0;
    s.epoch = 0x0102030405060708;
    let bytes = s.serialize();
    assert_eq!(&bytes[0..8], &[0x3f, 0xf0, 0, 0, 0, 0, 0, 0]);
    assert_eq!(&bytes[8..16], &[0x40, 0, 0, 0, 0, 0, 0, 0]);
    assert_eq!(&bytes[16..24], &[0; 8]);
    assert_eq!(&bytes[24..32], &[1, 2, 3, 4, 5, 6, 7, 8]);
}

#[test]
fn round_trip_is_bit_exact_for_odd_values() {
    let odd = vec![f64::NAN.to_bits() | 1, (-0.0f64).to_bits(), f64::INFINITY.to_bits(), 1];
    let mut s = State::new(odd.clone(), odd.clone());
    s.loss = f64::MIN_POSITIVE.to_bits();
    s.epoch = u64::MAX;
    let back = State::deserialize(&s.serialize(), 4).unwrap();
    assert_eq!(back.parameters, odd);
    assert_eq!(back.loss, f64::MIN_POSITIVE.to_bits());
    assert_eq!(back.epoch, u64::MAX);
}

#[test]
fn buffer_round_trip_gives_same_bytes() {
    let buf: Vec<u8> = (0..48u32).map(|i| (i * 37 % 251) as u8).collect();
    let s = State::deserialize(&buf, 2).unwrap();
    assert_eq!(s.serialize(), buf);
}

#[test]
fn wrong_length_is_refused_for_eight_params() {
    for len in [143usize, 152, 0, 145, 16] {
        let buf = vec![0u8; len];
        match State::deserialize(&buf, 8) {
            Err(DecodeError::WrongLength { num_params, found }) => {
                assert_eq!(num_params, 8);
                assert_eq!(found, len);
            }
            Ok(_) => panic!("length {len} accepted"),
        }
    }
    assert!(State::deserialize(&vec![0u8; 144], 8).is_ok());
}

#[test]
fn zero_params_checkpoint_is_sixteen_bytes() {
    let s = State::deserialize(&[0u8; 16], 0).unwrap();
    assert!(s.parameters.is_empty());
    assert!(State::deserialize(&[0u8; 15], 0).is_err());
}

#[test]
fn huge_param_count_is_refused() {
    assert!(State::deserialize(&[0u8; 32], usize::MAX).is_err());
}
