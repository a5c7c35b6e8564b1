use redis_vector_store::{deserialize_vector, serialize_vector};

fn bits(v: &[f64]) -> Vec<u64> {
    v.iter().map(|x| x.to_bits()).collect()
}

fn floats(v: &[u64]) -> Vec<f64> {
    v.iter().map(|b| f64::from_bits(*b)).collect()
}

#[test]
fn encode_writes_little_endian_doubles() {
    let bytes = serialize_vector(&bits(&[1.0]));
    assert_eq!(bytes, vec![0, 0, 0, 0, 0, 0, 0xF0, 0x3F]);
}

#[test]
fn encode_length_is_eight_per_element() {
    assert_eq!(serialize_vector(&bits(&[0.1, 0.2, 0.3])).len(), 24);
    assert_eq!(serialize_vector(&[]).len(), 0);
}

#[test]
fn decode_reads_little_endian_doubles() {
    let v = deserialize_vector(&[0, 0, 0, 0, 0, 0, 0xF0, 0x3F, 0, 0, 0, 0, 0, 0, 0xE0, 0x3F]);
    assert_eq!(floats(&v), vec![1.0, 0.5]);
}

#[test]
fn round_trip_keeps_every_value() {
    let v = bits(&[0.1, -2.5, 0.0, -0.0, f64::INFINITY, f64::MAX, f64::MIN_POSITIVE]);
    assert_eq!(deserialize_vector(&serialize_vector(&v)), v);
    let nan = bits(&[f64::NAN]);
    assert_eq!(deserialize_vector(&serialize_vector(&nan)), nan);
    assert_eq!(deserialize_vector(&serialize_vector(&[])), Vec::<u64>::new());
}

#[test]
fn truncated_buffer_drops_incomplete_group() {
    let mut bytes = serialize_vector(&bits(&[1.0, 2.0]));
    bytes.push(7);
    assert_eq!(floats(&deserialize_vector(&bytes)), vec![1.0, 2.0]);
    assert_eq!(deserialize_vector(&[1, 2, 3, 4, 5, 6, 7]).len(), 0);
    assert_eq!(deserialize_vector(&[0u8; 17]).len(), 2);
}
