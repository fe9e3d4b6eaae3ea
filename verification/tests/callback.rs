use espeak_synth::bridge_deliver;

#[test]
fn appends_samples_to_buffer() {
    let mut buffer: Vec<i16> = Vec::new();
    let wav_data: Vec<i16> = vec![1, 2, 3, 4, 5, 6];

    let result = bridge_deliver(&mut buffer, Some(&wav_data));

    assert_eq!(result, 0);
    assert_eq!(buffer, vec![1, 2, 3, 4, 5, 6]);
}

#[test]
fn not_applicable_delivery_returns_zero_and_leaves_buffer() {
    let mut buffer: Vec<i16> = vec![7, 8];

    let result = bridge_deliver(&mut buffer, None);

    assert_eq!(result, 0);
    assert_eq!(buffer, vec![7, 8]);
}

#[test]
fn deliveries_append_in_order_without_truncating() {
    let mut buffer: Vec<i16> = vec![-1, -2];

    bridge_deliver(&mut buffer, Some(&[10, 11]));
    bridge_deliver(&mut buffer, Some(&[12]));

    assert_eq!(buffer, vec![-1, -2, 10, 11, 12]);
}

#[test]
fn empty_fragment_changes_nothing() {
    let mut buffer: Vec<i16> = vec![5];
    let empty: [i16; 0] = [];

    let result = bridge_deliver(&mut buffer, Some(&empty));

    assert_eq!(result, 0);
    assert_eq!(buffer, vec![5]);
}
