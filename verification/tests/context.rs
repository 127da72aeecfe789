use xenctrl::context::{find_cpu, find_record};

fn record(context: &mut Vec<u8>, typecode: u16, instance: u16, data: &[u8]) {
    context.extend_from_slice(&typecode.to_le_bytes());
    context.extend_from_slice(&instance.to_le_bytes());
    context.extend_from_slice(&(data.len() as u32).to_le_bytes());
    context.extend_from_slice(data);
}

fn sample() -> Vec<u8> {
    let mut context = Vec::new();
    record(&mut context, 1, 0, &[0xaa; 5]);
    record(&mut context, 2, 0, &[1, 2, 3, 4]);
    record(&mut context, 2, 1, &[5, 6, 7, 8]);
    record(&mut context, 2, 1, &[9, 9, 9, 9]);
    record(&mut context, 0x1234, 0xabcd, &[]);
    record(&mut context, 0, 0, &[]);
    context
}

#[test]
fn record_is_found() {
    let context = sample();
    assert_eq!(find_record(&context, 1, 0), Some(8));
    assert_eq!(find_record(&context, 2, 0), Some(21));
    assert_eq!(find_record(&context, 0x1234, 0xabcd), Some(57));
}

#[test]
fn first_record_is_found() {
    let context = sample();
    assert_eq!(find_record(&context, 2, 1), Some(33));
    assert_eq!(&context[33..37], &[5, 6, 7, 8]);
}

#[test]
fn record_is_not_found() {
    let context = sample();
    assert_eq!(find_record(&context, 2, 2), None);
    assert_eq!(find_record(&context, 3, 0), None);
    assert_eq!(find_record(&[], 2, 0), None);
    assert_eq!(find_record(&[2, 0, 0, 0, 0, 0, 0], 2, 0), None);
}

#[test]
fn record_with_a_long_body() {
    let mut context = Vec::new();
    record(&mut context, 7, 7, &[0; 0x1_0203]);
    record(&mut context, 2, 3, &[4; 4]);
    assert_eq!(find_record(&context, 2, 3), Some(0x1_0203 + 16));
}

#[test]
fn record_beyond_the_end() {
    let mut context = vec![1, 0, 0, 0, 0xff, 0xff, 0xff, 0xff];
    record(&mut context, 2, 0, &[1]);
    assert_eq!(find_record(&context, 2, 0), None);
}

#[test]
fn cpu_state_is_found() {
    let context = sample();
    assert_eq!(find_cpu(&context, 2, 1, 4), Some(33));
}

#[test]
fn cpu_state_is_cut_off() {
    let mut context = Vec::new();
    record(&mut context, 2, 0, &[1, 2, 3]);
    assert_eq!(find_cpu(&context, 2, 0, 3), Some(8));
    assert_eq!(find_cpu(&context, 2, 0, 4), None);
    assert_eq!(find_cpu(&context, 2, 1, 0), None);
}
