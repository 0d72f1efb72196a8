use http_service::Body;

#[test]
fn empty_first_read_is_end_of_stream() {
    let mut b = Body::empty();
    let mut dest = vec![9u8; 10];
    assert_eq!(b.read(&mut dest), 0);
    assert_eq!(dest, vec![9u8; 10]);
}

#[test]
fn empty_end_of_stream_is_idempotent() {
    let mut b = Body::empty();
    let mut dest = vec![9u8; 4];
    for _ in 0..5 {
        assert_eq!(b.read(&mut dest), 0);
        assert_eq!(dest, vec![9u8; 4]);
    }
}

#[test]
fn hi_scenario() {
    let mut b = Body::from(vec![0x48u8, 0x69u8]);
    let mut dest = vec![0u8; 10];
    let n = b.read(&mut dest);
    assert_eq!(n, 2);
    assert_eq!(dest[0], 0x48u8);
    assert_eq!(dest[1], 0x69u8);
    let n2 = b.read(&mut dest);
    assert_eq!(n2, 0);
}

#[test]
fn reading_to_exhaustion_yields_the_buffer() {
    let mut payload: Vec<u8> = Vec::new();
    let mut i: usize = 0;
    while i < 200 {
        payload.push((i % 251) as u8);
        i += 1;
    }
    let mut b = Body::from(payload.clone());
    let mut collected: Vec<u8> = Vec::new();
    let mut dest = vec![0u8; 7];
    loop {
        let n = b.read(&mut dest);
        if n == 0 {
            break;
        }
        collected.extend_from_slice(&dest[..n]);
    }
    assert_eq!(collected, payload);
    assert_eq!(b.read(&mut dest), 0);
}

#[test]
fn read_to_end_drains_the_body() {
    let payload = vec![3u8, 1u8, 4u8, 1u8, 5u8, 9u8];
    let mut b = Body::from(payload.clone());
    let out = b.read_to_end();
    assert_eq!(out, payload);
    let mut dest = vec![0u8; 3];
    assert_eq!(b.read(&mut dest), 0);
}

#[test]
fn small_destination_takes_a_prefix() {
    let mut b = Body::from(vec![10u8, 20u8, 30u8, 40u8, 50u8]);
    let mut dest = vec![0u8; 2];
    assert_eq!(b.read(&mut dest), 2);
    assert_eq!(dest, vec![10u8, 20u8]);
    assert_eq!(b.read(&mut dest), 2);
    assert_eq!(dest, vec![30u8, 40u8]);
    assert_eq!(b.read(&mut dest), 1);
    assert_eq!(dest, vec![50u8, 40u8]);
    assert_eq!(b.read(&mut dest), 0);
    assert_eq!(dest, vec![50u8, 40u8]);
}

#[test]
fn zero_length_destination_reads_nothing() {
    let mut b = Body::from(vec![1u8, 2u8]);
    let mut dest: Vec<u8> = Vec::new();
    assert_eq!(b.read(&mut dest), 0);
    let mut real = vec![0u8; 4];
    assert_eq!(b.read(&mut real), 2);
    assert_eq!(real, vec![1u8, 2u8, 0u8, 0u8]);
}
