use wasmer_js::copipe::copy_reply;

#[test]
fn copy_reply_fills_front_of_buffer() {
    let mut buf = [0u8; 5];
    let n = copy_reply(&mut buf, &[7, 8, 9]);
    assert_eq!(n, 3);
    assert_eq!(buf, [7, 8, 9, 0, 0]);
}

#[test]
fn copy_reply_empty_reply_leaves_buffer() {
    let mut buf = [4u8, 5];
    assert_eq!(copy_reply(&mut buf, &[]), 0);
    assert_eq!(buf, [4, 5]);
}

#[test]
fn copy_reply_exactly_full() {
    let mut buf = [0u8; 2];
    assert_eq!(copy_reply(&mut buf, &[1, 2]), 2);
    assert_eq!(buf, [1, 2]);
}
