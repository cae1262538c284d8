use kernel_prims::kernel::kdebug;

#[test]
fn kdebug_prefixes_message() {
    assert_eq!(kdebug(b"hi"), b"KDEBUG: hi".to_vec());
}

#[test]
fn kdebug_of_empty_message() {
    assert_eq!(kdebug(b""), b"KDEBUG: ".to_vec());
}
