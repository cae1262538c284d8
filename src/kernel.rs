use vstd::prelude::*;

verus! {

/// The prefix of every debug line.
pub open spec fn kdebug_prefix() -> Seq<u8> {
    seq![0x4Bu8, 0x44, 0x45, 0x42, 0x55, 0x47, 0x3A, 0x20]
}

/// The bytes that a debug message puts on the console: `KDEBUG: ` and then
/// the message.
pub fn kdebug(msg: &[u8]) -> (r: Vec<u8>)
    ensures
        r@ == kdebug_prefix() + msg@,
{
    let mut out: Vec<u8> = Vec::new();
    out.push(0x4B);
    out.push(0x44);
    out.push(0x45);
    out.push(0x42);
    out.push(0x55);
    out.push(0x47);
    out.push(0x3A);
    out.push(0x20);
    assert(out@ =~= kdebug_prefix());
    let mut i: usize = 0;
    while i < msg.len()
        invariant
            i <= msg@.len(),
            out@ == kdebug_prefix() + msg@.subrange(0, i as int),
        decreases msg@.len() - i,
    {
        out.push(msg[i]);
        i = i + 1;
        assert(out@ =~= kdebug_prefix() + msg@.subrange(0, i as int));
    }
    assert(msg@.subrange(0, msg@.len() as int) =~= msg@);
    out
}

} // verus!
