//! The byte stream the amd64 panic console sends to the serial line: every
//! newline goes out as a carriage return and a line feed.
use vstd::prelude::*;
use vstd::string::StringSliceAdditionalSpecFns;

verus! {

/// `b` with every line feed preceded by a carriage return.
pub open spec fn serial_text(b: Seq<u8>) -> Seq<u8>
    decreases b.len(),
{
    if b.len() == 0 {
        Seq::empty()
    } else if b.last() == 10u8 {
        serial_text(b.drop_last()) + seq![13u8, 10u8]
    } else {
        serial_text(b.drop_last()).push(b.last())
    }
}

/// The bytes the panic console sends for `s`.
pub fn serial_bytes(s: &str) -> (r: Vec<u8>)
    ensures
        r@ == serial_text(s.spec_bytes()),
{
    let b = s.as_bytes();
    let mut out: Vec<u8> = Vec::new();
    let mut i: usize = 0;
    while i < b.len()
        invariant
            i <= b@.len(),
            out@ == serial_text(b@.subrange(0, i as int)),
        decreases b@.len() - i,
    {
        let byte = b[i];
        assert(b@.subrange(0, i + 1).drop_last() =~= b@.subrange(0, i as int));
        if byte == 10u8 {
            out.push(13u8);
            out.push(10u8);
        } else {
            out.push(byte);
        }
        i = i + 1;
        assert(out@ =~= serial_text(b@.subrange(0, i as int)));
    }
    assert(b@.subrange(0, b@.len() as int) =~= b@);
    out
}

} // verus!
