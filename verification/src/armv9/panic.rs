//! The byte stream the armv9 panic console sends: ASCII passes through,
//! every other byte is shown as a dot.
use vstd::prelude::*;
use vstd::string::StringSliceAdditionalSpecFns;

verus! {

/// The byte the panic console sends for `b`.
pub open spec fn console_byte(b: u8) -> u8 {
    if b < 128 { b } else { 46u8 }
}

/// The bytes the panic console sends for `s`: its bytes, each non-ASCII
/// byte replaced by `.`.
pub fn panic_console_bytes(s: &str) -> (r: Vec<u8>)
    ensures
        r@ == s.spec_bytes().map_values(|b: u8| console_byte(b)),
{
    let b = s.as_bytes();
    let mut out: Vec<u8> = Vec::new();
    let mut i: usize = 0;
    while i < b.len()
        invariant
            i <= b@.len(),
            out@ == b@.subrange(0, i as int).map_values(|x: u8| console_byte(x)),
        decreases b@.len() - i,
    {
        let byte = b[i];
        if byte < 128 {
            out.push(byte);
        } else {
            out.push(46u8);
        }
        i = i + 1;
        assert(out@ =~= b@.subrange(0, i as int).map_values(|x: u8| console_byte(x)));
    }
    assert(b@.subrange(0, b@.len() as int) =~= b@);
    out
}

} // verus!
