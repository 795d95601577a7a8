use vstd::prelude::*;

verus! {

/// The bytes of the greeting line: `Hello RTIC UART!` then carriage return
/// and line feed.
pub open spec fn greeting_bytes() -> Seq<u8> {
    seq![
        72u8, 101u8, 108u8, 108u8, 111u8, 32u8, 82u8, 84u8, 73u8,
        67u8, 32u8, 85u8, 65u8, 82u8, 84u8, 33u8, 13u8, 10u8,
    ]
}

/// The serial stream after `n` whole greetings.
pub open spec fn stream(n: nat) -> Seq<u8>
    decreases n,
{
    if n == 0 {
        Seq::empty()
    } else {
        stream((n - 1) as nat) + greeting_bytes()
    }
}

/// The number of bytes in one greeting line.
pub const GREETING_LEN: usize = 18;

/// Returns the greeting line, ready to be written to the serial port.
pub fn greeting() -> (r: Vec<u8>)
    ensures
        r@ == greeting_bytes(),
        r@.len() == GREETING_LEN,
{
    let r: Vec<u8> = vec![
        72u8, 101u8, 108u8, 108u8, 111u8, 32u8, 82u8, 84u8, 73u8,
        67u8, 32u8, 85u8, 65u8, 82u8, 84u8, 33u8, 13u8, 10u8,
    ];
    assert(r@ =~= greeting_bytes());
    r
}

/// Appending one greeting to the stream of `n` gives the stream of `n + 1`.
pub proof fn stream_grows_by_one_greeting(n: nat)
    ensures
        stream(n) + greeting_bytes() == stream(n + 1),
{
}

} // verus!
