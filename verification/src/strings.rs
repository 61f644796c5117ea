//! Random identifier strings: one uppercase letter followed by lowercase
//! letters, each drawn from a random byte.

use vstd::prelude::*;

verus! {

/// Relies on `rand::random`: one value drawn from the thread-local
/// generator. Nothing can be promised of a random draw.
#[verifier::external_body]
fn random_byte() -> u8 {
    rand::random::<u8>()
}

/// Relies on `String::push`: appends the given `char` to the end of the
/// string.
#[verifier::external_body]
fn push_char(s: &mut String, c: char)
    ensures
        final(s)@ == old(s)@.push(c),
{
    s.push(c);
}

/// String helpers shared across the simulation.
pub struct StringUtils;

impl StringUtils {
    /// A freshly drawn string of `n` letters (empty when `n` is not
    /// positive): the first letter uppercase ASCII, the rest lowercase
    /// ASCII. Which letters come out is up to the random generator.
    #[verifier::loop_isolation(false)]
    pub fn random_string(n: i32) -> (r: String)
        ensures
            r@.len() == (if n >= 0 { n as int } else { 0 }),
            forall|i: int| 1 <= i < r@.len() ==> 97 <= (#[trigger] r@[i]) as u32 <= 122,
            n > 0 ==> 65 <= r@[0] as u32 <= 90,
    {
        let mut s = String::new();
        let mut i: i32 = 0;
        while i < n
            invariant
                0 <= i,
                i <= n || i == 0,
                s@.len() == i as int,
                forall|k: int| 1 <= k < s@.len() ==> 97 <= (#[trigger] s@[k]) as u32 <= 122,
                s@.len() > 0 ==> 65 <= s@[0] as u32 <= 90,
            decreases n - i,
        {
            let byte = random_byte();
            let c: char = if i == 0 {
                (65 + byte % 26) as char
            } else {
                (97 + byte % 26) as char
            };
            push_char(&mut s, c);
            i = i + 1;
        }
        s
    }
}

} // verus!
