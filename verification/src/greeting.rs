//! The constant greeting payload returned by the module's entry point.

use vstd::prelude::*;

verus! {

/// The greeting as text: the fixed literal every caller receives.
pub open spec fn greeting_text() -> Seq<char> {
    "Hello, World from Rust!"@
}

/// The greeting as bytes: the text, one byte per character.
pub open spec fn greeting_bytes() -> Seq<u8> {
    seq![
        72u8, 101u8, 108u8, 108u8, 111u8, 44u8, 32u8, 87u8, 111u8, 114u8, 108u8, 100u8, 32u8,
        102u8, 114u8, 111u8, 109u8, 32u8, 82u8, 117u8, 115u8, 116u8, 33u8,
    ]
}

/// The entry point: takes no arguments, always succeeds, and returns the
/// constant greeting, byte for byte, on every call.
pub fn helloworld() -> (r: Vec<u8>)
    ensures
        r@ == greeting_bytes(),
        r@.len() == 23,
{
    let mut v: Vec<u8> = Vec::new();
    v.push(72u8);
    v.push(101u8);
    v.push(108u8);
    v.push(108u8);
    v.push(111u8);
    v.push(44u8);
    v.push(32u8);
    v.push(87u8);
    v.push(111u8);
    v.push(114u8);
    v.push(108u8);
    v.push(100u8);
    v.push(32u8);
    v.push(102u8);
    v.push(114u8);
    v.push(111u8);
    v.push(109u8);
    v.push(32u8);
    v.push(82u8);
    v.push(117u8);
    v.push(115u8);
    v.push(116u8);
    v.push(33u8);
    proof {
        assert(v@ =~= greeting_bytes());
    }
    v
}

/// Determinism: the entry point has one possible return value, so any two
/// invocations, in any order and however many there are, return byte
/// sequences identical in length and content.
pub proof fn lemma_invocations_identical(a: Seq<u8>, b: Seq<u8>)
    requires
        a == greeting_bytes(),
        b == greeting_bytes(),
    ensures
        a.len() == b.len(),
        a == b,
{
}

/// The greeting bytes are exactly the greeting text: same length, and each
/// byte is the code of the character at the same position, so decoding the
/// bytes as text yields the fixed literal.
pub proof fn lemma_bytes_decode_to_text()
    ensures
        greeting_bytes().len() == greeting_text().len(),
        forall|i: int|
            0 <= i < greeting_text().len() ==> greeting_bytes()[i] == greeting_text()[i] as u8,
{
    reveal_strlit("Hello, World from Rust!");
}

} // verus!
