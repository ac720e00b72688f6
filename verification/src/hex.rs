//! Uppercase hexadecimal text for a byte sequence.

use vstd::prelude::*;
use vstd::string::*;

verus! {

/// The sixteen uppercase hexadecimal digits, each at the index of its value.
pub open spec fn upper_hex_digits() -> Seq<char> {
    seq!['0', '1', '2', '3', '4', '5', '6', '7', '8', '9', 'A', 'B', 'C', 'D', 'E', 'F']
}

/// The digit at position `i` of the hexadecimal text of `bytes`: the high half
/// of a byte comes first, then its low half.
pub open spec fn upper_hex_char(bytes: Seq<u8>, i: int) -> char {
    if i % 2 == 0 {
        upper_hex_digits()[bytes[i / 2] as int / 16]
    } else {
        upper_hex_digits()[bytes[i / 2] as int % 16]
    }
}

/// The uppercase hexadecimal text of `bytes`: two digits for each byte, in
/// order, with nothing between them.
pub open spec fn upper_hex(bytes: Seq<u8>) -> Seq<char> {
    Seq::new(2 * bytes.len(), |i: int| upper_hex_char(bytes, i))
}

/// The text of a sequence with one more byte is the text of the sequence
/// followed by the two digits of that byte.
pub proof fn lemma_upper_hex_push(bytes: Seq<u8>, byte: u8)
    ensures
        upper_hex(bytes.push(byte)) == upper_hex(bytes) + seq![
            upper_hex_digits()[byte as int / 16],
            upper_hex_digits()[byte as int % 16],
        ],
{
    let whole = upper_hex(bytes.push(byte));
    let parts = upper_hex(bytes) + seq![
        upper_hex_digits()[byte as int / 16],
        upper_hex_digits()[byte as int % 16],
    ];
    assert(whole.len() == parts.len());
    assert forall|i: int| 0 <= i < whole.len() implies whole[i] == parts[i] by {
        if i < 2 * bytes.len() {
            assert(bytes.push(byte)[i / 2] == bytes[i / 2]);
        } else {
            assert(i / 2 == bytes.len());
            assert(bytes.push(byte)[i / 2] == byte);
        }
    }
    assert(whole =~= parts);
}

/// Renders `bytes` as uppercase hexadecimal text.
pub fn to_upper_hex(bytes: &[u8]) -> (text: String)
    ensures
        text@ == upper_hex(bytes@),
{
    let digits: &str = "0123456789ABCDEF";
    proof {
        reveal_strlit("0123456789ABCDEF");
        assert(digits@ =~= upper_hex_digits());
    }
    let mut text = String::new();
    let mut i: usize = 0;
    assert(bytes@.take(0) =~= Seq::<u8>::empty());
    assert(upper_hex(Seq::<u8>::empty()) =~= Seq::<char>::empty());
    while i < bytes.len()
        invariant
            i <= bytes.len(),
            digits@ == upper_hex_digits(),
            digits.is_ascii(),
            text@ == upper_hex(bytes@.take(i as int)),
        decreases bytes.len() - i,
    {
        let byte: u8 = bytes[i];
        let high: usize = (byte / 16) as usize;
        let low: usize = (byte % 16) as usize;
        let high_digit = digits.substring_ascii(high, high + 1);
        let low_digit = digits.substring_ascii(low, low + 1);
        proof {
            lemma_upper_hex_push(bytes@.take(i as int), byte);
            assert(bytes@.take(i as int).push(byte) =~= bytes@.take(i as int + 1));
            assert(high_digit@ + low_digit@ =~= seq![
                upper_hex_digits()[byte as int / 16],
                upper_hex_digits()[byte as int % 16],
            ]);
            assert(text@ + high_digit@ + low_digit@ =~= text@ + (high_digit@ + low_digit@));
        }
        text.append(high_digit);
        text.append(low_digit);
        i = i + 1;
    }
    assert(bytes@.take(bytes.len() as int) =~= bytes@);
    text
}

} // verus!
