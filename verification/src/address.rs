//! Account addresses, transaction identifiers, and the textual form of an address.

use vstd::prelude::*;

verus! {

/// A 20-byte account identifier.
#[derive(Clone, Copy, Debug, PartialEq, Eq)]
pub struct Address {
    pub bytes: [u8; 20],
}

impl View for Address {
    type V = Seq<u8>;

    open spec fn view(&self) -> Seq<u8> {
        self.bytes@
    }
}

/// A 32-byte transaction identifier, as the chain client hands it out.
#[derive(Clone, Copy, Debug, PartialEq, Eq)]
pub struct TxId {
    pub bytes: [u8; 32],
}

impl View for TxId {
    type V = Seq<u8>;

    open spec fn view(&self) -> Seq<u8> {
        self.bytes@
    }
}

/// Whether `c` is one of the four blank characters that an address text may
/// hold anywhere between its digits.
pub open spec fn is_blank(c: char) -> bool {
    c == ' ' || c == '\t' || c == '\n' || c == '\r'
}

/// The value of a hexadecimal digit of either case, `None` for any other character.
pub open spec fn hex_digit_value(c: char) -> Option<u8> {
    if '0' <= c <= '9' {
        Some((c as u8 - '0' as u8) as u8)
    } else if 'a' <= c <= 'f' {
        Some((c as u8 - 'a' as u8 + 10) as u8)
    } else if 'A' <= c <= 'F' {
        Some((c as u8 - 'A' as u8 + 10) as u8)
    } else {
        None
    }
}

/// The text without one leading `0x`, if it has one.
pub open spec fn without_prefix(text: Seq<char>) -> Seq<char> {
    if text.len() >= 2 && text[0] == '0' && text[1] == 'x' {
        text.skip(2)
    } else {
        text
    }
}

/// The predicate that keeps every character but the blank ones.
pub open spec fn not_blank() -> spec_fn(char) -> bool {
    |c: char| !is_blank(c)
}

/// The characters of the text that count: what follows the prefix, blanks left out.
pub open spec fn digits_of(text: Seq<char>) -> Seq<char> {
    without_prefix(text).filter(not_blank())
}

/// Whether the text is the textual form of an address: after an optional `0x`,
/// exactly 40 hexadecimal digits, with blanks allowed anywhere among them.
pub open spec fn is_address_text(text: Seq<char>) -> bool {
    &&& digits_of(text).len() == 40
    &&& forall|j: int| 0 <= j < 40 ==> (#[trigger] hex_digit_value(digits_of(text)[j])) is Some
}

/// The 20 bytes that an address text stands for: each pair of digits is one
/// byte, the first digit its high half.
pub open spec fn address_bytes(text: Seq<char>) -> Seq<u8> {
    Seq::new(
        20,
        |k: int|
            (16 * hex_digit_value(digits_of(text)[2 * k]).unwrap() + hex_digit_value(
                digits_of(text)[2 * k + 1],
            ).unwrap()) as u8,
    )
}

/// A text of the wrong length is no address: one of fewer than 40
/// characters, or one in which the characters that count are not 40.
pub proof fn law_wrong_length_is_no_address(text: Seq<char>)
    requires
        text.len() < 40 || digits_of(text).len() != 40,
    ensures
        !is_address_text(text),
{
    without_prefix(text).lemma_filter_len(not_blank());
}

/// A text with a character of the wrong kind is no address: one that is
/// neither blank nor a hexadecimal digit, anywhere after the prefix.
pub proof fn law_stray_character_is_no_address(text: Seq<char>, k: int)
    requires
        0 <= k < without_prefix(text).len(),
        !is_blank(without_prefix(text)[k]),
        hex_digit_value(without_prefix(text)[k]) is None,
    ensures
        !is_address_text(text),
{
    let body = without_prefix(text);
    body.lemma_filter_contains(not_blank(), k);
    let j = choose|j: int| 0 <= j < digits_of(text).len() && digits_of(text)[j] == body[k];
    assert(hex_digit_value(digits_of(text)[j]) is None);
}

/// The characters that count among the first `n` of `body`.
spec fn digits_within(body: Seq<char>, n: int) -> Seq<char> {
    body.take(n).filter(not_blank())
}

/// One more character of the body adds itself to the characters that count,
/// unless it is blank.
proof fn lemma_digits_step(body: Seq<char>, n: int)
    requires
        0 <= n < body.len(),
    ensures
        digits_within(body, n + 1) == if is_blank(body[n]) {
            digits_within(body, n)
        } else {
            digits_within(body, n).push(body[n])
        },
{
    reveal(Seq::filter);
    assert(body.take(n + 1).drop_last() =~= body.take(n));
}

/// The characters that count in a part of the body are no more than those in
/// the whole, and all of the body holds all of them.
proof fn lemma_digits_whole(body: Seq<char>, n: int)
    requires
        0 <= n <= body.len(),
    ensures
        digits_within(body, n).len() <= body.filter(not_blank()).len(),
        digits_within(body, body.len() as int) == body.filter(not_blank()),
{
    assert(body =~= body.take(n) + body.skip(n));
    Seq::filter_distributes_over_add(body.take(n), body.skip(n), not_blank());
    assert(body.take(body.len() as int) =~= body);
}

/// The value of an ASCII byte as a hexadecimal digit.
fn hex_value_of_byte(b: u8) -> (r: Option<u8>)
    requires
        b < 128,
    ensures
        r == hex_digit_value(b as char),
        r matches Some(v) ==> v < 16,
{
    if 48 <= b && b <= 57 {
        Some(b - 48)
    } else if 97 <= b && b <= 102 {
        Some(b - 97 + 10)
    } else if 65 <= b && b <= 70 {
        Some(b - 65 + 10)
    } else {
        None
    }
}

impl Address {
    /// Reads an address from its textual form.
    pub fn parse(text: &str) -> (r: Option<Address>)
        ensures
            match r {
                Some(address) => is_address_text(text@) && address@ == address_bytes(text@),
                None => !is_address_text(text@),
            },
    {
        broadcast use vstd::string::is_ascii_spec_bytes;

        if !text.is_ascii() {
            proof {
                let i = choose|i: int|
                    0 <= i < text@.len() && !('\0' <= #[trigger] text@[i] <= '\u{7f}');
                if without_prefix(text@) == text@ {
                    law_stray_character_is_no_address(text@, i);
                } else {
                    law_stray_character_is_no_address(text@, i - 2);
                }
            }
            return None;
        }
        let bytes = text.as_bytes();
        let n = bytes.len();
        let start: usize = if n >= 2 && bytes[0] == 48 && bytes[1] == 120 {
            2
        } else {
            0
        };
        let ghost body = without_prefix(text@);
        assert(body =~= text@.skip(start as int));
        let mut out = [0u8; 20];
        let mut count: usize = 0;
        let mut high: u8 = 0;
        let mut i: usize = start;
        while i < n
            invariant
                start <= i <= n,
                n == text@.len(),
                n == bytes@.len(),
                body == text@.skip(start as int),
                body == without_prefix(text@),
                forall|j: int|
                    0 <= j < n ==> bytes@[j] == #[trigger] text@[j] as u8 && '\0' <= text@[j]
                        <= '\u{7f}',
                count <= 40,
                count == digits_within(body, i - start).len(),
                forall|j: int|
                    0 <= j < count ==> (#[trigger] hex_digit_value(
                        digits_within(body, i - start)[j],
                    )) is Some,
                forall|k: int|
                    0 <= k < count / 2 ==> #[trigger] out[k] == (16 * hex_digit_value(
                        digits_within(body, i - start)[2 * k],
                    ).unwrap() + hex_digit_value(
                        digits_within(body, i - start)[2 * k + 1],
                    ).unwrap()) as u8,
                count % 2 == 1 ==> Some(high) == hex_digit_value(
                    digits_within(body, i - start)[count - 1],
                ),
                high < 16,
            decreases n - i,
        {
            let b = bytes[i];
            proof {
                lemma_digits_step(body, i - start);
                assert('\0' <= text@[i as int] <= '\u{7f}');
                assert(b as char == body[i - start]);
            }
            if b == 32 || b == 9 || b == 10 || b == 13 {
            } else {
                match hex_value_of_byte(b) {
                    None => {
                        proof {
                            law_stray_character_is_no_address(text@, i - start);
                        }
                        return None;
                    },
                    Some(v) => {
                        if count == 40 {
                            proof {
                                lemma_digits_whole(body, i - start + 1);
                            }
                            return None;
                        }
                        if count % 2 == 0 {
                            high = v;
                        } else {
                            out[count / 2] = high * 16 + v;
                        }
                        count = count + 1;
                    },
                }
            }
            i = i + 1;
        }
        proof {
            lemma_digits_whole(body, n - start);
        }
        if count == 40 {
            let address = Address { bytes: out };
            assert(address@ =~= address_bytes(text@));
            Some(address)
        } else {
            None
        }
    }
}

} // verus!
