//! Operations on text: flattening a message to one line, joining two texts, and
//! cutting a log down to its last bytes.
use vstd::prelude::*;
use vstd::string::*;
use vstd::utf8::*;

verus! {

/// A carriage return or a line feed.
pub open spec fn is_line_break(c: char) -> bool {
    c == '\r' || c == '\n'
}

/// The character that stands for `c` in a text of one line.
pub open spec fn flat_char(c: char) -> char {
    if is_line_break(c) {
        ' '
    } else {
        c
    }
}

/// `s` with each line break replaced by one space.
pub open spec fn flattened(s: Seq<char>) -> Seq<char> {
    s.map_values(|c: char| flat_char(c))
}

/// The number of bytes that `s` takes in UTF-8.
pub open spec fn byte_len(s: Seq<char>) -> nat {
    encode_utf8(s).len()
}

/// Whether the last `max` bytes of `s` are whole characters (or `s` is no longer than that).
pub open spec fn cuts_between_chars(s: Seq<char>, max: nat) -> bool {
    byte_len(s) > max ==> is_char_boundary(encode_utf8(s), byte_len(s) - max)
}

/// The text in the last `max` bytes of `s`, or all of `s` where it is no longer than that.
pub open spec fn last_bytes(s: Seq<char>, max: nat) -> Seq<char> {
    if byte_len(s) <= max {
        s
    } else {
        decode_utf8(encode_utf8(s).subrange(byte_len(s) - max, byte_len(s) as int))
    }
}

/// Two texts with the same bytes are the same text.
pub proof fn lemma_bytes_determine_text(a: Seq<char>, b: Seq<char>)
    requires
        encode_utf8(a) == encode_utf8(b),
    ensures
        a == b,
{
    encode_utf8_decode_utf8(a);
    encode_utf8_decode_utf8(b);
}

/// Where the bytes of `s` are split at a character boundary into those of `head` and of
/// `tail`, `s` is `head` followed by `tail`.
pub proof fn lemma_split(s: Seq<char>, mid: int, head: Seq<char>, tail: Seq<char>)
    requires
        is_char_boundary(encode_utf8(s), mid),
        0 <= mid <= byte_len(s),
        encode_utf8(head) == encode_utf8(s).subrange(0, mid),
        encode_utf8(tail) == encode_utf8(s).subrange(mid, byte_len(s) as int),
    ensures
        s == head + tail,
{
    encode_utf8_valid_utf8(s);
    encode_utf8_decode_utf8(s);
    encode_utf8_decode_utf8(head);
    encode_utf8_decode_utf8(tail);
    decode_utf8_split(encode_utf8(s), mid);
}

/// The bytes of two joined texts are the bytes of the one followed by those of the other.
pub proof fn lemma_encode_concat(a: Seq<char>, b: Seq<char>)
    ensures
        encode_utf8(a + b) == encode_utf8(a) + encode_utf8(b),
    decreases a.len(),
{
    if a.len() == 0 {
        assert(a + b =~= b);
        assert(encode_utf8(a) + encode_utf8(b) =~= encode_utf8(b));
    } else {
        lemma_encode_concat(a.drop_first(), b);
        assert((a + b).drop_first() =~= a.drop_first() + b);
        assert(encode_utf8(a + b) =~= encode_utf8(a) + encode_utf8(b));
    }
}

/// A line break in a text shows as the same byte among the text's bytes.
proof fn lemma_line_break_byte(s: Seq<char>, i: int) -> (j: int)
    requires
        0 <= i < s.len(),
        is_line_break(s[i]),
    ensures
        0 <= j < byte_len(s),
        encode_utf8(s)[j] == s[i] as u8,
    decreases s.len(),
{
    let first = encode_scalar(s[0] as u32);
    if i == 0 {
        assert(0x0du32 & 0x7f == 0x0d) by (bit_vector);
        assert(0x0au32 & 0x7f == 0x0a) by (bit_vector);
        0
    } else {
        let j = lemma_line_break_byte(s.drop_first(), i - 1);
        assert(encode_utf8(s)[first.len() + j] == encode_utf8(s.drop_first())[j]);
        first.len() + j
    }
}

/// A text whose first byte is a line break starts with that line break, and the rest of
/// its bytes are the rest of the text.
proof fn lemma_leading_line_break(s: Seq<char>)
    requires
        byte_len(s) > 0,
        encode_utf8(s)[0] == 0x0a || encode_utf8(s)[0] == 0x0d,
    ensures
        s.len() > 0,
        is_line_break(s[0]),
        is_char_boundary(encode_utf8(s), 1),
        encode_utf8(s.drop_first()) == encode_utf8(s).subrange(1, byte_len(s) as int),
{
    assert(s.len() > 0);
    encode_utf8_first_scalar(s);
    encode_utf8_valid_utf8(s);
    let b = encode_utf8(s)[0];
    assert(b & 0x7f == b) by (bit_vector)
        requires
            b <= 0x7f,
    ;
    assert(s[0] as u32 == b);
    char_u32_cast(s[0], b as u32);
    assert(0x0au32 as char == '\n' && 0x0du32 as char == '\r');
    reveal_with_fuel(is_char_boundary, 2);
    assert(encode_utf8(s.drop_first()) =~= encode_utf8(s).subrange(1, byte_len(s) as int));
}

/// The position of the first line break among `bytes`, or their number where there is none.
fn first_line_break(bytes: &[u8]) -> (at: usize)
    ensures
        at <= bytes@.len(),
        at < bytes@.len() ==> bytes@[at as int] == 0x0a || bytes@[at as int] == 0x0d,
        forall|j: int| 0 <= j < at ==> bytes@[j] != 0x0a && bytes@[j] != 0x0d,
{
    let mut at: usize = 0;
    while at < bytes.len() && bytes[at] != 0x0a && bytes[at] != 0x0d
        invariant
            at <= bytes@.len(),
            forall|j: int| 0 <= j < at ==> bytes@[j] != 0x0a && bytes@[j] != 0x0d,
        decreases bytes@.len() - at,
    {
        at = at + 1;
    }
    at
}

/// `message` on one line: each carriage return and each line feed becomes one space.
pub fn single_line(message: &str) -> (line: String)
    ensures
        line@ == flattened(message@),
{
    let mut line = String::new();
    let mut rest = message;
    loop
        invariant
            flattened(message@) == line@ + flattened(rest@),
        decreases rest@.len(),
    {
        let at: usize = first_line_break(rest.as_bytes());
        proof {
            let bytes = encode_utf8(rest@);
            encode_utf8_valid_utf8(rest@);
            if at < bytes.len() {
                is_char_boundary_iff_not_is_continuation_byte(bytes, at as int);
            } else {
                is_char_boundary_start_end_of_seq(bytes);
            }
        }
        let (head, tail) = rest.split_at(at);
        proof {
            lemma_split(rest@, at as int, head@, tail@);
            assert forall|i: int| 0 <= i < head@.len() implies !is_line_break(#[trigger] head@[i]) by {
                if is_line_break(head@[i]) {
                    let j = lemma_line_break_byte(head@, i);
                    assert(encode_utf8(head@)[j] == encode_utf8(rest@)[j]);
                }
            }
            assert(flattened(head@) =~= head@);
            assert(flattened(rest@) =~= flattened(head@) + flattened(tail@));
        }
        line.append(head);
        if tail.as_bytes().len() == 0 {
            proof {
                if tail@.len() > 0 {
                    encode_utf8_first_scalar(tail@);
                }
                assert(flattened(message@) =~= line@);
            }
            return line;
        }
        proof {
            lemma_leading_line_break(tail@);
        }
        let (_, after) = tail.split_at(1);
        proof {
            lemma_bytes_determine_text(after@, tail@.drop_first());
            reveal_strlit(" ");
            assert(flattened(tail@) =~= " "@ + flattened(after@));
            assert(flattened(message@) =~= line@ + " "@ + flattened(after@));
        }
        line.append(" ");
        rest = after;
    }
}

/// `first` followed by `second`.
pub fn joined(first: &str, second: &str) -> (text: String)
    ensures
        text@ == first@ + second@,
{
    first.to_owned().concat(second)
}

/// Whether the last `max` bytes of `content` are whole characters.
pub fn cut_is_clean(content: &str, max: usize) -> (clean: bool)
    ensures
        clean == cuts_between_chars(content@, max as nat),
{
    let len: usize = content.as_bytes().len();
    len <= max || content.is_char_boundary(len - max)
}

/// The text in the last `max` bytes of `content`, or all of it where it is no longer.
pub fn keep_last_bytes(content: String, max: usize) -> (tail: String)
    requires
        cuts_between_chars(content@, max as nat),
    ensures
        tail@ == last_bytes(content@, max as nat),
{
    let len: usize = content.as_str().as_bytes().len();
    if len <= max {
        content
    } else {
        let (_, tail) = content.as_str().split_at(len - max);
        proof {
            encode_utf8_decode_utf8(tail@);
        }
        tail.to_owned()
    }
}

} // verus!
