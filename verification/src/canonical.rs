//! The canonical message of a batch request: the exact bytes that the
//! requester signs and that the gateway verifies. It is the JSON encoding of
//! the array of identifiers, without whitespace.

use vstd::prelude::*;
use vstd::utf8::encode_utf8;
use crate::error::ErrorCode;

verus! {

/// `[`
pub const OPEN: u8 = 0x5b;

/// `]`
pub const CLOSE: u8 = 0x5d;

/// `"`
pub const QUOTE: u8 = 0x22;

/// `,`
pub const COMMA: u8 = 0x2c;

/// `\`
pub const BACKSLASH: u8 = 0x5c;

/// The UTF-8 bytes of each identifier, in the order given.
pub open spec fn identifier_bytes(account_ids: Seq<String>) -> Seq<Seq<u8>> {
    Seq::new(account_ids.len(), |i: int| encode_utf8(account_ids[i]@))
}

/// The lower-case hexadecimal digit of a value below 16.
pub open spec fn hex_digit(nibble: u8) -> u8 {
    if nibble < 10 {
        (0x30 + nibble) as u8
    } else {
        (0x57 + nibble) as u8
    }
}

/// One byte of a string as it stands inside a JSON string: a double quote
/// and a backslash get a backslash in front; backspace, tab, line feed, form
/// feed and carriage return become `\b`, `\t`, `\n`, `\f` and `\r`; any other
/// byte below 0x20 becomes `\u00` and its two hexadecimal digits; every other
/// byte stays as it is.
pub open spec fn escaped_byte(byte: u8) -> Seq<u8> {
    if byte == QUOTE {
        seq![BACKSLASH, QUOTE]
    } else if byte == BACKSLASH {
        seq![BACKSLASH, BACKSLASH]
    } else if byte == 0x08 {
        seq![BACKSLASH, 0x62u8]
    } else if byte == 0x09 {
        seq![BACKSLASH, 0x74u8]
    } else if byte == 0x0a {
        seq![BACKSLASH, 0x6eu8]
    } else if byte == 0x0c {
        seq![BACKSLASH, 0x66u8]
    } else if byte == 0x0d {
        seq![BACKSLASH, 0x72u8]
    } else if byte < 0x20 {
        seq![BACKSLASH, 0x75u8, 0x30u8, 0x30u8, hex_digit(byte >> 4), hex_digit(byte & 0x0f)]
    } else {
        seq![byte]
    }
}

/// The bytes of a string as they stand inside a JSON string.
pub open spec fn escaped(text: Seq<u8>) -> Seq<u8>
    decreases text.len(),
{
    if text.len() == 0 {
        Seq::empty()
    } else {
        escaped_byte(text[0]) + escaped(text.drop_first())
    }
}

/// An identifier as a JSON string: escaped, between double quotes.
pub open spec fn quoted(id: Seq<u8>) -> Seq<u8> {
    seq![QUOTE] + escaped(id) + seq![QUOTE]
}

/// What follows the first identifier of a list: nothing, or a comma and the
/// other identifiers.
pub open spec fn following(ids: Seq<Seq<u8>>) -> Seq<u8>
    decreases ids.len(), 0int,
{
    if ids.len() <= 1 {
        Seq::empty()
    } else {
        seq![COMMA] + listed(ids.drop_first())
    }
}

/// The identifiers as JSON strings, in order, with a comma between
/// neighbours.
pub open spec fn listed(ids: Seq<Seq<u8>>) -> Seq<u8>
    decreases ids.len(), 1int,
{
    if ids.len() == 0 {
        Seq::empty()
    } else {
        quoted(ids[0]) + following(ids)
    }
}

/// The canonical form of a list of identifiers: `["id1","id2",...,"idN"]`,
/// without whitespace.
pub open spec fn canonical_form(ids: Seq<Seq<u8>>) -> Seq<u8> {
    seq![OPEN] + listed(ids) + seq![CLOSE]
}

proof fn lemma_escaped_push(text: Seq<u8>, byte: u8)
    ensures
        escaped(text.push(byte)) == escaped(text) + escaped_byte(byte),
    decreases text.len(),
{
    let longer = text.push(byte);
    if text.len() == 0 {
        assert(longer.drop_first() =~= text);
        assert(escaped(text) =~= Seq::<u8>::empty());
        assert(escaped(longer) =~= escaped_byte(longer[0]) + escaped(text));
    } else {
        assert(longer.drop_first() =~= text.drop_first().push(byte));
        lemma_escaped_push(text.drop_first(), byte);
        assert(escaped(longer) =~= escaped(text) + escaped_byte(byte));
    }
}

proof fn lemma_listed_push(ids: Seq<Seq<u8>>, id: Seq<u8>)
    ensures
        listed(ids.push(id)) == if ids.len() == 0 {
            quoted(id)
        } else {
            listed(ids) + seq![COMMA] + quoted(id)
        },
    decreases ids.len(),
{
    let longer = ids.push(id);
    if ids.len() == 0 {
        assert(listed(longer) =~= quoted(id));
    } else {
        assert(longer.drop_first() =~= ids.drop_first().push(id));
        lemma_listed_push(ids.drop_first(), id);
        if ids.len() == 1 {
            assert(listed(ids.drop_first()) =~= Seq::<u8>::empty());
        }
        assert(listed(longer) =~= listed(ids) + seq![COMMA] + quoted(id));
    }
}

fn hex_digit_of(nibble: u8) -> (digit: u8)
    requires
        nibble < 16,
    ensures
        digit == hex_digit(nibble),
{
    if nibble < 10 {
        0x30 + nibble
    } else {
        0x57 + nibble
    }
}

/// Appends one byte of an identifier, escaped.
fn push_escaped(message: &mut Vec<u8>, byte: u8)
    ensures
        final(message)@ == old(message)@ + escaped_byte(byte),
{
    if byte == QUOTE || byte == BACKSLASH {
        message.push(BACKSLASH);
        message.push(byte);
    } else if byte == 0x08 {
        message.push(BACKSLASH);
        message.push(0x62);
    } else if byte == 0x09 {
        message.push(BACKSLASH);
        message.push(0x74);
    } else if byte == 0x0a {
        message.push(BACKSLASH);
        message.push(0x6e);
    } else if byte == 0x0c {
        message.push(BACKSLASH);
        message.push(0x66);
    } else if byte == 0x0d {
        message.push(BACKSLASH);
        message.push(0x72);
    } else if byte < 0x20 {
        assert(byte >> 4 < 16 && byte & 0x0f < 16) by (bit_vector);
        message.push(BACKSLASH);
        message.push(0x75);
        message.push(0x30);
        message.push(0x30);
        message.push(hex_digit_of(byte >> 4));
        message.push(hex_digit_of(byte & 0x0f));
    } else {
        message.push(byte);
    }
    assert(message@ =~= old(message)@ + escaped_byte(byte));
}

/// Builds the message to verify for a batch request. An empty list has no
/// canonical message and is refused as a caller's error.
pub fn canonical_message(account_ids: &Vec<String>) -> (built: Result<Vec<u8>, ErrorCode>)
    ensures
        match built {
            Ok(message) => account_ids.len() > 0 && message@ == canonical_form(
                identifier_bytes(account_ids@),
            ),
            Err(code) => account_ids.len() == 0 && code == ErrorCode::InvalidParams,
        },
{
    if account_ids.len() == 0 {
        return Err(ErrorCode::InvalidParams);
    }
    let ghost ids = identifier_bytes(account_ids@);
    let mut message: Vec<u8> = Vec::new();
    message.push(OPEN);
    let mut i: usize = 0;
    while i < account_ids.len()
        invariant
            i <= account_ids.len(),
            ids == identifier_bytes(account_ids@),
            message@ == seq![OPEN] + listed(ids.take(i as int)),
        decreases account_ids.len() - i,
    {
        if i > 0 {
            message.push(COMMA);
        }
        message.push(QUOTE);
        let ghost opened = message@;
        let bytes = account_ids[i].as_str().as_bytes();
        let mut k: usize = 0;
        while k < bytes.len()
            invariant
                k <= bytes.len(),
                message@ == opened + escaped(bytes@.take(k as int)),
            decreases bytes.len() - k,
        {
            push_escaped(&mut message, bytes[k]);
            proof {
                assert(bytes@.take(k + 1) =~= bytes@.take(k as int).push(bytes@[k as int]));
                lemma_escaped_push(bytes@.take(k as int), bytes@[k as int]);
            }
            k += 1;
        }
        message.push(QUOTE);
        proof {
            assert(bytes@.take(k as int) =~= bytes@);
            assert(bytes@ == ids[i as int]);
            assert(ids.take(i + 1) =~= ids.take(i as int).push(ids[i as int]));
            lemma_listed_push(ids.take(i as int), ids[i as int]);
            assert(message@ =~= seq![OPEN] + listed(ids.take(i + 1)));
        }
        i += 1;
    }
    proof {
        assert(ids.take(i as int) =~= ids);
    }
    message.push(CLOSE);
    Ok(message)
}

proof fn lemma_nibbles_make_the_byte(p: u8, q: u8)
    by (bit_vector)
    requires
        p >> 4 == q >> 4,
        p & 0x0f == q & 0x0f,
    ensures
        p == q,
{
}

proof fn lemma_nibbles_are_digits(p: u8)
    by (bit_vector)
    ensures
        p >> 4 < 16,
        p & 0x0f < 16,
{
}

/// No escaped byte is the start of another: where two of them stand at the
/// start of the same bytes, they are the same byte, escaped.
proof fn lemma_escaped_byte_read_back(p: u8, q: u8, after_p: Seq<u8>, after_q: Seq<u8>)
    requires
        escaped_byte(p) + after_p == escaped_byte(q) + after_q,
    ensures
        p == q,
        after_p == after_q,
{
    let ep = escaped_byte(p);
    let eq = escaped_byte(q);
    let s = ep + after_p;
    let t = eq + after_q;
    assert(s[0] == ep[0] && t[0] == eq[0]);
    if ep.len() >= 2 && eq.len() >= 2 {
        assert(s[1] == ep[1] && t[1] == eq[1]);
    }
    if ep.len() == 6 && eq.len() == 6 {
        assert(s[4] == ep[4] && t[4] == eq[4]);
        assert(s[5] == ep[5] && t[5] == eq[5]);
        lemma_nibbles_are_digits(p);
        lemma_nibbles_are_digits(q);
        lemma_nibbles_make_the_byte(p, q);
    }
    assert(p == q);
    assert(after_p =~= s.skip(ep.len() as int));
    assert(after_q =~= t.skip(eq.len() as int));
}

/// An escaped string can be read back from the bytes that start with it and
/// go on with its closing quote.
proof fn lemma_escaped_read_back(x: Seq<u8>, y: Seq<u8>, after_x: Seq<u8>, after_y: Seq<u8>)
    requires
        after_x.len() > 0 && after_x[0] == QUOTE,
        after_y.len() > 0 && after_y[0] == QUOTE,
        escaped(x) + after_x == escaped(y) + after_y,
    ensures
        x == y,
        after_x == after_y,
    decreases x.len(),
{
    let s = escaped(x) + after_x;
    let t = escaped(y) + after_y;
    if x.len() == 0 || y.len() == 0 {
        if x.len() > 0 {
            assert(s[0] == escaped_byte(x[0])[0]);
            assert(t[0] == after_y[0]);
        }
        if y.len() > 0 {
            assert(t[0] == escaped_byte(y[0])[0]);
            assert(s[0] == after_x[0]);
        }
        assert(x =~= y);
        assert(after_x =~= s);
        assert(after_y =~= t);
    } else {
        let rest_x = escaped(x.drop_first()) + after_x;
        let rest_y = escaped(y.drop_first()) + after_y;
        assert(s =~= escaped_byte(x[0]) + rest_x);
        assert(t =~= escaped_byte(y[0]) + rest_y);
        lemma_escaped_byte_read_back(x[0], y[0], rest_x, rest_y);
        lemma_escaped_read_back(x.drop_first(), y.drop_first(), after_x, after_y);
        assert(x =~= seq![x[0]] + x.drop_first());
        assert(y =~= seq![y[0]] + y.drop_first());
    }
}

proof fn lemma_listed_injective(a: Seq<Seq<u8>>, b: Seq<Seq<u8>>)
    requires
        listed(a) == listed(b),
    ensures
        a == b,
    decreases a.len(),
{
    if a.len() == 0 || b.len() == 0 {
        assert(a.len() > 0 ==> listed(a).len() > 0);
        assert(b.len() > 0 ==> listed(b).len() > 0);
        assert(a =~= b);
    } else {
        let after_a = seq![QUOTE] + following(a);
        let after_b = seq![QUOTE] + following(b);
        assert(listed(a).skip(1) =~= escaped(a[0]) + after_a);
        assert(listed(b).skip(1) =~= escaped(b[0]) + after_b);
        lemma_escaped_read_back(a[0], b[0], after_a, after_b);
        assert(following(a) =~= after_a.skip(1));
        assert(following(b) =~= after_b.skip(1));
        if a.len() > 1 && b.len() > 1 {
            assert(listed(a.drop_first()) =~= following(a).skip(1));
            assert(listed(b.drop_first()) =~= following(b).skip(1));
            lemma_listed_injective(a.drop_first(), b.drop_first());
        } else {
            assert(a.len() > 1 ==> following(a).len() > 0);
            assert(b.len() > 1 ==> following(b).len() > 0);
        }
        assert(a =~= seq![a[0]] + a.drop_first());
        assert(b =~= seq![b[0]] + b.drop_first());
    }
}

/// Two lists of identifiers that have the same canonical message are the
/// same list: the identifiers and their order can be read back from the
/// message. In particular a list in another order, or with another
/// identifier, has another message.
pub proof fn lemma_canonical_form_injective(a: Seq<Seq<u8>>, b: Seq<Seq<u8>>)
    requires
        canonical_form(a) == canonical_form(b),
    ensures
        a == b,
{
    let m = canonical_form(a);
    assert(listed(a) =~= m.subrange(1, m.len() - 1));
    assert(listed(b) =~= m.subrange(1, m.len() - 1));
    lemma_listed_injective(a, b);
}

/// Exchanging two different identifiers of a list changes its canonical
/// message.
pub proof fn lemma_reordering_changes_message(ids: Seq<Seq<u8>>, i: int, j: int)
    requires
        0 <= i < ids.len(),
        0 <= j < ids.len(),
        ids[i] != ids[j],
    ensures
        canonical_form(ids.update(i, ids[j]).update(j, ids[i])) != canonical_form(ids),
{
    let swapped = ids.update(i, ids[j]).update(j, ids[i]);
    assert(swapped[i] == ids[j]);
    if canonical_form(swapped) == canonical_form(ids) {
        lemma_canonical_form_injective(swapped, ids);
    }
}

/// Lists of identifiers that give the same bytes are the same strings.
pub proof fn lemma_identifier_bytes_injective(a: Seq<String>, b: Seq<String>)
    requires
        identifier_bytes(a) == identifier_bytes(b),
    ensures
        a.len() == b.len(),
        forall|i: int| 0 <= i < a.len() ==> a[i]@ == b[i]@,
{
    assert(identifier_bytes(a).len() == a.len());
    assert(identifier_bytes(b).len() == b.len());
    assert forall|i: int| 0 <= i < a.len() implies a[i]@ == b[i]@ by {
        assert(identifier_bytes(a)[i] == identifier_bytes(b)[i]);
        vstd::utf8::encode_utf8_decode_utf8(a[i]@);
        vstd::utf8::encode_utf8_decode_utf8(b[i]@);
    }
}

/// The canonical message tells which identifiers were signed, and in which
/// order: two requests whose canonical messages are equal name the same
/// identifiers in the same order. So a signature for one request is a
/// signature for no other.
pub proof fn lemma_canonical_message_determines_request(a: Seq<String>, b: Seq<String>)
    requires
        canonical_form(identifier_bytes(a)) == canonical_form(identifier_bytes(b)),
    ensures
        a.len() == b.len(),
        forall|i: int| 0 <= i < a.len() ==> a[i]@ == b[i]@,
{
    lemma_canonical_form_injective(identifier_bytes(a), identifier_bytes(b));
    lemma_identifier_bytes_injective(a, b);
}

} // verus!
