//! JSON framing for the contact-form request body.
//!
//! The submission endpoint takes a JSON object with the four form fields.
//! The library frames that body itself, character by character, so that
//! the exact bytes put on the wire are pinned down: strings are escaped
//! the way the JSON serializer in use prints them — two-character escapes
//! for the quote, the backslash and the common control characters, a
//! `\u00` escape for the remaining control characters.

use crate::content::ContactForm;
use crate::ext::push_char;
use crate::text::dec_digit;
use vstd::prelude::*;

verus! {

/// Lower-case hexadecimal digit for a value below sixteen.
pub open spec fn hex_digit(n: int) -> char {
    if n < 10 {
        dec_digit(n)
    } else if n == 10 {
        'a'
    } else if n == 11 {
        'b'
    } else if n == 12 {
        'c'
    } else if n == 13 {
        'd'
    } else if n == 14 {
        'e'
    } else {
        'f'
    }
}

fn hex_digit_exec(n: u32) -> (c: char)
    requires
        n < 16,
    ensures
        c == hex_digit(n as int),
{
    if n == 0 {
        '0'
    } else if n == 1 {
        '1'
    } else if n == 2 {
        '2'
    } else if n == 3 {
        '3'
    } else if n == 4 {
        '4'
    } else if n == 5 {
        '5'
    } else if n == 6 {
        '6'
    } else if n == 7 {
        '7'
    } else if n == 8 {
        '8'
    } else if n == 9 {
        '9'
    } else if n == 10 {
        'a'
    } else if n == 11 {
        'b'
    } else if n == 12 {
        'c'
    } else if n == 13 {
        'd'
    } else if n == 14 {
        'e'
    } else {
        'f'
    }
}

/// How one character appears inside a JSON string literal.
pub open spec fn escaped_char(c: char) -> Seq<char> {
    if c == '"' {
        seq!['\\', '"']
    } else if c == '\\' {
        seq!['\\', '\\']
    } else if c == '\u{8}' {
        seq!['\\', 'b']
    } else if c == '\t' {
        seq!['\\', 't']
    } else if c == '\n' {
        seq!['\\', 'n']
    } else if c == '\u{c}' {
        seq!['\\', 'f']
    } else if c == '\r' {
        seq!['\\', 'r']
    } else if (c as u32) < 0x20 {
        seq![
            '\\',
            'u',
            '0',
            '0',
            hex_digit(((c as u32) as int) / 16),
            hex_digit(((c as u32) as int) % 16),
        ]
    } else {
        seq![c]
    }
}

/// A whole text escaped character by character.
pub open spec fn escaped_text(s: Seq<char>) -> Seq<char>
    decreases s.len(),
{
    if s.len() == 0 {
        Seq::empty()
    } else {
        escaped_char(s[0]) + escaped_text(s.skip(1))
    }
}

proof fn lemma_escaped_text_push(s: Seq<char>, c: char)
    ensures
        escaped_text(s.push(c)) == escaped_text(s) + escaped_char(c),
    decreases s.len(),
{
    if s.len() == 0 {
        assert(s.push(c).skip(1) =~= Seq::<char>::empty());
        assert(escaped_text(Seq::<char>::empty()) == Seq::<char>::empty());
        assert(s =~= Seq::<char>::empty());
        assert(escaped_text(s.push(c)) == escaped_char(c) + Seq::<char>::empty());
        assert(escaped_text(s.push(c)) =~= escaped_text(s) + escaped_char(c));
    } else {
        assert(s.push(c).skip(1) =~= s.skip(1).push(c));
        lemma_escaped_text_push(s.skip(1), c);
        assert(escaped_char(s[0]) + (escaped_text(s.skip(1)) + escaped_char(c)) =~= (escaped_char(
            s[0],
        ) + escaped_text(s.skip(1))) + escaped_char(c));
    }
}

/// A JSON string literal: the escaped text between double quotes.
pub open spec fn json_string(s: Seq<char>) -> Seq<char> {
    seq!['"'] + escaped_text(s) + seq!['"']
}

fn append_escaped_char(out: &mut String, c: char)
    ensures
        final(out)@ == old(out)@ + escaped_char(c),
{
    if c == '"' {
        push_char(out, '\\');
        push_char(out, '"');
        assert(old(out)@.push('\\').push('"') =~= old(out)@ + escaped_char(c));
    } else if c == '\\' {
        push_char(out, '\\');
        push_char(out, '\\');
        assert(old(out)@.push('\\').push('\\') =~= old(out)@ + escaped_char(c));
    } else if c == '\u{8}' {
        push_char(out, '\\');
        push_char(out, 'b');
        assert(old(out)@.push('\\').push('b') =~= old(out)@ + escaped_char(c));
    } else if c == '\t' {
        push_char(out, '\\');
        push_char(out, 't');
        assert(old(out)@.push('\\').push('t') =~= old(out)@ + escaped_char(c));
    } else if c == '\n' {
        push_char(out, '\\');
        push_char(out, 'n');
        assert(old(out)@.push('\\').push('n') =~= old(out)@ + escaped_char(c));
    } else if c == '\u{c}' {
        push_char(out, '\\');
        push_char(out, 'f');
        assert(old(out)@.push('\\').push('f') =~= old(out)@ + escaped_char(c));
    } else if c == '\r' {
        push_char(out, '\\');
        push_char(out, 'r');
        assert(old(out)@.push('\\').push('r') =~= old(out)@ + escaped_char(c));
    } else if (c as u32) < 0x20 {
        let scalar: u32 = c as u32;
        push_char(out, '\\');
        push_char(out, 'u');
        push_char(out, '0');
        push_char(out, '0');
        let high = hex_digit_exec(scalar / 16);
        push_char(out, high);
        let low = hex_digit_exec(scalar % 16);
        push_char(out, low);
        assert(old(out)@.push('\\').push('u').push('0').push('0').push(high).push(low) =~= old(
            out,
        )@ + escaped_char(c));
    } else {
        push_char(out, c);
        assert(old(out)@.push(c) =~= old(out)@ + escaped_char(c));
    }
}

fn append_escaped(out: &mut String, s: &str)
    ensures
        final(out)@ == old(out)@ + escaped_text(s@),
{
    let len = s.unicode_len();
    let mut i: usize = 0;
    proof {
        assert(s@.take(0) =~= Seq::<char>::empty());
        assert(old(out)@ + escaped_text(s@.take(0)) =~= old(out)@);
    }
    while i < len
        invariant
            i <= len,
            len == s@.len(),
            out@ == old(out)@ + escaped_text(s@.take(i as int)),
        decreases len - i,
    {
        let c = s.get_char(i);
        append_escaped_char(out, c);
        proof {
            assert(s@.take(i + 1) =~= s@.take(i as int).push(s@[i as int]));
            lemma_escaped_text_push(s@.take(i as int), s@[i as int]);
            assert((old(out)@ + escaped_text(s@.take(i as int))) + escaped_char(s@[i as int]) =~= old(
                out,
            )@ + escaped_text(s@.take(i + 1)));
        }
        i = i + 1;
    }
    proof {
        assert(s@.take(len as int) =~= s@);
    }
}

/// Appends `s` to `out` as a JSON string literal.
fn append_json_string(out: &mut String, s: &str)
    ensures
        final(out)@ == old(out)@ + json_string(s@),
{
    push_char(out, '"');
    append_escaped(out, s);
    push_char(out, '"');
    assert((old(out)@.push('"') + escaped_text(s@)).push('"') =~= old(out)@ + json_string(s@));
}

/// The request body for a contact submission: a JSON object with the four
/// form fields, in the order they are declared.
pub open spec fn contact_body(f: ContactForm) -> Seq<char> {
    seq!['{'] + json_string("name"@) + seq![':'] + json_string(f.name@) + seq![','] + json_string(
        "email"@,
    ) + seq![':'] + json_string(f.email@) + seq![','] + json_string("phone"@) + seq![':']
        + json_string(f.phone@) + seq![','] + json_string("message"@) + seq![':'] + json_string(
        f.message@,
    ) + seq!['}']
}

/// Frames the contact form as the JSON body the submission endpoint takes.
pub fn contact_body_json(f: &ContactForm) -> (r: String)
    ensures
        r@ == contact_body(*f),
{
    let mut out = String::new();
    push_char(&mut out, '{');
    append_json_string(&mut out, "name");
    push_char(&mut out, ':');
    append_json_string(&mut out, f.name.as_str());
    push_char(&mut out, ',');
    append_json_string(&mut out, "email");
    push_char(&mut out, ':');
    append_json_string(&mut out, f.email.as_str());
    push_char(&mut out, ',');
    append_json_string(&mut out, "phone");
    push_char(&mut out, ':');
    append_json_string(&mut out, f.phone.as_str());
    push_char(&mut out, ',');
    append_json_string(&mut out, "message");
    push_char(&mut out, ':');
    append_json_string(&mut out, f.message.as_str());
    push_char(&mut out, '}');
    assert(out@ =~= contact_body(*f));
    out
}

} // verus!
