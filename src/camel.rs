use vstd::prelude::*;

verus! {

/// The upper-case form of an ASCII letter; every other character is unchanged.
pub open spec fn ascii_upper_spec(c: char) -> char {
    if 'a' <= c && c <= 'z' {
        ((c as u32 - 32) as u8) as char
    } else {
        c
    }
}

/// Camel case of `s`: underscores are dropped, and the first character of each
/// word (the start of `s` when `at_word_start`, and whatever follows an
/// underscore) is upper-cased.
pub open spec fn camel_spec(s: Seq<char>, at_word_start: bool) -> Seq<char>
    decreases s.len(),
{
    if s.len() == 0 {
        Seq::empty()
    } else if s[0] == '_' {
        camel_spec(s.drop_first(), true)
    } else if at_word_start {
        seq![ascii_upper_spec(s[0])] + camel_spec(s.drop_first(), false)
    } else {
        seq![s[0]] + camel_spec(s.drop_first(), false)
    }
}

fn ascii_upper(c: char) -> (r: char)
    ensures
        r == ascii_upper_spec(c),
{
    if 'a' <= c && c <= 'z' {
        ((c as u8) - 32) as char
    } else {
        c
    }
}

/// Relies on String::push: the character is appended at the end.
#[verifier::external_body]
fn push_char(s: &mut String, c: char)
    ensures
        final(s)@ == old(s)@.push(c),
{
    s.push(c)
}

/// Turns a `snake_case` name into `CamelCase`, the form D-Bus gives to member
/// names: underscores are dropped and each word starts with an upper-case letter.
pub fn to_camel(term: &str) -> (result: String)
    ensures
        result@ == camel_spec(term@, true),
{
    let mut result = String::new();
    let mut at_new_word = true;
    assert(term@.skip(0) =~= term@);
    assert(result@ + camel_spec(term@, true) =~= camel_spec(term@, true));
    for c in it: term.chars()
        invariant
            it.seq() == term@,
            result@ + camel_spec(term@.skip(it.index() as int), at_new_word) == camel_spec(
                term@,
                true,
            ),
    {
        let ghost rest = term@.skip(it.index() as int);
        assert(rest[0] == c && rest.drop_first() =~= term@.skip(it.index() + 1));
        if c == '_' {
            at_new_word = true;
        } else if at_new_word {
            let ghost before = result@;
            push_char(&mut result, ascii_upper(c));
            assert(before + camel_spec(rest, true) =~= result@ + camel_spec(rest.drop_first(), false));
            at_new_word = false;
        } else {
            let ghost before = result@;
            push_char(&mut result, c);
            assert(before + camel_spec(rest, false) =~= result@ + camel_spec(rest.drop_first(), false));
        }
    }
    assert(result@ + camel_spec(term@.skip(term@.len() as int), at_new_word) =~= result@);
    result
}

} // verus!
