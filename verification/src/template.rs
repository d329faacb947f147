//! Placeholder substitution for head templates.
//!
//! A placeholder is a `%`, a key made of any characters but `%`, and a
//! closing `%`. The template is read once from left to right: each
//! placeholder gives way to the value that the fields hold under its key,
//! as text, or to nothing where they hold none. A string goes in as it is,
//! a number as it is printed, a boolean as `true` or `false`. What is put in
//! is never read again, and a `%` that nothing closes stays where it is with
//! all that follows it.

use crate::metadata::{field, fields_of, flatten, flattened, Field};
use crate::text::{string_of, to_chars};
use vstd::prelude::*;

verus! {

/// How many characters stand in `s` before its first `%`; the whole length
/// where it has none.
pub open spec fn key_length(s: Seq<char>) -> nat
    decreases s.len(),
{
    if s.len() == 0 || s[0] == '%' {
        0
    } else {
        1 + key_length(s.skip(1))
    }
}

/// The text that stands in for the placeholder of `key`: the value held
/// under that exact key, as text, and nothing where the key is missing.
pub open spec fn substitute(fields: Map<Seq<char>, Field>, key: Seq<char>) -> Seq<char> {
    match fields.get(key) {
        Some(field) => flattened(field),
        None => Seq::empty(),
    }
}

/// `template` with every placeholder replaced.
pub open spec fn expand(template: Seq<char>, fields: Map<Seq<char>, Field>) -> Seq<char>
    decreases template.len(),
{
    if template.len() == 0 {
        template
    } else if template[0] != '%' {
        seq![template[0]] + expand(template.skip(1), fields)
    } else {
        let rest = template.skip(1);
        let n = key_length(rest) as int;
        if n >= rest.len() {
            template
        } else {
            substitute(fields, rest.take(n)) + expand(rest.skip(n + 1), fields)
        }
    }
}

/// The index of the first `%` of `chars` at or after `from`; the length where
/// there is none.
fn key_end(chars: &Vec<char>, from: usize) -> (end: usize)
    requires
        from <= chars.len(),
    ensures
        from <= end <= chars.len(),
        end - from == key_length(chars@.skip(from as int)),
{
    let mut end: usize = from;
    while end < chars.len() && chars[end] != '%'
        invariant
            from <= end <= chars.len(),
            key_length(chars@.skip(from as int)) == (end - from) + key_length(
                chars@.skip(end as int),
            ),
        decreases chars.len() - end,
    {
        assert(chars@.skip(end as int).skip(1) =~= chars@.skip(end + 1));
        end += 1;
    }
    end
}

/// Expands the head `template` against the header fields `args`.
///
/// Each `%key%` gives way to the value that `args` holds under `key`, as
/// text, or to nothing; the rest of the template is kept as it is.
pub fn generate_head_html(template: &str, args: serde_json::Map<String, serde_json::Value>) -> (head:
    String)
    ensures
        head@ == expand(template@, fields_of(args)),
{
    let chars = to_chars(template);
    let n: usize = chars.len();
    let ghost fields = fields_of(args);
    let mut head = String::new();
    let mut i: usize = 0;
    assert(chars@.skip(0) =~= chars@);
    assert(head@ + expand(chars@, fields) =~= expand(chars@, fields));
    while i < n
        invariant
            n == chars.len(),
            i <= n,
            fields == fields_of(args),
            head@ + expand(chars@.skip(i as int), fields) == expand(chars@, fields),
        decreases n - i,
    {
        let ghost rest = chars@.skip(i as int);
        let ghost before = head@;
        if chars[i] != '%' {
            head.push(chars[i]);
            proof {
                assert(rest.skip(1) =~= chars@.skip(i + 1));
                assert(head@ + expand(chars@.skip(i + 1), fields) =~= before + expand(rest, fields));
            }
            i += 1;
        } else {
            let end = key_end(&chars, i + 1);
            proof {
                assert(rest.skip(1) =~= chars@.skip(i + 1));
            }
            if end == n {
                let tail = string_of(&chars, i, n);
                head.append(tail.as_str());
                proof {
                    assert(chars@.subrange(i as int, n as int) =~= rest);
                    assert(expand(chars@.skip(n as int), fields) =~= Seq::<char>::empty());
                    assert(head@ + expand(chars@.skip(n as int), fields) =~= before + expand(
                        rest,
                        fields,
                    ));
                }
                i = n;
            } else {
                let key = string_of(&chars, i + 1, end);
                proof {
                    assert(key@ =~= rest.skip(1).take(end - (i + 1)));
                    assert(rest.skip(1).skip(end - (i + 1) + 1) =~= chars@.skip(end + 1));
                }
                match field(&args, key.as_str()) {
                    Some(value) => {
                        let text = flatten(value);
                        head.append(text.as_str());
                    },
                    None => {},
                }
                proof {
                    assert(head@ =~= before + substitute(fields, key@));
                    assert(head@ + expand(chars@.skip(end + 1), fields) =~= before + expand(
                        rest,
                        fields,
                    ));
                }
                i = end + 1;
            }
        }
    }
    assert(expand(chars@.skip(n as int), fields) =~= Seq::<char>::empty());
    assert(head@ + Seq::<char>::empty() =~= head@);
    head
}

/// Whether `s` holds no `%`.
pub open spec fn is_plain(s: Seq<char>) -> bool {
    forall|i: int| 0 <= i < s.len() ==> s[i] != '%'
}

/// The placeholder of `key`: the key between two `%`.
pub open spec fn placeholder(key: Seq<char>) -> Seq<char> {
    seq!['%'] + key + seq!['%']
}

proof fn lemma_key_length_before_delimiter(key: Seq<char>, rest: Seq<char>)
    requires
        is_plain(key),
    ensures
        key_length(key + seq!['%'] + rest) == key.len(),
    decreases key.len(),
{
    let s = key + seq!['%'] + rest;
    if key.len() == 0 {
        assert(s[0] == '%');
    } else {
        assert(s[0] == key[0]);
        assert(s.skip(1) =~= key.skip(1) + seq!['%'] + rest);
        assert forall|i: int| 0 <= i < key.skip(1).len() implies key.skip(1)[i] != '%' by {
            assert(key.skip(1)[i] == key[i + 1]);
        }
        lemma_key_length_before_delimiter(key.skip(1), rest);
    }
}

/// Text without `%` at the front of a template is kept as it is, and
/// expansion goes on behind it.
pub proof fn lemma_expand_after_plain_text(
    text: Seq<char>,
    rest: Seq<char>,
    fields: Map<Seq<char>, Field>,
)
    requires
        is_plain(text),
    ensures
        expand(text + rest, fields) == text + expand(rest, fields),
    decreases text.len(),
{
    if text.len() == 0 {
        assert(text + rest =~= rest);
        assert(text + expand(rest, fields) =~= expand(rest, fields));
    } else {
        let whole = text + rest;
        assert(whole[0] == text[0]);
        assert(whole.skip(1) =~= text.skip(1) + rest);
        assert forall|i: int| 0 <= i < text.skip(1).len() implies text.skip(1)[i] != '%' by {
            assert(text.skip(1)[i] == text[i + 1]);
        }
        lemma_expand_after_plain_text(text.skip(1), rest, fields);
        assert(seq![text[0]] + (text.skip(1) + expand(rest, fields)) =~= text + expand(
            rest,
            fields,
        ));
    }
}

/// A placeholder at the front of a template gives way to the value held
/// under its key, as text, and expansion goes on behind it. The text that
/// was put in is not expanded again.
pub proof fn lemma_expand_placeholder(
    key: Seq<char>,
    rest: Seq<char>,
    fields: Map<Seq<char>, Field>,
)
    requires
        is_plain(key),
    ensures
        expand(placeholder(key) + rest, fields) == substitute(fields, key) + expand(rest, fields),
{
    let whole = placeholder(key) + rest;
    let tail = whole.skip(1);
    assert(whole[0] == '%');
    assert(tail =~= key + seq!['%'] + rest);
    lemma_key_length_before_delimiter(key, rest);
    assert(tail.take(key.len() as int) =~= key);
    assert(tail.skip(key.len() as int + 1) =~= rest);
}

/// A template without `%` expands to itself.
pub proof fn lemma_expand_plain_text(text: Seq<char>, fields: Map<Seq<char>, Field>)
    requires
        is_plain(text),
    ensures
        expand(text, fields) == text,
{
    lemma_expand_after_plain_text(text, Seq::empty(), fields);
    assert(text + Seq::<char>::empty() =~= text);
}

/// A placeholder whose key the fields do not hold expands to nothing:
/// expansion does not fail on an unknown key.
pub proof fn lemma_unknown_key_expands_to_nothing(key: Seq<char>, fields: Map<Seq<char>, Field>)
    requires
        is_plain(key),
        !fields.contains_key(key),
    ensures
        expand(placeholder(key), fields) == Seq::<char>::empty(),
{
    lemma_expand_placeholder(key, Seq::empty(), fields);
    assert(placeholder(key) + Seq::<char>::empty() =~= placeholder(key));
}

} // verus!
