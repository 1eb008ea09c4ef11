//! Reading the wire form of a convert operation back.

use vstd::prelude::*;
use crate::convert::convert_json;
use crate::convert::mime_list;
use crate::convert::quoted_mime;
use crate::convert::type_field;
use crate::convert::Convert;
use crate::convert::ConvertView;
use crate::convert::Type;
use crate::text::chars_of;

verus! {

/// The convert operation that a text is the wire form of, if it is the wire
/// form of any with at least one candidate type.
pub open spec fn read_convert(text: Seq<char>) -> Option<ConvertView> {
    if exists|c: ConvertView| c.valid() && convert_json(c) == text {
        Some(choose|c: ConvertView| c.valid() && convert_json(c) == text)
    } else {
        None
    }
}

/// Whether `word` stands in `text` at the position `at`.
spec fn has_at(text: Seq<char>, at: int, word: Seq<char>) -> bool {
    0 <= at && at + word.len() <= text.len() && text.subrange(at, at + word.len()) == word
}

/// The image type whose MIME name, as a JSON string, stands at `at`.
spec fn type_at(text: Seq<char>, at: int) -> Option<Type> {
    if has_at(text, at, quoted_mime(Type::Png)) {
        Some(Type::Png)
    } else if has_at(text, at, quoted_mime(Type::Jpeg)) {
        Some(Type::Jpeg)
    } else if has_at(text, at, quoted_mime(Type::Webp)) {
        Some(Type::Webp)
    } else if has_at(text, at, quoted_mime(Type::WildCard)) {
        Some(Type::WildCard)
    } else {
        None
    }
}

/// The types of the list that runs from `at` to the end of the text, where
/// the list, the closing bracket and the closing brace are all that is left.
spec fn items_at(text: Seq<char>, at: int) -> Option<Seq<Type>>
    decreases text.len() - at,
{
    match type_at(text, at) {
        None => None,
        Some(t) => {
            let next = at + quoted_mime(t).len();
            if next + 2 == text.len() && text[next] == ']' && text[next + 1] == '}' {
                Some(seq![t])
            } else if next < text.len() && text[next] == ',' {
                match items_at(text, next + 1) {
                    Some(more) => Some(seq![t] + more),
                    None => None,
                }
            } else {
                None
            }
        },
    }
}

/// The convert operation that the text spells out: one bare type, or an
/// array of two types or more.
spec fn parsed(text: Seq<char>) -> Option<ConvertView> {
    let head = "{\"type\":"@;
    if !has_at(text, 0, head) {
        None
    } else {
        let at = head.len() as int;
        match type_at(text, at) {
            Some(t) => {
                let next = at + quoted_mime(t).len();
                if next + 1 == text.len() && text[next] == '}' {
                    Some(ConvertView { types: seq![t] })
                } else {
                    None
                }
            },
            None => {
                if at < text.len() && text[at] == '[' {
                    match items_at(text, at + 1) {
                        Some(types) => if types.len() >= 2 {
                            Some(ConvertView { types })
                        } else {
                            None
                        },
                        None => None,
                    }
                } else {
                    None
                }
            },
        }
    }
}

/// What tells the four MIME names, as JSON strings, apart.
proof fn lemma_quoted_mime_chars()
    ensures
        quoted_mime(Type::Png).len() == 11,
        quoted_mime(Type::Jpeg).len() == 12,
        quoted_mime(Type::Webp).len() == 12,
        quoted_mime(Type::WildCard).len() == 5,
        forall|t: Type| (#[trigger] quoted_mime(t))[0] == '"',
        quoted_mime(Type::WildCard)[1] == '*',
        quoted_mime(Type::Png)[1] == 'i',
        quoted_mime(Type::Jpeg)[1] == 'i',
        quoted_mime(Type::Webp)[1] == 'i',
        quoted_mime(Type::Png)[7] == 'p',
        quoted_mime(Type::Jpeg)[7] == 'j',
        quoted_mime(Type::Webp)[7] == 'w',
{
    reveal_strlit("\"");
    reveal_strlit("image/png");
    reveal_strlit("image/jpeg");
    reveal_strlit("image/webp");
    reveal_strlit("*/*");
}

/// Where a word stands in a text, the text has the characters of the word.
proof fn lemma_has_at_chars(text: Seq<char>, at: int, word: Seq<char>)
    requires
        has_at(text, at, word),
    ensures
        forall|k: int| 0 <= k < word.len() ==> text[at + k] == #[trigger] word[k],
{
    assert forall|k: int| 0 <= k < word.len() implies text[at + k] == #[trigger] word[k] by {
        assert(text.subrange(at, at + word.len())[k] == text[at + k]);
    }
}

/// At one position at most one type can be read, and where one can be read
/// the text has a quotation mark.
proof fn lemma_one_type_at(text: Seq<char>, at: int, t: Type)
    requires
        has_at(text, at, quoted_mime(t)),
    ensures
        type_at(text, at) == Some(t),
        text[at] == '"',
{
    lemma_quoted_mime_chars();
    lemma_has_at_chars(text, at, quoted_mime(t));
    assert(text[at + 0] == quoted_mime(t)[0]);
    assert(text[at + 1] == quoted_mime(t)[1]);
    if t != Type::WildCard {
        assert(text[at + 7] == quoted_mime(t)[7]);
    }
    assert forall|u: Type| u != t implies !has_at(text, at, #[trigger] quoted_mime(u)) by {
        if has_at(text, at, quoted_mime(u)) {
            lemma_has_at_chars(text, at, quoted_mime(u));
            assert(text[at + 1] == quoted_mime(u)[1]);
            if u != Type::WildCard {
                assert(text[at + 7] == quoted_mime(u)[7]);
            }
        }
    }
}

/// A list of two types or more begins with its first type and a comma.
proof fn lemma_mime_list_front(t: Type, rest: Seq<Type>)
    requires
        rest.len() >= 1,
    ensures
        mime_list(seq![t] + rest) =~= quoted_mime(t) + ","@ + mime_list(rest),
    decreases rest.len(),
{
    let whole = seq![t] + rest;
    assert(whole.last() == rest.last());
    if rest.len() == 1 {
        assert(whole.drop_last() =~= seq![t]);
        assert(mime_list(seq![t]) == quoted_mime(t));
    } else {
        assert(whole.drop_last() =~= seq![t] + rest.drop_last());
        lemma_mime_list_front(t, rest.drop_last());
    }
}

/// The single characters that frame a wire form.
proof fn lemma_frame_chars()
    ensures
        ","@ =~= seq![','],
        "["@ =~= seq!['['],
        "]"@ =~= seq![']'],
        "}"@ =~= seq!['}'],
{
    reveal_strlit(",");
    reveal_strlit("[");
    reveal_strlit("]");
    reveal_strlit("}");
}

/// Where a type is read, its MIME name stands as a JSON string.
proof fn lemma_type_at_stands(text: Seq<char>, at: int)
    requires
        type_at(text, at) is Some,
    ensures
        has_at(text, at, quoted_mime(type_at(text, at).unwrap())),
{
}

/// What is read as a list is the wire form of that list.
proof fn lemma_items_sound(text: Seq<char>, at: int)
    requires
        items_at(text, at) is Some,
    ensures
        items_at(text, at).unwrap().len() >= 1,
        0 <= at <= text.len(),
        text.subrange(at, text.len() as int) =~= mime_list(items_at(text, at).unwrap()) + "]"@
            + "}"@,
    decreases text.len() - at,
{
    lemma_frame_chars();
    lemma_type_at_stands(text, at);
    let t = type_at(text, at).unwrap();
    let word = quoted_mime(t);
    let next = at + word.len();
    let end = text.len() as int;
    assert(text.subrange(at, end) =~= word + text.subrange(next, end));
    if next + 2 == text.len() && text[next] == ']' && text[next + 1] == '}' {
        assert(text.subrange(next, end) =~= "]"@ + "}"@);
        assert(mime_list(seq![t]) == word);
    } else {
        let more = items_at(text, next + 1).unwrap();
        lemma_items_sound(text, next + 1);
        lemma_mime_list_front(t, more);
        assert(text.subrange(next, end) =~= ","@ + text.subrange(next + 1, end));
    }
}

/// The wire form of a list is read as that list.
proof fn lemma_items_complete(text: Seq<char>, at: int, types: Seq<Type>)
    requires
        0 <= at <= text.len(),
        types.len() >= 1,
        text.subrange(at, text.len() as int) =~= mime_list(types) + "]"@ + "}"@,
    ensures
        items_at(text, at) == Some(types),
    decreases types.len(),
{
    lemma_frame_chars();
    let t = types[0];
    let word = quoted_mime(t);
    let n = word.len() as int;
    let next = at + n;
    let end = text.len() as int;
    let tail = text.subrange(at, end);
    if types.len() == 1 {
        assert(mime_list(types) == word);
        assert(tail.len() == n + 2);
        assert(text.subrange(at, next) =~= tail.subrange(0, n));
        assert(tail.subrange(0, n) =~= word);
        lemma_one_type_at(text, at, t);
        assert(tail[n] == ']');
        assert(tail[n + 1] == '}');
        assert(text[next] == tail[n]);
        assert(text[next + 1] == tail[n + 1]);
        assert(types =~= seq![t]);
    } else {
        let rest = types.drop_first();
        assert(types =~= seq![t] + rest);
        lemma_mime_list_front(t, rest);
        assert(tail =~= word + ","@ + mime_list(rest) + "]"@ + "}"@);
        assert(text.subrange(at, next) =~= tail.subrange(0, n));
        assert(tail.subrange(0, n) =~= word);
        lemma_one_type_at(text, at, t);
        assert(tail[n] == ',');
        assert(text[next] == tail[n]);
        assert(text.subrange(next + 1, end) =~= tail.subrange(n + 1, tail.len() as int));
        assert(tail.subrange(n + 1, tail.len() as int) =~= mime_list(rest) + "]"@ + "}"@);
        lemma_items_complete(text, next + 1, rest);
    }
}

/// What is read as a convert operation has the text as its wire form.
proof fn lemma_parsed_sound(text: Seq<char>)
    requires
        parsed(text) is Some,
    ensures
        parsed(text).unwrap().valid(),
        convert_json(parsed(text).unwrap()) == text,
{
    lemma_frame_chars();
    lemma_quoted_mime_chars();
    let head = "{\"type\":"@;
    let at = head.len() as int;
    let end = text.len() as int;
    let c = parsed(text).unwrap();
    assert(text =~= head + text.subrange(at, end));
    match type_at(text, at) {
        Some(t) => {
            lemma_type_at_stands(text, at);
            let next = at + quoted_mime(t).len();
            assert(text.subrange(at, end) =~= quoted_mime(t) + "}"@);
            assert(c.types =~= seq![t]);
            assert(type_field(c.types) == quoted_mime(t));
            assert(convert_json(c) =~= text);
        },
        None => {
            lemma_items_sound(text, at + 1);
            assert(text.subrange(at, end) =~= "["@ + text.subrange(at + 1, end));
            assert(convert_json(c) =~= text);
        },
    }
}

/// The wire form of a convert operation is read as that operation.
proof fn lemma_parsed_complete(c: ConvertView)
    requires
        c.valid(),
    ensures
        parsed(convert_json(c)) == Some(c),
{
    lemma_frame_chars();
    lemma_quoted_mime_chars();
    let head = "{\"type\":"@;
    let at = head.len() as int;
    let text = convert_json(c);
    let end = text.len() as int;
    assert(text.subrange(0, at) =~= head);
    if c.types.len() == 1 {
        let t = c.types[0];
        let word = quoted_mime(t);
        assert(text =~= head + word + "}"@);
        assert(text.subrange(at, at + word.len()) =~= word);
        lemma_one_type_at(text, at, t);
        assert(text[at + word.len()] == '}');
        assert(c.types =~= seq![t]);
    } else {
        assert(text =~= head + "["@ + mime_list(c.types) + "]"@ + "}"@);
        assert(text[at] == '[');
        if type_at(text, at) is Some {
            lemma_type_at_stands(text, at);
            lemma_one_type_at(text, at, type_at(text, at).unwrap());
        }
        assert(text.subrange(at + 1, end) =~= mime_list(c.types) + "]"@ + "}"@);
        lemma_items_complete(text, at + 1, c.types);
    }
}

/// The text is read as the one convert operation that it is the wire form
/// of, and as none where it is the wire form of none.
proof fn lemma_parsed_is_read(text: Seq<char>)
    ensures
        parsed(text) == read_convert(text),
{
    if exists|c: ConvertView| c.valid() && convert_json(c) == text {
        let c = choose|c: ConvertView| c.valid() && convert_json(c) == text;
        lemma_parsed_complete(c);
    } else {
        if parsed(text) is Some {
            lemma_parsed_sound(text);
        }
    }
}

/// A convert operation with at least one candidate type is read back from
/// its wire form as it was: a single type from the bare string, several
/// types from the array, in their order.
pub proof fn law_convert_round_trip(convert: ConvertView)
    requires
        convert.valid(),
    ensures
        read_convert(convert_json(convert)) == Some(convert),
{
    lemma_parsed_complete(convert);
    lemma_parsed_is_read(convert_json(convert));
}

/// Two convert operations with the same wire form are the same: the number
/// of candidate types can be told from the wire form.
pub proof fn law_wire_form_tells_converts_apart(first: ConvertView, second: ConvertView)
    requires
        first.valid(),
        second.valid(),
        convert_json(first) == convert_json(second),
    ensures
        first == second,
        first.types.len() == second.types.len(),
{
    lemma_parsed_complete(first);
    lemma_parsed_complete(second);
}

/// Whether `word` stands in `text` at the position `at`.
fn stands_at(text: &Vec<char>, at: usize, word: &Vec<char>) -> (r: bool)
    ensures
        r == has_at(text@, at as int, word@),
{
    if at > text.len() || word.len() > text.len() - at {
        return false;
    }
    let mut k: usize = 0;
    while k < word.len()
        invariant
            at + word.len() <= text.len(),
            k <= word.len(),
            forall|j: int| 0 <= j < k ==> text@[at + j] == word@[j],
        decreases word.len() - k,
    {
        if text[at + k] != word[k] {
            proof {
                assert(text@.subrange(at as int, at + word.len())[k as int] == text@[at + k]);
            }
            return false;
        }
        k = k + 1;
    }
    proof {
        assert(text@.subrange(at as int, at + word.len()) =~= word@);
    }
    true
}

/// The MIME name of a type as a JSON string, character by character.
fn quoted_chars(t: Type) -> (r: Vec<char>)
    ensures
        r@ == quoted_mime(t),
{
    let mut out = String::new();
    t.write_quoted(&mut out);
    assert(out@ =~= quoted_mime(t));
    chars_of(out.as_str())
}

/// Whether the MIME name of `t` stands at `at` as a JSON string; if so,
/// with the position behind it.
fn quoted_here(text: &Vec<char>, at: usize, t: Type) -> (r: Option<usize>)
    ensures
        match r {
            Some(next) => has_at(text@, at as int, quoted_mime(t)) && next == at + quoted_mime(
                t,
            ).len(),
            None => !has_at(text@, at as int, quoted_mime(t)),
        },
{
    let word = quoted_chars(t);
    if stands_at(text, at, &word) {
        assert(at + word.len() <= text.len());
        Some(at + word.len())
    } else {
        None
    }
}

/// The type that is read at `at`, with the position behind it.
fn type_here(text: &Vec<char>, at: usize) -> (r: Option<(Type, usize)>)
    ensures
        match r {
            Some((t, next)) => type_at(text@, at as int) == Some(t) && next == at + quoted_mime(
                t,
            ).len() && next <= text.len(),
            None => type_at(text@, at as int) is None,
        },
{
    if let Some(next) = quoted_here(text, at, Type::Png) {
        Some((Type::Png, next))
    } else if let Some(next) = quoted_here(text, at, Type::Jpeg) {
        Some((Type::Jpeg, next))
    } else if let Some(next) = quoted_here(text, at, Type::Webp) {
        Some((Type::Webp, next))
    } else if let Some(next) = quoted_here(text, at, Type::WildCard) {
        Some((Type::WildCard, next))
    } else {
        None
    }
}

/// The types of the list that runs from `at` to the end of the text.
fn items_here(text: &Vec<char>, at: usize) -> (r: Option<Vec<Type>>)
    ensures
        match r {
            Some(types) => items_at(text@, at as int) == Some(types@),
            None => items_at(text@, at as int) is None,
        },
{
    let mut types: Vec<Type> = Vec::new();
    let mut pos: usize = at;
    assert(types@ + items_at(text@, at as int).unwrap() =~= items_at(text@, at as int).unwrap());
    loop
        invariant
            items_at(text@, at as int) == match items_at(text@, pos as int) {
                Some(more) => Some(types@ + more),
                None => None,
            },
        decreases text.len() - pos,
    {
        match type_here(text, pos) {
            None => {
                return None;
            },
            Some((t, next)) => {
                let left: usize = text.len() - next;
                if left == 2 && text[next] == ']' && text[next + 1] == '}' {
                    types.push(t);
                    proof {
                        assert(types@ =~= types@.drop_last() + seq![t]);
                    }
                    return Some(types);
                } else if left >= 1 && text[next] == ',' {
                    proof {
                        if items_at(text@, next + 1) is Some {
                            let more = items_at(text@, next + 1).unwrap();
                            assert(types@.push(t) + more =~= types@ + (seq![t] + more));
                        }
                    }
                    types.push(t);
                    pos = next + 1;
                } else {
                    return None;
                }
            },
        }
    }
}

impl Convert {
    /// Reads a convert operation from its wire form: one image type from a
    /// bare string, two or more from an array. Any other text is not a wire
    /// form and gives nothing.
    pub fn from_json(text: &str) -> (r: Option<Convert>)
        ensures
            match r {
                Some(convert) => read_convert(text@) == Some(convert@),
                None => read_convert(text@) is None,
            },
    {
        proof {
            lemma_parsed_is_read(text@);
        }
        let chars = chars_of(text);
        let head = chars_of("{\"type\":");
        if !stands_at(&chars, 0, &head) {
            return None;
        }
        let at: usize = head.len();
        match type_here(&chars, at) {
            Some((t, next)) => {
                if chars.len() - next == 1 && chars[next] == '}' {
                    let mut types: Vec<Type> = Vec::new();
                    types.push(t);
                    assert(types@ =~= seq![t]);
                    Some(Convert { types })
                } else {
                    None
                }
            },
            None => {
                if at < chars.len() && chars[at] == '[' {
                    match items_here(&chars, at + 1) {
                        Some(types) => if types.len() >= 2 {
                            Some(Convert { types })
                        } else {
                            None
                        },
                        None => None,
                    }
                } else {
                    None
                }
            },
        }
    }
}

} // verus!
