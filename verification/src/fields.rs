//! The splitting rules: the fields of a struct body, the arguments of an
//! argument list, and the variants of an error enumeration.

use vstd::prelude::*;
use crate::model::{ArgumentInfo, ErrorInfo, ErrorModel, FieldInfo, TypedName};
use crate::text::{
    begins_with, cut_once, first_token, first_word, last_token, last_word, lines, lines_of, pieces,
    split, split_once, starts_with, trim, trimmed,
};

verus! {

/// The number of the first error variant.
pub const ERROR_CODE_BASE: u32 = 6000;

/// The field that a line of a struct body declares. A blank line and a
/// line that begins with `#` declare none, nor does a line without a
/// colon. The name is the last token before the first colon, which leaves
/// a visibility qualifier out; the type is all that follows the colon.
pub open spec fn field_of_line(line: Seq<char>) -> Option<TypedName> {
    let t = trimmed(line);
    if t.len() == 0 || begins_with(t, '#') {
        None
    } else {
        match cut_once(t, ':') {
            Some((head, tail)) => Some(TypedName { name: last_word(head), ty: trimmed(tail) }),
            None => None,
        }
    }
}

/// The fields that the lines declare, in their order.
pub open spec fn fields_of_lines(ls: Seq<Seq<char>>) -> Seq<TypedName>
    decreases ls.len(),
{
    if ls.len() == 0 {
        Seq::empty()
    } else {
        let front = fields_of_lines(ls.drop_last());
        match field_of_line(ls.last()) {
            Some(f) => front.push(f),
            None => front,
        }
    }
}

/// The fields that a struct body declares.
pub open spec fn fields_of(body: Seq<char>) -> Seq<TypedName> {
    fields_of_lines(lines_of(body))
}

/// The argument that a fragment of an argument list declares: name and
/// type stand before and after its first colon. A fragment without a colon
/// declares none.
pub open spec fn argument_of(fragment: Seq<char>) -> Option<TypedName> {
    match cut_once(trimmed(fragment), ':') {
        Some((head, tail)) => Some(TypedName { name: trimmed(head), ty: trimmed(tail) }),
        None => None,
    }
}

/// The arguments that the fragments declare, in their order.
pub open spec fn arguments_of_fragments(fs: Seq<Seq<char>>) -> Seq<TypedName>
    decreases fs.len(),
{
    if fs.len() == 0 {
        Seq::empty()
    } else {
        let front = arguments_of_fragments(fs.drop_last());
        match argument_of(fs.last()) {
            Some(a) => front.push(a),
            None => front,
        }
    }
}

/// The arguments of an argument list. The list is cut at every comma,
/// also at one inside a nested type.
pub open spec fn arguments_of(list: Seq<char>) -> Seq<TypedName> {
    if list.len() == 0 {
        Seq::empty()
    } else {
        arguments_of_fragments(pieces(list, ','))
    }
}

/// The variant that a line of an error enumeration names: the line's
/// first token. A blank line and a line that begins with `#` name none.
pub open spec fn variant_of_line(line: Seq<char>) -> Option<Seq<char>> {
    let t = trimmed(line);
    if t.len() == 0 || begins_with(t, '#') {
        None
    } else {
        Some(first_word(t))
    }
}

/// The variants that the lines name, in their order.
pub open spec fn variants_of_lines(ls: Seq<Seq<char>>) -> Seq<Seq<char>>
    decreases ls.len(),
{
    if ls.len() == 0 {
        Seq::empty()
    } else {
        let front = variants_of_lines(ls.drop_last());
        match variant_of_line(ls.last()) {
            Some(v) => front.push(v),
            None => front,
        }
    }
}

/// The error codes of the variants: they count up from `ERROR_CODE_BASE`,
/// and each message is the variant's name.
pub open spec fn numbered(names: Seq<Seq<char>>) -> Seq<ErrorModel> {
    Seq::new(
        names.len(),
        |i: int| ErrorModel { name: names[i], code: ERROR_CODE_BASE + i, message: names[i] },
    )
}

/// The error codes that the body of an error enumeration declares.
pub open spec fn error_codes_of(body: Seq<char>) -> Seq<ErrorModel> {
    numbered(variants_of_lines(lines_of(body)))
}

/// Reads one line of a struct body.
pub fn parse_field(line: &str) -> (r: Option<FieldInfo>)
    ensures
        r.deep_view() == field_of_line(line@),
{
    let t = trim(line);
    if t.as_str().is_empty() || starts_with(t.as_str(), '#') {
        return None;
    }
    match split_once(t.as_str(), ':') {
        Some((head, tail)) => Some(
            FieldInfo { name: last_token(head.as_str()), ty: trim(tail.as_str()) },
        ),
        None => None,
    }
}

/// Reads the fields of a struct body.
pub fn parse_fields(body: &str) -> (r: Vec<FieldInfo>)
    ensures
        r.deep_view() == fields_of(body@),
{
    let ls = lines(body);
    let mut out: Vec<FieldInfo> = Vec::new();
    let mut i: usize = 0;
    assert(ls.deep_view().take(0) =~= Seq::<Seq<char>>::empty());
    while i < ls.len()
        invariant
            i <= ls@.len(),
            out.deep_view() == fields_of_lines(ls.deep_view().take(i as int)),
        decreases ls@.len() - i,
    {
        let ghost before = out.deep_view();
        assert(ls.deep_view().take(i as int + 1).drop_last() =~= ls.deep_view().take(i as int));
        match parse_field(ls[i].as_str()) {
            Some(f) => {
                out.push(f);
                assert(out.deep_view() =~= before.push(f.deep_view()));
            },
            None => {},
        }
        i += 1;
    }
    assert(ls.deep_view().take(i as int) =~= ls.deep_view());
    out
}

/// Reads one fragment of an argument list.
pub fn parse_argument(fragment: &str) -> (r: Option<ArgumentInfo>)
    ensures
        r.deep_view() == argument_of(fragment@),
{
    let t = trim(fragment);
    match split_once(t.as_str(), ':') {
        Some((head, tail)) => Some(
            ArgumentInfo { name: trim(head.as_str()), ty: trim(tail.as_str()) },
        ),
        None => None,
    }
}

/// Reads the arguments of an argument list.
pub fn parse_arguments(list: &str) -> (r: Vec<ArgumentInfo>)
    ensures
        r.deep_view() == arguments_of(list@),
{
    let mut out: Vec<ArgumentInfo> = Vec::new();
    if list.is_empty() {
        assert(out.deep_view() =~= Seq::<TypedName>::empty());
        return out;
    }
    let fs = split(list, ',');
    let mut i: usize = 0;
    assert(fs.deep_view().take(0) =~= Seq::<Seq<char>>::empty());
    while i < fs.len()
        invariant
            i <= fs@.len(),
            out.deep_view() == arguments_of_fragments(fs.deep_view().take(i as int)),
        decreases fs@.len() - i,
    {
        let ghost before = out.deep_view();
        assert(fs.deep_view().take(i as int + 1).drop_last() =~= fs.deep_view().take(i as int));
        match parse_argument(fs[i].as_str()) {
            Some(a) => {
                out.push(a);
                assert(out.deep_view() =~= before.push(a.deep_view()));
            },
            None => {},
        }
        i += 1;
    }
    assert(fs.deep_view().take(i as int) =~= fs.deep_view());
    out
}

/// Reads one line of an error enumeration.
pub fn parse_variant(line: &str) -> (r: Option<String>)
    ensures
        r.deep_view() == variant_of_line(line@),
{
    let t = trim(line);
    if t.as_str().is_empty() || starts_with(t.as_str(), '#') {
        None
    } else {
        Some(first_token(t.as_str()))
    }
}

/// Reads the error codes of the body of an error enumeration. The body
/// must leave room for its codes in a `u32`.
pub fn parse_error_codes(body: &str) -> (r: Vec<ErrorInfo>)
    requires
        body@.len() + ERROR_CODE_BASE <= u32::MAX,
    ensures
        r.deep_view() == error_codes_of(body@),
{
    let ls = lines(body);
    let mut out: Vec<ErrorInfo> = Vec::new();
    let mut next: u32 = ERROR_CODE_BASE;
    let mut i: usize = 0;
    assert(ls.deep_view().take(0) =~= Seq::<Seq<char>>::empty());
    assert(out.deep_view() =~= numbered(Seq::empty()));
    while i < ls.len()
        invariant
            i <= ls@.len(),
            ls@.len() + ERROR_CODE_BASE <= u32::MAX,
            out@.len() <= i,
            next == ERROR_CODE_BASE + out@.len(),
            out.deep_view() == numbered(variants_of_lines(ls.deep_view().take(i as int))),
        decreases ls@.len() - i,
    {
        let ghost before = out.deep_view();
        let ghost names = variants_of_lines(ls.deep_view().take(i as int));
        assert(ls.deep_view().take(i as int + 1).drop_last() =~= ls.deep_view().take(i as int));
        match parse_variant(ls[i].as_str()) {
            Some(name) => {
                let e = ErrorInfo { name: name.clone(), code: next, message: name };
                out.push(e);
                assert(out.deep_view() =~= before.push(e.deep_view()));
                assert(numbered(names.push(name@)) =~= before.push(e.deep_view()));
                next += 1;
            },
            None => {},
        }
        i += 1;
    }
    assert(ls.deep_view().take(i as int) =~= ls.deep_view());
    out
}

} // verus!
