//! Reading and writing the fields of a record.
//!
//! A required field that is absent is an error; an optional field that is
//! absent or `null` is `None`. A field of a vocabulary holds a string that
//! must spell one of its values exactly. Members whose keys a record does
//! not know are ignored.
use vstd::prelude::*;

use crate::json::{
    find, lookup, lookup_view, obj_view, present_value, push_member, value_view,
    JsonValue, JsonView, Member,
};
use crate::token::WireToken;

verus! {

/// The kind of JSON value that a field holds.
#[derive(Clone, Copy, Debug, PartialEq, Eq, Structural)]
pub enum ValueKind {
    Text,
    Number,
}

/// Why a record could not be read.
#[derive(Clone, Debug, PartialEq, Eq)]
pub enum ParseError {
    /// A required field is absent.
    MissingRequiredField(&'static str),
    /// A field holds a string that spells no value of its vocabulary.
    UnknownEnumValue(&'static str, String),
    /// A field holds a value of another kind than the one named.
    TypeMismatch(&'static str, ValueKind),
    /// The input is not a JSON object at all.
    MalformedInput,
}

/// The value of vocabulary `T` spelled `s`, or the error that names field
/// `key` and `s`.
pub open spec fn decode<T: WireToken>(key: &'static str, s: String) -> Result<T, ParseError> {
    if exists|v: T| v.wire() == s@ {
        Ok(choose|v: T| v.wire() == s@)
    } else {
        Err(ParseError::UnknownEnumValue(key, s))
    }
}

/// The required string field `key` of `obj`.
pub open spec fn text_field(obj: Seq<Member>, key: &'static str) -> Result<String, ParseError> {
    match lookup(obj, key@) {
        None => Err(ParseError::MissingRequiredField(key)),
        Some(JsonValue::Text(s)) => Ok(s),
        Some(_) => Err(ParseError::TypeMismatch(key, ValueKind::Text)),
    }
}

/// The required number field `key` of `obj`, as written.
pub open spec fn number_field(obj: Seq<Member>, key: &'static str) -> Result<String, ParseError> {
    match lookup(obj, key@) {
        None => Err(ParseError::MissingRequiredField(key)),
        Some(JsonValue::Number(s)) => Ok(s),
        Some(_) => Err(ParseError::TypeMismatch(key, ValueKind::Number)),
    }
}

/// The optional number field `key` of `obj`, as written.
pub open spec fn opt_number_field(obj: Seq<Member>, key: &'static str) -> Result<
    Option<String>,
    ParseError,
> {
    match lookup(obj, key@) {
        None => Ok(None),
        Some(JsonValue::Null) => Ok(None),
        Some(JsonValue::Number(s)) => Ok(Some(s)),
        Some(_) => Err(ParseError::TypeMismatch(key, ValueKind::Number)),
    }
}

/// The required field `key` of `obj`, of vocabulary `T`.
pub open spec fn enum_field<T: WireToken>(obj: Seq<Member>, key: &'static str) -> Result<
    T,
    ParseError,
> {
    match lookup(obj, key@) {
        None => Err(ParseError::MissingRequiredField(key)),
        Some(JsonValue::Text(s)) => decode::<T>(key, s),
        Some(_) => Err(ParseError::TypeMismatch(key, ValueKind::Text)),
    }
}

/// The optional field `key` of `obj`, of vocabulary `T`.
pub open spec fn opt_enum_field<T: WireToken>(obj: Seq<Member>, key: &'static str) -> Result<
    Option<T>,
    ParseError,
> {
    match lookup(obj, key@) {
        None => Ok(None),
        Some(JsonValue::Null) => Ok(None),
        Some(JsonValue::Text(s)) => match decode::<T>(key, s) {
            Ok(v) => Ok(Some(v)),
            Err(e) => Err(e),
        },
        Some(_) => Err(ParseError::TypeMismatch(key, ValueKind::Text)),
    }
}

/// The member that holds string `s` under `key`.
pub open spec fn text_member(key: &'static str, s: String) -> Seq<(Seq<char>, JsonView)> {
    seq![(key@, JsonView::Text(s@))]
}

/// The member that holds number `s` under `key`.
pub open spec fn number_member(key: &'static str, s: String) -> Seq<(Seq<char>, JsonView)> {
    seq![(key@, JsonView::Number(s@))]
}

/// The member that holds number `s` under `key`, or none where `s` is absent.
pub open spec fn opt_number_member(key: &'static str, s: Option<String>) -> Seq<
    (Seq<char>, JsonView),
> {
    match s {
        Some(s) => number_member(key, s),
        None => seq![],
    }
}

/// The member that holds the spelling of `v` under `key`.
pub open spec fn enum_member<T: WireToken>(key: &'static str, v: T) -> Seq<(Seq<char>, JsonView)> {
    seq![(key@, JsonView::Text(v.wire()))]
}

/// The member that holds the spelling of `v` under `key`, or none where `v`
/// is absent.
pub open spec fn opt_enum_member<T: WireToken>(key: &'static str, v: Option<T>) -> Seq<
    (Seq<char>, JsonView),
> {
    match v {
        Some(v) => enum_member(key, v),
        None => seq![],
    }
}

/// Each spelling of a vocabulary reads as its own value, in a required
/// field and in an optional one, and a string that spells no value of the
/// vocabulary is refused with an error that names the field and the string.
pub proof fn lemma_vocabulary_exhaustive<T: WireToken>(
    obj: Seq<Member>,
    key: &'static str,
    s: String,
)
    requires
        lookup(obj, key@) == Some(JsonValue::Text(s)),
    ensures
        forall|v: T| #[trigger] v.wire() == s@ ==> {
            &&& enum_field::<T>(obj, key) == Ok::<T, ParseError>(v)
            &&& opt_enum_field::<T>(obj, key) == Ok::<Option<T>, ParseError>(Some(v))
        },
        (forall|v: T| #[trigger] v.wire() != s@) ==> {
            &&& enum_field::<T>(obj, key) == Err::<T, ParseError>(
                ParseError::UnknownEnumValue(key, s),
            )
            &&& opt_enum_field::<T>(obj, key) == Err::<Option<T>, ParseError>(
                ParseError::UnknownEnumValue(key, s),
            )
        },
{
    assert forall|v: T| #[trigger] v.wire() == s@ implies {
        &&& enum_field::<T>(obj, key) == Ok::<T, ParseError>(v)
        &&& opt_enum_field::<T>(obj, key) == Ok::<Option<T>, ParseError>(Some(v))
    } by {
        let w = choose|w: T| w.wire() == s@;
        T::lemma_wire_injective(v, w);
    }
}

/// A string field read and written back is the member that the object
/// holds under its key.
pub proof fn lemma_text_round_trip(obj: Seq<Member>, key: &'static str, k: Seq<char>)
    requires
        text_field(obj, key) is Ok,
    ensures
        lookup_view(text_member(key, text_field(obj, key)->Ok_0), k) == if key@ == k {
            present_value(obj, k)
        } else {
            None
        },
{
    reveal_with_fuel(lookup_view, 2);
}

/// A number field read and written back is the member that the object
/// holds under its key.
pub proof fn lemma_number_round_trip(obj: Seq<Member>, key: &'static str, k: Seq<char>)
    requires
        number_field(obj, key) is Ok,
    ensures
        lookup_view(number_member(key, number_field(obj, key)->Ok_0), k) == if key@ == k {
            present_value(obj, k)
        } else {
            None
        },
{
    reveal_with_fuel(lookup_view, 2);
}

/// An optional number field read and written back is the member that the
/// object holds under its key, or none where it holds none or `null`.
pub proof fn lemma_opt_number_round_trip(obj: Seq<Member>, key: &'static str, k: Seq<char>)
    requires
        opt_number_field(obj, key) is Ok,
    ensures
        lookup_view(opt_number_member(key, opt_number_field(obj, key)->Ok_0), k) == if key@
            == k {
            present_value(obj, k)
        } else {
            None
        },
{
    reveal_with_fuel(lookup_view, 2);
}

/// A field of a vocabulary read and written back is the member that the
/// object holds under its key.
pub proof fn lemma_enum_round_trip<T: WireToken>(obj: Seq<Member>, key: &'static str, k: Seq<char>)
    requires
        enum_field::<T>(obj, key) is Ok,
    ensures
        lookup_view(enum_member(key, enum_field::<T>(obj, key)->Ok_0), k) == if key@ == k {
            present_value(obj, k)
        } else {
            None
        },
{
    reveal_with_fuel(lookup_view, 2);
}

/// An optional field of a vocabulary read and written back is the member
/// that the object holds under its key, or none where it holds none or
/// `null`.
pub proof fn lemma_opt_enum_round_trip<T: WireToken>(
    obj: Seq<Member>,
    key: &'static str,
    k: Seq<char>,
)
    requires
        opt_enum_field::<T>(obj, key) is Ok,
    ensures
        lookup_view(opt_enum_member(key, opt_enum_field::<T>(obj, key)->Ok_0), k) == if key@
            == k {
            present_value(obj, k)
        } else {
            None
        },
{
    reveal_with_fuel(lookup_view, 2);
}

/// A string member written under `key` holds nothing under another key.
pub broadcast proof fn lemma_text_member_other(key: &'static str, s: String, k: Seq<char>)
    ensures
        key@ != k ==> #[trigger] lookup_view(text_member(key, s), k) is None,
{
    reveal_with_fuel(lookup_view, 2);
}

/// A number member written under `key` holds nothing under another key.
pub broadcast proof fn lemma_number_member_other(key: &'static str, s: String, k: Seq<char>)
    ensures
        key@ != k ==> #[trigger] lookup_view(number_member(key, s), k) is None,
{
    reveal_with_fuel(lookup_view, 2);
}

/// An optional number member written under `key` holds nothing under
/// another key.
pub broadcast proof fn lemma_opt_number_member_other(
    key: &'static str,
    s: Option<String>,
    k: Seq<char>,
)
    ensures
        key@ != k ==> #[trigger] lookup_view(opt_number_member(key, s), k) is None,
{
    reveal_with_fuel(lookup_view, 2);
}

/// A member of a vocabulary written under `key` holds nothing under another
/// key.
pub broadcast proof fn lemma_enum_member_other<T: WireToken>(key: &'static str, v: T, k: Seq<char>)
    ensures
        key@ != k ==> #[trigger] lookup_view(enum_member(key, v), k) is None,
{
    reveal_with_fuel(lookup_view, 2);
}

/// An optional member of a vocabulary written under `key` holds nothing
/// under another key.
pub broadcast proof fn lemma_opt_enum_member_other<T: WireToken>(
    key: &'static str,
    v: Option<T>,
    k: Seq<char>,
)
    ensures
        key@ != k ==> #[trigger] lookup_view(opt_enum_member(key, v), k) is None,
{
    reveal_with_fuel(lookup_view, 2);
}

/// A string field reads back as the string written under its key.
pub proof fn lemma_text_read_back(obj: Seq<Member>, key: &'static str, s: String)
    requires
        value_view(lookup(obj, key@)) == lookup_view(text_member(key, s), key@),
    ensures
        text_field(obj, key) is Ok,
        text_member(key, text_field(obj, key)->Ok_0) == text_member(key, s),
{
    reveal_with_fuel(lookup_view, 2);
}

/// A number field reads back as the number written under its key.
pub proof fn lemma_number_read_back(obj: Seq<Member>, key: &'static str, s: String)
    requires
        value_view(lookup(obj, key@)) == lookup_view(number_member(key, s), key@),
    ensures
        number_field(obj, key) is Ok,
        number_member(key, number_field(obj, key)->Ok_0) == number_member(key, s),
{
    reveal_with_fuel(lookup_view, 2);
}

/// An optional number field reads back as the number written under its
/// key, or as absent where none was written.
pub proof fn lemma_opt_number_read_back(obj: Seq<Member>, key: &'static str, s: Option<String>)
    requires
        value_view(lookup(obj, key@)) == lookup_view(opt_number_member(key, s), key@),
    ensures
        opt_number_field(obj, key) is Ok,
        opt_number_member(key, opt_number_field(obj, key)->Ok_0) == opt_number_member(key, s),
{
    reveal_with_fuel(lookup_view, 2);
}

/// A field of a vocabulary reads back as the value whose spelling was
/// written under its key.
pub proof fn lemma_enum_read_back<T: WireToken>(obj: Seq<Member>, key: &'static str, v: T)
    requires
        value_view(lookup(obj, key@)) == lookup_view(enum_member(key, v), key@),
    ensures
        enum_field::<T>(obj, key) == Ok::<T, ParseError>(v),
        value_view(lookup(obj, key@)) == Some(JsonView::Text(v.wire())),
{
    reveal_with_fuel(lookup_view, 2);
    let s = lookup(obj, key@)->0->Text_0;
    lemma_vocabulary_exhaustive::<T>(obj, key, s);
}

/// An optional field of a vocabulary reads back as the value whose
/// spelling was written under its key, or as absent where none was written.
pub proof fn lemma_opt_enum_read_back<T: WireToken>(obj: Seq<Member>, key: &'static str, v: Option<T>)
    requires
        value_view(lookup(obj, key@)) == lookup_view(opt_enum_member(key, v), key@),
    ensures
        opt_enum_field::<T>(obj, key) == Ok::<Option<T>, ParseError>(v),
{
    reveal_with_fuel(lookup_view, 2);
    if let Some(v) = v {
        let s = lookup(obj, key@)->0->Text_0;
        lemma_vocabulary_exhaustive::<T>(obj, key, s);
    }
}

/// Decodes `s` as a value of vocabulary `T`.
pub fn decode_token<T: WireToken>(key: &'static str, s: &String) -> (r: Result<T, ParseError>)
    ensures
        r == decode::<T>(key, *s),
{
    match T::from_token(s.as_str()) {
        Some(v) => {
            proof {
                let w = choose|w: T| w.wire() == s@;
                T::lemma_wire_injective(v, w);
            }
            Ok(v)
        },
        None => Err(ParseError::UnknownEnumValue(key, s.clone())),
    }
}

/// Reads the required string field `key`.
pub fn read_text(obj: &Vec<Member>, key: &'static str) -> (r: Result<String, ParseError>)
    ensures
        r == text_field(obj@, key),
{
    match find(obj, key) {
        None => Err(ParseError::MissingRequiredField(key)),
        Some(JsonValue::Text(s)) => Ok(s.clone()),
        Some(_) => Err(ParseError::TypeMismatch(key, ValueKind::Text)),
    }
}

/// Reads the required number field `key`.
pub fn read_number(obj: &Vec<Member>, key: &'static str) -> (r: Result<String, ParseError>)
    ensures
        r == number_field(obj@, key),
{
    match find(obj, key) {
        None => Err(ParseError::MissingRequiredField(key)),
        Some(JsonValue::Number(s)) => Ok(s.clone()),
        Some(_) => Err(ParseError::TypeMismatch(key, ValueKind::Number)),
    }
}

/// Reads the optional number field `key`.
pub fn read_opt_number(obj: &Vec<Member>, key: &'static str) -> (r: Result<
    Option<String>,
    ParseError,
>)
    ensures
        r == opt_number_field(obj@, key),
{
    match find(obj, key) {
        None => Ok(None),
        Some(JsonValue::Null) => Ok(None),
        Some(JsonValue::Number(s)) => Ok(Some(s.clone())),
        Some(_) => Err(ParseError::TypeMismatch(key, ValueKind::Number)),
    }
}

/// Reads the required field `key` of vocabulary `T`.
pub fn read_enum<T: WireToken>(obj: &Vec<Member>, key: &'static str) -> (r: Result<T, ParseError>)
    ensures
        r == enum_field::<T>(obj@, key),
{
    match find(obj, key) {
        None => Err(ParseError::MissingRequiredField(key)),
        Some(JsonValue::Text(s)) => decode_token::<T>(key, s),
        Some(_) => Err(ParseError::TypeMismatch(key, ValueKind::Text)),
    }
}

/// Reads the optional field `key` of vocabulary `T`.
pub fn read_opt_enum<T: WireToken>(obj: &Vec<Member>, key: &'static str) -> (r: Result<
    Option<T>,
    ParseError,
>)
    ensures
        r == opt_enum_field::<T>(obj@, key),
{
    match find(obj, key) {
        None => Ok(None),
        Some(JsonValue::Null) => Ok(None),
        Some(JsonValue::Text(s)) => match decode_token::<T>(key, s) {
            Ok(v) => Ok(Some(v)),
            Err(e) => Err(e),
        },
        Some(_) => Err(ParseError::TypeMismatch(key, ValueKind::Text)),
    }
}

/// Writes string `s` under `key`.
pub fn write_text(obj: &mut Vec<Member>, key: &'static str, s: &String)
    ensures
        obj_view(final(obj)@) == obj_view(old(obj)@) + text_member(key, *s),
{
    push_member(obj, key, JsonValue::Text(s.clone()));
}

/// Writes number `s` under `key`.
pub fn write_number(obj: &mut Vec<Member>, key: &'static str, s: &String)
    ensures
        obj_view(final(obj)@) == obj_view(old(obj)@) + number_member(key, *s),
{
    push_member(obj, key, JsonValue::Number(s.clone()));
}

/// Writes number `s` under `key` where it is present.
pub fn write_opt_number(obj: &mut Vec<Member>, key: &'static str, s: &Option<String>)
    ensures
        obj_view(final(obj)@) == obj_view(old(obj)@) + opt_number_member(key, *s),
{
    match s {
        Some(s) => write_number(obj, key, s),
        None => {
            assert(obj_view(obj@) =~= obj_view(obj@) + opt_number_member(key, None));
        },
    }
}

/// Writes the spelling of `v` under `key`.
pub fn write_enum<T: WireToken>(obj: &mut Vec<Member>, key: &'static str, v: &T)
    ensures
        obj_view(final(obj)@) == obj_view(old(obj)@) + enum_member(key, *v),
{
    let t = v.token();
    push_member(obj, key, JsonValue::Text(t.to_owned()));
}

/// Writes the spelling of `v` under `key` where it is present.
pub fn write_opt_enum<T: WireToken>(obj: &mut Vec<Member>, key: &'static str, v: &Option<T>)
    ensures
        obj_view(final(obj)@) == obj_view(old(obj)@) + opt_enum_member(key, *v),
{
    match v {
        Some(v) => write_enum(obj, key, v),
        None => {
            assert(obj_view(obj@) =~= obj_view(obj@) + opt_enum_member::<T>(key, None));
        },
    }
}

} // verus!
