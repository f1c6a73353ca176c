//! The JSON object model that the record readers work on.
use vstd::prelude::*;

verus! {

/// A JSON value, as far as a record reader looks into it.
///
/// Arrays and objects are only ever ignored or rejected by the readers,
/// so their contents are not kept.
#[derive(Clone, Debug, PartialEq, Eq)]
pub enum JsonValue {
    Null,
    Bool(bool),
    /// A number, as written in the source text.
    Number(String),
    /// A string, with its escapes already decoded.
    Text(String),
    Array,
    Object,
}

/// What a `JsonValue` holds, with strings seen as their characters.
pub enum JsonView {
    Null,
    Bool(bool),
    Number(Seq<char>),
    Text(Seq<char>),
    Array,
    Object,
}

impl View for JsonValue {
    type V = JsonView;

    open spec fn view(&self) -> JsonView {
        match self {
            JsonValue::Null => JsonView::Null,
            JsonValue::Bool(b) => JsonView::Bool(*b),
            JsonValue::Number(s) => JsonView::Number(s@),
            JsonValue::Text(s) => JsonView::Text(s@),
            JsonValue::Array => JsonView::Array,
            JsonValue::Object => JsonView::Object,
        }
    }
}

/// One key/value pair of a JSON object.
#[derive(Clone, Debug, PartialEq, Eq)]
pub struct Member {
    pub key: String,
    pub value: JsonValue,
}

/// A member seen as its key's characters and its value's view.
pub open spec fn member_view(m: Member) -> (Seq<char>, JsonView) {
    (m.key@, m.value@)
}

/// An object seen as the views of its members, in order.
pub open spec fn obj_view(obj: Seq<Member>) -> Seq<(Seq<char>, JsonView)> {
    obj.map_values(|m: Member| member_view(m))
}

/// Appends a member to an object.
pub fn push_member(obj: &mut Vec<Member>, key: &str, value: JsonValue)
    ensures
        obj_view(final(obj)@) == obj_view(old(obj)@) + seq![(key@, value@)],
{
    obj.push(Member { key: key.to_owned(), value });
    assert(obj_view(obj@) =~= obj_view(old(obj)@) + seq![(key@, value@)]);
}

/// The value of the first member of `obj` whose key is `key`.
pub open spec fn lookup(obj: Seq<Member>, key: Seq<char>) -> Option<JsonValue>
    decreases obj.len(),
{
    if obj.len() == 0 {
        None
    } else if obj[0].key@ == key {
        Some(obj[0].value)
    } else {
        lookup(obj.drop_first(), key)
    }
}

/// The view of the first member of `m` whose key is `key`.
#[verifier::opaque]
pub open spec fn lookup_view(m: Seq<(Seq<char>, JsonView)>, key: Seq<char>) -> Option<JsonView>
    decreases m.len(),
{
    if m.len() == 0 {
        None
    } else if m[0].0 == key {
        Some(m[0].1)
    } else {
        lookup_view(m.drop_first(), key)
    }
}

/// The view of a value that may be absent.
pub open spec fn value_view(v: Option<JsonValue>) -> Option<JsonView> {
    match v {
        Some(v) => Some(v@),
        None => None,
    }
}

/// Looking up a key in two runs of members finds it in the first run
/// where it is there, and in the second one otherwise.
pub broadcast proof fn lemma_lookup_view_concat(
    a: Seq<(Seq<char>, JsonView)>,
    b: Seq<(Seq<char>, JsonView)>,
    key: Seq<char>,
)
    ensures
        #[trigger] lookup_view(a + b, key) == if lookup_view(a, key) is Some {
            lookup_view(a, key)
        } else {
            lookup_view(b, key)
        },
    decreases a.len(),
{
    reveal(lookup_view);
    if a.len() == 0 {
        assert(a + b =~= b);
    } else {
        assert((a + b).drop_first() =~= a.drop_first() + b);
        lemma_lookup_view_concat(a.drop_first(), b, key);
    }
}

/// A short summary of a key: its length and its first and last characters.
/// Keys with different summaries differ.
pub open spec fn key_sig(k: Seq<char>) -> (int, char, char) {
    (k.len() as int, k[0], k[k.len() - 1])
}

/// Looking up a key in the view of an object finds the view of its value.
pub proof fn lemma_lookup_obj_view(obj: Seq<Member>, key: Seq<char>)
    ensures
        lookup_view(obj_view(obj), key) == value_view(lookup(obj, key)),
    decreases obj.len(),
{
    reveal(lookup_view);
    if obj.len() > 0 {
        assert(obj_view(obj).drop_first() =~= obj_view(obj.drop_first()));
        lemma_lookup_obj_view(obj.drop_first(), key);
    }
}

/// A value found under a key is the value of a member with that key.
pub proof fn lemma_lookup_found(obj: Seq<Member>, key: Seq<char>)
    requires
        lookup(obj, key) is Some,
    ensures
        exists|i: int|
            0 <= i < obj.len() && #[trigger] obj[i].key@ == key && obj[i].value == lookup(
                obj,
                key,
            )->0,
    decreases obj.len(),
{
    if obj[0].key@ != key {
        lemma_lookup_found(obj.drop_first(), key);
        let i = choose|i: int|
            0 <= i < obj.drop_first().len() && #[trigger] obj.drop_first()[i].key@ == key
                && obj.drop_first()[i].value == lookup(obj.drop_first(), key)->0;
        assert(obj[i + 1] == obj.drop_first()[i]);
    }
}

/// The view of the value under `key`, where it is present and not `null`:
/// a reader takes a `null` optional field as absent.
pub open spec fn present_value(obj: Seq<Member>, key: Seq<char>) -> Option<JsonView> {
    match lookup(obj, key) {
        Some(JsonValue::Null) => None,
        Some(v) => Some(v@),
        None => None,
    }
}

/// Whether the key of every member of `obj` satisfies `known`.
pub open spec fn keys_within(obj: Seq<Member>, known: spec_fn(Seq<char>) -> bool) -> bool {
    forall|i: int| 0 <= i < obj.len() ==> known((#[trigger] obj[i]).key@)
}

/// Whether two strings hold the same characters.
pub fn str_eq(a: &str, b: &str) -> (r: bool)
    ensures
        r == (a@ == b@),
{
    let n = a.unicode_len();
    if n != b.unicode_len() {
        return false;
    }
    let mut i: usize = 0;
    while i < n
        invariant
            n == a@.len(),
            n == b@.len(),
            i <= n,
            forall|j: int| 0 <= j < i ==> a@[j] == b@[j],
        decreases n - i,
    {
        if a.get_char(i) != b.get_char(i) {
            return false;
        }
        i += 1;
    }
    assert(a@ =~= b@);
    true
}

/// Finds the value of the first member whose key is `key`.
pub fn find<'a>(obj: &'a Vec<Member>, key: &str) -> (r: Option<&'a JsonValue>)
    ensures
        match r {
            Some(v) => lookup(obj@, key@) == Some(*v),
            None => lookup(obj@, key@) is None,
        },
{
    let n = obj.len();
    let mut i: usize = 0;
    assert(obj@.subrange(0, n as int) =~= obj@);
    while i < n
        invariant
            n == obj@.len(),
            i <= n,
            lookup(obj@, key@) == lookup(obj@.subrange(i as int, n as int), key@),
        decreases n - i,
    {
        let ghost rest = obj@.subrange(i as int, n as int);
        assert(rest.drop_first() =~= obj@.subrange(i + 1, n as int));
        if str_eq(obj[i].key.as_str(), key) {
            return Some(&obj[i].value);
        }
        i += 1;
    }
    None
}

} // verus!
