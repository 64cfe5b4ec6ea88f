use crate::text::same;
use vstd::prelude::*;

verus! {

/// A JSON value. A number that is no integer is kept by the bits of its double.
pub enum Json {
    Null,
    Bool(bool),
    Unsigned(u64),
    Negative(i64),
    Float(u64),
    Text(String),
    List(Vec<Json>),
    Object(Vec<Field>),
}

/// One member of a JSON object.
pub struct Field {
    pub name: String,
    pub value: Json,
}

/// The member of an object with this name.
pub open spec fn member(fields: Seq<Field>, name: Seq<char>) -> Option<Json>
    decreases fields.len(),
{
    if fields.len() == 0 {
        None
    } else if fields[0].name@ == name {
        Some(fields[0].value)
    } else {
        member(fields.drop_first(), name)
    }
}

/// The text under a name, where there is one.
pub open spec fn text_member(fields: Seq<Field>, name: Seq<char>) -> Option<Seq<char>> {
    match member(fields, name) {
        Some(Json::Text(text)) => Some(text@),
        _ => None,
    }
}

pub open spec fn bool_member(fields: Seq<Field>, name: Seq<char>) -> Option<bool> {
    match member(fields, name) {
        Some(Json::Bool(b)) => Some(b),
        _ => None,
    }
}

pub open spec fn u64_member(fields: Seq<Field>, name: Seq<char>) -> Option<u64> {
    match member(fields, name) {
        Some(Json::Unsigned(n)) => Some(n),
        _ => None,
    }
}

pub fn get<'a>(fields: &'a Vec<Field>, name: &str) -> (r: Option<&'a Json>)
    ensures
        match member(fields@, name@) {
            Some(value) => r matches Some(found) && *found == value,
            None => r is None,
        },
{
    let mut i: usize = 0;
    proof {
        assert(fields@.subrange(0, fields@.len() as int) =~= fields@);
    }
    while i < fields.len()
        invariant
            0 <= i <= fields.len(),
            member(fields@, name@) == member(
                fields@.subrange(i as int, fields@.len() as int),
                name@,
            ),
        decreases fields.len() - i,
    {
        proof {
            assert(fields@.subrange(i as int, fields@.len() as int).drop_first()
                =~= fields@.subrange(i + 1, fields@.len() as int));
        }
        if same(fields[i].name.as_str(), name) {
            return Some(&fields[i].value);
        }
        i = i + 1;
    }
    None
}

pub fn get_text<'a>(fields: &'a Vec<Field>, name: &str) -> (r: Option<&'a String>)
    ensures
        match member(fields@, name@) {
            Some(Json::Text(text)) => r matches Some(found) && *found == text,
            _ => r is None,
        },
{
    match get(fields, name) {
        Some(Json::Text(text)) => Some(text),
        _ => None,
    }
}

pub fn get_bool(fields: &Vec<Field>, name: &str) -> (r: Option<bool>)
    ensures
        r == bool_member(fields@, name@),
{
    match get(fields, name) {
        Some(Json::Bool(b)) => Some(*b),
        _ => None,
    }
}

pub fn get_u64(fields: &Vec<Field>, name: &str) -> (r: Option<u64>)
    ensures
        r == u64_member(fields@, name@),
{
    match get(fields, name) {
        Some(Json::Unsigned(n)) => Some(*n),
        _ => None,
    }
}

/// The member of a value with this name; a value that is no object has none.
pub open spec fn at(value: Json, name: Seq<char>) -> Option<Json> {
    match value {
        Json::Object(fields) => member(fields@, name),
        _ => None,
    }
}

pub open spec fn text_at(value: Json, name: Seq<char>) -> Option<Seq<char>> {
    match at(value, name) {
        Some(Json::Text(text)) => Some(text@),
        _ => None,
    }
}

/// The text under a name, empty where there is none.
pub open spec fn text_or_empty(value: Json, name: Seq<char>) -> Seq<char> {
    match text_at(value, name) {
        Some(text) => text,
        None => Seq::empty(),
    }
}

/// The unsigned number under a name, zero where there is none.
pub open spec fn u64_or_zero(value: Json, name: Seq<char>) -> u64 {
    match at(value, name) {
        Some(Json::Unsigned(n)) => n,
        _ => 0,
    }
}

pub fn get_at<'a>(value: &'a Json, name: &str) -> (r: Option<&'a Json>)
    ensures
        match at(*value, name@) {
            Some(found) => r matches Some(shown) && *shown == found,
            None => r is None,
        },
{
    match value {
        Json::Object(fields) => get(fields, name),
        _ => None,
    }
}

pub fn get_text_or_empty<'a>(value: &'a Json, name: &str) -> (r: &'a str)
    ensures
        r@ == text_or_empty(*value, name@),
{
    match get_at(value, name) {
        Some(Json::Text(text)) => text.as_str(),
        _ => {
            proof {
                reveal_strlit("");
                assert(""@ =~= Seq::<char>::empty());
            }
            ""
        },
    }
}

pub fn get_u64_or_zero(value: &Json, name: &str) -> (r: u64)
    ensures
        r == u64_or_zero(*value, name@),
{
    match get_at(value, name) {
        Some(Json::Unsigned(n)) => *n,
        _ => 0,
    }
}

/// A member of an object under its name, where the object has it.
pub struct Shown<'a> {
    pub name: &'static str,
    pub value: Option<&'a Json>,
}

/// Whether `shown` is the members of an object with these names, and no others.
pub open spec fn is_projection(shown: Seq<Shown>, fields: Seq<Field>, names: Seq<&'static str>) -> bool {
    &&& shown.len() == names.len()
    &&& forall|i: int|
        #![trigger shown[i]]
        0 <= i < names.len() ==> {
            &&& shown[i].name == names[i]
            &&& match member(fields, names[i]@) {
                Some(value) => shown[i].value matches Some(found) && *found == value,
                None => shown[i].value is None,
            }
        }
}

/// The members with the given names, in the order of the names.
pub fn project<'a>(fields: &'a Vec<Field>, names: &Vec<&'static str>) -> (r: Vec<Shown<'a>>)
    ensures
        is_projection(r@, fields@, names@),
{
    let mut shown: Vec<Shown<'a>> = Vec::new();
    let mut i: usize = 0;
    while i < names.len()
        invariant
            0 <= i <= names.len(),
            shown.len() == i,
            is_projection(shown@, fields@, names@.subrange(0, i as int)),
        decreases names.len() - i,
    {
        shown.push(Shown { name: names[i], value: get(fields, names[i]) });
        i = i + 1;
    }
    proof {
        assert(names@.subrange(0, names@.len() as int) =~= names@);
    }
    shown
}

/// The member of an object is the value of the first field with its name.
pub proof fn law_members_are_found_by_name(fields: Seq<Field>, name: Seq<char>)
    ensures
        match member(fields, name) {
            Some(value) => exists|i: int|
                0 <= i < fields.len() && (#[trigger] fields[i]).name@ == name && fields[i].value
                    == value && forall|j: int| 0 <= j < i ==> (#[trigger] fields[j]).name@ != name,
            None => forall|j: int| 0 <= j < fields.len() ==> (#[trigger] fields[j]).name@ != name,
        },
    decreases fields.len(),
{
    if fields.len() > 0 && fields[0].name@ != name {
        let rest = fields.drop_first();
        law_members_are_found_by_name(rest, name);
        assert forall|j: int| 0 < j < fields.len() implies #[trigger] fields[j] == rest[j - 1] by {}
        if member(rest, name) is Some {
            let value = member(rest, name)->0;
            let i = choose|i: int|
                0 <= i < rest.len() && (#[trigger] rest[i]).name@ == name && rest[i].value == value
                    && forall|j: int| 0 <= j < i ==> (#[trigger] rest[j]).name@ != name;
            assert(fields[i + 1].name@ == name);
            assert forall|j: int| 0 <= j < i + 1 implies (#[trigger] fields[j]).name@ != name by {
                if j > 0 {
                    assert(rest[j - 1].name@ != name);
                }
            }
        }
    }
}

/// A member counts as a text, a flag or a number only where it is one, and what is missing reads as
/// the empty text and as zero.
pub proof fn law_members_count_by_their_type(fields: Vec<Field>, name: Seq<char>)
    ensures
        ({
            let value = Json::Object(fields);
            let found = member(fields@, name);
            &&& found matches Some(Json::Text(text)) ==> text_member(fields@, name) == Some(text@)
                && text_or_empty(value, name) == text@
            &&& !(found matches Some(Json::Text(_))) ==> text_member(fields@, name) is None
                && text_or_empty(value, name).len() == 0
            &&& found matches Some(Json::Bool(b)) ==> bool_member(fields@, name) == Some(b)
            &&& !(found matches Some(Json::Bool(_))) ==> bool_member(fields@, name) is None
            &&& found matches Some(Json::Unsigned(n)) ==> u64_member(fields@, name) == Some(n)
                && u64_or_zero(value, name) == n
            &&& !(found matches Some(Json::Unsigned(_))) ==> u64_member(fields@, name) is None
                && u64_or_zero(value, name) == 0
            &&& at(value, name) == found
            &&& at(Json::Null, name) is None
        }),
{
}

} // verus!
