//! Reading the fields of a record from the members of a JSON object, with
//! more than one accepted spelling of a field's name.

use vstd::prelude::*;
use crate::json::{
    array_model, item_models, member_models, Json, JsonModel, JsonNumber, Member, MemberModel,
};
use crate::text::{same_text, trim, trimmed};

verus! {

/// A type that can be read from a JSON document.
pub trait Record: Sized + DeepView {
    /// The value that the document `j` spells, where it spells one.
    spec fn spec_from(j: JsonModel) -> Option<Self::V>;

    /// Reads a value from `j`; `None` where `j` does not have the shape.
    fn from_json(j: &Json) -> (r: Option<Self>)
        ensures
            r.deep_view() == Self::spec_from(j@),
    ;
}

/// The accepted spellings `names`, each by its characters.
pub open spec fn names_of(names: Seq<&str>) -> Seq<Seq<char>> {
    Seq::new(names.len(), |i: int| names[i]@)
}

/// The values of those members whose name is one of `names`, in the order
/// of the members.
pub open spec fn occurrences(members: Seq<MemberModel>, names: Seq<Seq<char>>) -> Seq<JsonModel>
    decreases members.len(),
{
    if members.len() == 0 {
        Seq::empty()
    } else {
        let before = occurrences(members.drop_last(), names);
        if names.contains(members.last().name) {
            before.push(members.last().value)
        } else {
            before
        }
    }
}

/// What a search for a field finds among the members of an object.
pub enum Lookup {
    /// No member has one of the names.
    Missing,
    /// Exactly one member has one of the names: its value.
    Found(JsonModel),
    /// Two or more members have one of the names.
    Repeated,
}

/// The field spelled by one of `names` among `members`.
pub open spec fn lookup(members: Seq<MemberModel>, names: Seq<Seq<char>>) -> Lookup {
    let hits = occurrences(members, names);
    if hits.len() == 0 {
        Lookup::Missing
    } else if hits.len() == 1 {
        Lookup::Found(hits[0])
    } else {
        Lookup::Repeated
    }
}

/// A search goes by which members carry an accepted name and by their
/// values, not by which of the accepted names a member carries: two lists of
/// members that agree in both are searched with the same result.
pub proof fn spelling_is_transparent(
    members: Seq<MemberModel>,
    respelled: Seq<MemberModel>,
    names: Seq<Seq<char>>,
)
    requires
        members.len() == respelled.len(),
        forall|i: int|
            0 <= i < members.len() ==> (#[trigger] members[i]).value == respelled[i].value,
        forall|i: int|
            0 <= i < members.len() ==> names.contains((#[trigger] members[i]).name)
                == names.contains(respelled[i].name),
    ensures
        occurrences(members, names) == occurrences(respelled, names),
        lookup(members, names) == lookup(respelled, names),
    decreases members.len(),
{
    if members.len() > 0 {
        let head = members.drop_last();
        let respelled_head = respelled.drop_last();
        assert forall|i: int| 0 <= i < head.len() implies (#[trigger] head[i]).value
            == respelled_head[i].value && names.contains(head[i].name) == names.contains(
            respelled_head[i].name,
        ) by {
            assert(head[i] == members[i]);
            assert(respelled_head[i] == respelled[i]);
        }
        spelling_is_transparent(head, respelled_head, names);
        assert(members.last() == members[members.len() - 1]);
        assert(respelled.last() == respelled[members.len() - 1]);
    }
}

/// A field with one name is spelled by that name alone; a field with a name
/// and an alias by those two.
pub proof fn accepted_names(name: Seq<char>, alias: Seq<char>, spelling: Seq<char>)
    ensures
        seq![name].contains(spelling) <==> spelling == name,
        seq![name, alias].contains(spelling) <==> spelling == name || spelling == alias,
{
    assert(seq![name][0] == name);
    assert(seq![name, alias][0] == name);
    assert(seq![name, alias][1] == alias);
}

/// What [`find`] hands back: the member's value where exactly one matches.
pub enum Found<'a> {
    Missing,
    One(&'a Json),
    Repeated,
}

/// Whether `name` is one of `names`.
pub fn is_named(names: &[&str], name: &str) -> (r: bool)
    ensures
        r == names_of(names@).contains(name@),
{
    let mut i: usize = 0;
    while i < names.len()
        invariant
            i <= names.len(),
            forall|k: int| 0 <= k < i ==> names_of(names@)[k] != name@,
        decreases names.len() - i,
    {
        if same_text(names[i], name) {
            assert(names_of(names@)[i as int] == name@);
            return true;
        }
        i += 1;
    }
    false
}

/// Searches `members` for the field spelled by one of `names`.
pub fn find<'a>(members: &'a Vec<Member>, names: &[&str]) -> (r: Found<'a>)
    ensures
        match r {
            Found::Missing => lookup(member_models(members@), names_of(names@)) is Missing,
            Found::One(value) => lookup(member_models(members@), names_of(names@)) == Lookup::Found(
                value@,
            ),
            Found::Repeated => lookup(member_models(members@), names_of(names@)) is Repeated,
        },
{
    let ghost all = member_models(members@);
    let ghost accepted = names_of(names@);
    let mut hits: usize = 0;
    let mut at: usize = 0;
    let mut i: usize = 0;
    while i < members.len()
        invariant
            i <= members.len(),
            all == member_models(members@),
            accepted == names_of(names@),
            hits <= 2,
            hits == 0 <==> occurrences(all.take(i as int), accepted).len() == 0,
            hits == 1 <==> occurrences(all.take(i as int), accepted).len() == 1,
            hits == 1 ==> at < i && occurrences(all.take(i as int), accepted)[0]
                == all[at as int].value,
        decreases members.len() - i,
    {
        proof {
            let now = all.take(i as int + 1);
            assert(now.drop_last() =~= all.take(i as int));
            assert(now.last() == all[i as int]);
        }
        if is_named(names, members[i].name.as_str()) {
            if hits == 0 {
                at = i;
                hits = 1;
            } else {
                hits = 2;
            }
        }
        i += 1;
    }
    assert(all.take(members.len() as int) =~= all);
    if hits == 0 {
        Found::Missing
    } else if hits == 1 {
        Found::One(&members[at].value)
    } else {
        Found::Repeated
    }
}

/// A field that must be there: the value of the one member that spells it,
/// read as a `T`.
pub open spec fn required<T: Record>(members: Seq<MemberModel>, names: Seq<Seq<char>>) -> Option<
    T::V,
> {
    match lookup(members, names) {
        Lookup::Found(value) => T::spec_from(value),
        _ => None,
    }
}

/// A field that may be left out: absent or `null` reads as `Some(None)`, a
/// value of another shape or a repeated field as `None`.
pub open spec fn optional<T: Record>(members: Seq<MemberModel>, names: Seq<Seq<char>>) -> Option<
    Option<T::V>,
> {
    match lookup(members, names) {
        Lookup::Missing => Some(None),
        Lookup::Found(JsonModel::Null) => Some(None),
        Lookup::Found(value) => match T::spec_from(value) {
            Some(x) => Some(Some(x)),
            None => None,
        },
        Lookup::Repeated => None,
    }
}

/// Reads a field that must be there.
pub fn read_required<T: Record>(members: &Vec<Member>, names: &[&str]) -> (r: Option<T>)
    ensures
        r.deep_view() == required::<T>(member_models(members@), names_of(names@)),
{
    match find(members, names) {
        Found::One(value) => T::from_json(value),
        _ => None,
    }
}

/// Reads a field that may be left out.
pub fn read_optional<T: Record>(members: &Vec<Member>, names: &[&str]) -> (r: Option<Option<T>>)
    ensures
        r.deep_view() == optional::<T>(member_models(members@), names_of(names@)),
{
    match find(members, names) {
        Found::Missing => Some(None),
        Found::One(value) => match value {
            Json::Null => Some(None),
            _ => match T::from_json(value) {
                Some(x) => Some(Some(x)),
                None => None,
            },
        },
        Found::Repeated => None,
    }
}

/// The field `name`, which must be there, read as a `T`.
pub open spec fn field<T: Record>(members: Seq<MemberModel>, name: Seq<char>) -> Option<T::V> {
    required::<T>(members, seq![name])
}

/// The field spelled `name` or `alias`, which must be there, read as a `T`.
pub open spec fn aliased<T: Record>(
    members: Seq<MemberModel>,
    name: Seq<char>,
    alias: Seq<char>,
) -> Option<T::V> {
    required::<T>(members, seq![name, alias])
}

/// The field `name`, which may be left out, read as a `T`.
pub open spec fn optional_field<T: Record>(members: Seq<MemberModel>, name: Seq<char>) -> Option<
    Option<T::V>,
> {
    optional::<T>(members, seq![name])
}

/// Reads the field `name`, which must be there.
pub fn read_field<T: Record>(members: &Vec<Member>, name: &str) -> (r: Option<T>)
    ensures
        r.deep_view() == field::<T>(member_models(members@), name@),
{
    let names = [name];
    assert(names_of(names@) =~= seq![name@]);
    read_required::<T>(members, &names)
}

/// Reads the field spelled `name` or `alias`, which must be there.
pub fn read_aliased<T: Record>(members: &Vec<Member>, name: &str, alias: &str) -> (r: Option<T>)
    ensures
        r.deep_view() == aliased::<T>(member_models(members@), name@, alias@),
{
    let names = [name, alias];
    assert(names_of(names@) =~= seq![name@, alias@]);
    read_required::<T>(members, &names)
}

/// Reads the field `name`, which may be left out.
pub fn read_optional_field<T: Record>(members: &Vec<Member>, name: &str) -> (r: Option<Option<T>>)
    ensures
        r.deep_view() == optional_field::<T>(member_models(members@), name@),
{
    let names = [name];
    assert(names_of(names@) =~= seq![name@]);
    read_optional::<T>(members, &names)
}

/// The text field `name`, which must be there, without the white space
/// around it.
pub open spec fn trimmed_field(members: Seq<MemberModel>, name: Seq<char>) -> Option<Seq<char>> {
    match field::<String>(members, name) {
        Some(s) => Some(trimmed(s)),
        None => None,
    }
}

/// Reads the text field `name`, which must be there, and trims it.
pub fn read_trimmed(members: &Vec<Member>, name: &str) -> (r: Option<String>)
    ensures
        r.deep_view() == trimmed_field(member_models(members@), name@),
{
    match read_field::<String>(members, name) {
        Some(s) => Some(trim(s.as_str())),
        None => None,
    }
}

/// The text field `name`, which may be left out, where an empty text counts
/// as left out.
pub open spec fn filled_field(members: Seq<MemberModel>, name: Seq<char>) -> Option<
    Option<Seq<char>>,
> {
    match optional_field::<String>(members, name) {
        Some(Some(s)) => if s.len() == 0 {
            Some(None)
        } else {
            Some(Some(s))
        },
        Some(None) => Some(None),
        None => None,
    }
}

/// Reads the text field `name`, which may be left out or empty.
pub fn read_filled(members: &Vec<Member>, name: &str) -> (r: Option<Option<String>>)
    ensures
        r.deep_view() == filled_field(member_models(members@), name@),
{
    match read_optional_field::<String>(members, name) {
        Some(Some(s)) => if s.as_str().is_empty() {
            Some(None)
        } else {
            Some(Some(s))
        },
        Some(None) => Some(None),
        None => None,
    }
}

/// The records that the items of `items` spell from index `from` on; none
/// where `from` is beyond the items.
pub open spec fn records_from<T: Record>(items: Seq<JsonModel>, from: int) -> Seq<T::V> {
    if from <= items.len() {
        Seq::new((items.len() - from) as nat, |k: int| T::spec_from(items[from + k])->0)
    } else {
        Seq::empty()
    }
}

/// The index of the first item, from index `from` on, that does not spell a
/// `T`; the length of `items` where every one does.
pub open spec fn first_mismatch<T: Record>(items: Seq<JsonModel>, from: int) -> int
    decreases items.len() - from,
{
    if from < 0 || from >= items.len() {
        items.len() as int
    } else if T::spec_from(items[from]) is None {
        from
    } else {
        first_mismatch::<T>(items, from + 1)
    }
}

/// The first mismatch is the least index, from `from` on, whose item spells
/// no `T`: every item before it does, and it does not.
pub proof fn first_mismatch_is_least<T: Record>(items: Seq<JsonModel>, from: int)
    requires
        0 <= from <= items.len(),
    ensures
        from <= first_mismatch::<T>(items, from) <= items.len(),
        forall|i: int|
            from <= i < first_mismatch::<T>(items, from) ==> (#[trigger] T::spec_from(items[i]))
                is Some,
        first_mismatch::<T>(items, from) < items.len() ==> T::spec_from(
            items[first_mismatch::<T>(items, from)],
        ) is None,
    decreases items.len() - from,
{
    if from < items.len() && T::spec_from(items[from]) is Some {
        first_mismatch_is_least::<T>(items, from + 1);
    }
}

/// Reads the items from index `from` on, each as a `T`, and stops at the
/// first that is none: `Err` holds its index.
pub fn read_records<T: Record>(items: &Vec<Json>, from: usize) -> (r: Result<Vec<T>, usize>)
    ensures
        match r {
            Ok(records) => {
                &&& first_mismatch::<T>(item_models(items@), from as int) == items.len()
                &&& records.deep_view() == records_from::<T>(item_models(items@), from as int)
            },
            Err(index) => {
                &&& index < items.len()
                &&& index == first_mismatch::<T>(item_models(items@), from as int)
            },
        },
{
    let ghost all = item_models(items@);
    let mut records: Vec<T> = Vec::new();
    if from > items.len() {
        assert(records.deep_view() =~= records_from::<T>(all, from as int));
        return Ok(records);
    }
    let mut i: usize = from;
    while i < items.len()
        invariant
            from <= i <= items.len(),
            all == item_models(items@),
            first_mismatch::<T>(all, from as int) == first_mismatch::<T>(all, i as int),
            records@.len() == i - from,
            forall|k: int|
                0 <= k < i - from ==> T::spec_from(all[from + k]) == Some(
                    (#[trigger] records@[k]).deep_view(),
                ),
        decreases items.len() - i,
    {
        match T::from_json(&items[i]) {
            Some(record) => {
                records.push(record);
            },
            None => {
                return Err(i);
            },
        }
        i += 1;
    }
    assert(records.deep_view() =~= records_from::<T>(all, from as int));
    Ok(records)
}

impl<T: Record> Record for Vec<T> {
    /// An array whose every item spells a `T`.
    open spec fn spec_from(j: JsonModel) -> Option<Seq<T::V>> {
        match j {
            JsonModel::Array(items) => if first_mismatch::<T>(items, 0) == items.len() {
                Some(records_from::<T>(items, 0))
            } else {
                None
            },
            _ => None,
        }
    }

    fn from_json(j: &Json) -> (r: Option<Vec<T>>) {
        let out = match j {
            Json::Array(items) => {
                proof {
                    array_model(*items);
                }
                match read_records::<T>(items, 0) {
                    Ok(records) => Some(records),
                    Err(_) => None,
                }
            },
            _ => None,
        };
        assert(out.deep_view() == Self::spec_from(j@));
        out
    }
}

impl Record for String {
    open spec fn spec_from(j: JsonModel) -> Option<Seq<char>> {
        match j {
            JsonModel::Text(s) => Some(s),
            _ => None,
        }
    }

    fn from_json(j: &Json) -> (r: Option<String>) {
        let out = match j {
            Json::Text(s) => Some(s.clone()),
            _ => None,
        };
        assert(out.deep_view() == Self::spec_from(j@));
        out
    }
}

impl Record for bool {
    open spec fn spec_from(j: JsonModel) -> Option<bool> {
        match j {
            JsonModel::Bool(b) => Some(b),
            _ => None,
        }
    }

    fn from_json(j: &Json) -> (r: Option<bool>) {
        let out = match j {
            Json::Bool(b) => Some(*b),
            _ => None,
        };
        assert(out.deep_view() == Self::spec_from(j@));
        out
    }
}

/// The whole number that `n` holds, where it holds one.
pub open spec fn whole(n: JsonNumber) -> Option<int> {
    match n {
        JsonNumber::PosInt(u) => Some(u as int),
        JsonNumber::NegInt(i) => Some(i as int),
        JsonNumber::Float(_) => None,
    }
}

/// The whole number that the document `j` is, where it is one.
pub open spec fn whole_of(j: JsonModel) -> Option<int> {
    match j {
        JsonModel::Number(n) => whole(n),
        _ => None,
    }
}

impl Record for i64 {
    open spec fn spec_from(j: JsonModel) -> Option<i64> {
        match whole_of(j) {
            Some(n) if i64::MIN <= n <= i64::MAX => Some(n as i64),
            _ => None,
        }
    }

    fn from_json(j: &Json) -> (r: Option<i64>) {
        let out = match j {
            Json::Number(JsonNumber::PosInt(u)) => if *u <= i64::MAX as u64 {
                Some(*u as i64)
            } else {
                None
            },
            Json::Number(JsonNumber::NegInt(i)) => Some(*i),
            _ => None,
        };
        assert(out.deep_view() == Self::spec_from(j@));
        out
    }
}

impl Record for i32 {
    open spec fn spec_from(j: JsonModel) -> Option<i32> {
        match whole_of(j) {
            Some(n) if i32::MIN <= n <= i32::MAX => Some(n as i32),
            _ => None,
        }
    }

    fn from_json(j: &Json) -> (r: Option<i32>) {
        let out = match i64::from_json(j) {
            Some(n) => if i32::MIN as i64 <= n && n <= i32::MAX as i64 {
                Some(n as i32)
            } else {
                None
            },
            None => None,
        };
        assert(out.deep_view() == Self::spec_from(j@));
        out
    }
}

impl Record for i16 {
    open spec fn spec_from(j: JsonModel) -> Option<i16> {
        match whole_of(j) {
            Some(n) if i16::MIN <= n <= i16::MAX => Some(n as i16),
            _ => None,
        }
    }

    fn from_json(j: &Json) -> (r: Option<i16>) {
        let out = match i64::from_json(j) {
            Some(n) => if i16::MIN as i64 <= n && n <= i16::MAX as i64 {
                Some(n as i16)
            } else {
                None
            },
            None => None,
        };
        assert(out.deep_view() == Self::spec_from(j@));
        out
    }
}

impl Record for u32 {
    open spec fn spec_from(j: JsonModel) -> Option<u32> {
        match whole_of(j) {
            Some(n) if 0 <= n <= u32::MAX => Some(n as u32),
            _ => None,
        }
    }

    fn from_json(j: &Json) -> (r: Option<u32>) {
        let out = match i64::from_json(j) {
            Some(n) => if 0 <= n && n <= u32::MAX as i64 {
                Some(n as u32)
            } else {
                None
            },
            None => None,
        };
        assert(out.deep_view() == Self::spec_from(j@));
        out
    }
}

impl Record for JsonNumber {
    open spec fn spec_from(j: JsonModel) -> Option<JsonNumber> {
        match j {
            JsonModel::Number(n) => Some(n),
            _ => None,
        }
    }

    fn from_json(j: &Json) -> (r: Option<JsonNumber>) {
        let out = match j {
            Json::Number(n) => Some(*n),
            _ => None,
        };
        assert(out.deep_view() == Self::spec_from(j@));
        out
    }
}

} // verus!
