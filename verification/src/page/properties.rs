use crate::error::{outcome, Error, ErrorView};
use crate::field::object;
use crate::json::{lemma_object_value, members_of, Json, JsonValue};
use crate::page::{
    decode_page_property, encode_page_property, lemma_page_property_round_trip, PageProperty,
    PagePropertyView,
};
use crate::text::same_text;
use vstd::prelude::*;

verus! {

/// The named values of a map, in the order in which their names came in.
pub type Entries = Seq<(Seq<char>, PagePropertyView)>;

/// Whether no name occurs twice.
pub open spec fn distinct(entries: Entries) -> bool {
    forall|i: int, j: int|
        0 <= i < j < entries.len() ==> (#[trigger] entries[i]).0 != (#[trigger] entries[j]).0
}

/// Whether `name` has a value.
pub open spec fn holds(entries: Entries, name: Seq<char>) -> bool {
    exists|i: int| 0 <= i < entries.len() && (#[trigger] entries[i]).0 == name
}

/// A place at which `name` stands, where it has a value.
pub open spec fn place(entries: Entries, name: Seq<char>) -> int {
    choose|i: int| 0 <= i < entries.len() && (#[trigger] entries[i]).0 == name
}

/// The value of `name`, if it has one.
pub open spec fn value(entries: Entries, name: Seq<char>) -> Option<PagePropertyView> {
    if holds(entries, name) {
        Some(entries[place(entries, name)].1)
    } else {
        None
    }
}

/// The map after `property` has been written under `name`: in the place
/// of the value that `name` had, or behind the others where it had none.
pub open spec fn written(entries: Entries, name: Seq<char>, property: PagePropertyView) -> Entries {
    if holds(entries, name) {
        entries.update(place(entries, name), (name, property))
    } else {
        entries.push((name, property))
    }
}

/// The last write wins: after a value has been written under a name, the
/// name has that value, every other name has what it had, and still no
/// name occurs twice.
pub proof fn lemma_last_write_wins(
    entries: Entries,
    name: Seq<char>,
    property: PagePropertyView,
    other: Seq<char>,
)
    requires
        distinct(entries),
    ensures
        distinct(written(entries, name, property)),
        value(written(entries, name, property), name) == Some(property),
        other != name ==> value(written(entries, name, property), other) == value(entries, other),
        written(entries, name, property).len() == if holds(entries, name) {
            entries.len()
        } else {
            entries.len() + 1
        },
{
    let after = written(entries, name, property);
    let at: int = if holds(entries, name) {
        place(entries, name)
    } else {
        entries.len() as int
    };
    assert(after[at] == (name, property));
    assert forall|i: int, j: int| 0 <= i < j < after.len() implies (#[trigger] after[i]).0 != (
    #[trigger] after[j]).0 by {
        if i < entries.len() {
            assert(after[i].0 == entries[i].0);
        }
        if j < entries.len() {
            assert(after[j].0 == entries[j].0);
        }
    }
    assert(holds(after, name));
    let p = place(after, name);
    assert(p == at) by {
        if p < at {
            assert(after[p].0 != after[at].0);
        } else if at < p {
            assert(after[at].0 != after[p].0);
        }
    }
    if other != name {
        if holds(entries, other) {
            let q = place(entries, other);
            assert(after[q] == entries[q]);
            assert(holds(after, other));
            let q2 = place(after, other);
            assert(q2 == q) by {
                if q2 < q {
                    assert(after[q2].0 != after[q].0);
                } else if q < q2 {
                    assert(after[q].0 != after[q2].0);
                }
            }
        } else {
            if holds(after, other) {
                let q2 = place(after, other);
                if q2 < entries.len() {
                    assert(entries[q2].0 == other);
                }
            }
        }
    }
}

/// A map as it is sent: each value as it is sent, under its name.
pub open spec fn sent_entries(entries: Entries) -> Entries {
    Seq::new(entries.len(), |i: int| (entries[i].0, entries[i].1.sent()))
}

/// Whether the moments of every date of a map name days that exist.
pub open spec fn valid_entries(entries: Entries) -> bool {
    forall|i: int| 0 <= i < entries.len() ==> (#[trigger] entries[i]).1.valid()
}

/// What the members of an object decode to as a map, from the first to
/// the last: each member is a property under its name, a name that comes
/// again overwrites, and the first member that is refused decides the
/// error.
pub open spec fn decode_entries(members: Seq<(Seq<char>, JsonValue)>) -> Result<Entries, ErrorView>
    decreases members.len(),
{
    if members.len() == 0 {
        Ok(Seq::empty())
    } else {
        match decode_entries(members.drop_last()) {
            Err(e) => Err(e),
            Ok(front) => match decode_page_property(members.last().1) {
                Err(e) => Err(e),
                Ok(property) => Ok(written(front, members.last().0, property)),
            },
        }
    }
}

/// What a document decodes to as the properties of a record. A document
/// that is no object is refused.
pub open spec fn decode_page_properties(j: JsonValue) -> Result<Entries, ErrorView> {
    match j {
        JsonValue::Object(members) => decode_entries(members),
        _ => Err(ErrorView::InvalidType { field: "properties"@ }),
    }
}

/// The members that a map is written as: each property under its name.
pub open spec fn encode_entries(entries: Entries) -> Seq<(Seq<char>, JsonValue)> {
    Seq::new(entries.len(), |i: int| (entries[i].0, encode_page_property(entries[i].1)))
}

/// The document that the properties of a record are written as.
pub open spec fn encode_page_properties(entries: Entries) -> JsonValue {
    JsonValue::Object(encode_entries(entries))
}

/// Once a member has been refused, the members behind it change nothing.
pub proof fn lemma_entries_refused(members: Seq<(Seq<char>, JsonValue)>, upto: int)
    requires
        0 <= upto <= members.len(),
        decode_entries(members.take(upto)) is Err,
    ensures
        decode_entries(members) == decode_entries(members.take(upto)),
    decreases members.len() - upto,
{
    if upto < members.len() {
        assert(members.take(upto + 1).drop_last() =~= members.take(upto));
        lemma_entries_refused(members, upto + 1);
    } else {
        assert(members.take(upto) =~= members);
    }
}

/// The properties of a record, written and read again, are the properties
/// that were sent, each under its name and in its place.
pub proof fn lemma_page_properties_round_trip(entries: Entries)
    requires
        distinct(entries),
        valid_entries(entries),
    ensures
        decode_page_properties(encode_page_properties(entries)) == Ok::<Entries, ErrorView>(
            sent_entries(entries),
        ),
    decreases entries.len(),
{
    let members = encode_entries(entries);
    if entries.len() == 0 {
        assert(sent_entries(entries) =~= Seq::empty());
    } else {
        let front = entries.drop_last();
        let last = entries.last();
        assert(distinct(front)) by {
            assert forall|i: int, j: int| 0 <= i < j < front.len() implies (#[trigger] front[i]).0
                != (#[trigger] front[j]).0 by {
                assert(entries[i].0 != entries[j].0);
            }
        }
        assert(valid_entries(front)) by {
            assert forall|i: int| 0 <= i < front.len() implies (#[trigger] front[i]).1.valid() by {
                assert(entries[i].1.valid());
            }
        }
        lemma_page_properties_round_trip(front);
        assert(members.drop_last() =~= encode_entries(front));
        assert(last.1.valid());
        lemma_page_property_round_trip(last.1);
        let read = sent_entries(front);
        assert(!holds(read, last.0)) by {
            if holds(read, last.0) {
                let i = place(read, last.0);
                assert(entries[i].0 != entries[entries.len() - 1].0);
            }
        }
        assert(sent_entries(entries) =~= read.push((last.0, last.1.sent())));
    }
}

/// The properties of a record, each under its name. A name has one value:
/// a value that is put in under a name that has one takes its place.
#[derive(Debug, PartialEq, Eq)]
pub struct PageProperties {
    entries: Vec<(String, PageProperty)>,
}

impl View for PageProperties {
    type V = Entries;

    closed spec fn view(&self) -> Entries {
        Seq::new(self.entries@.len(), |i: int| (self.entries@[i].0@, self.entries@[i].1@))
    }
}

impl DeepView for PageProperties {
    type V = Entries;

    open spec fn deep_view(&self) -> Entries {
        self@
    }
}

impl Clone for PageProperties {
    /// A map of the same names with the same values, in the same order.
    fn clone(&self) -> (r: PageProperties)
        ensures
            r@ == self@,
    {
        proof {
            use_type_invariant(self);
        }
        let mut entries: Vec<(String, PageProperty)> = Vec::new();
        let mut i: usize = 0;
        while i < self.entries.len()
            invariant
                i <= self.entries.len(),
                entries.len() == i,
                forall|k: int|
                    0 <= k < i ==> (#[trigger] entries@[k]).0@ == self.entries@[k].0@
                        && entries@[k].1@ == self.entries@[k].1@,
            decreases self.entries.len() - i,
        {
            entries.push((self.entries[i].0.clone(), self.entries[i].1.clone()));
            i += 1;
        }
        let ghost after = Seq::new(entries@.len(), |i: int| (entries@[i].0@, entries@[i].1@));
        assert(after =~= self@);
        let r = PageProperties { entries };
        assert(r@ =~= self@);
        r
    }
}

impl PageProperties {
    #[verifier::type_invariant]
    spec fn well_formed(self) -> bool {
        distinct(self@)
    }

    /// A map without a name.
    pub fn new() -> (r: PageProperties)
        ensures
            r@ == Seq::<(Seq<char>, PagePropertyView)>::empty(),
            forall|name: Seq<char>| !#[trigger] holds(r@, name),
    {
        let r = PageProperties { entries: Vec::new() };
        assert(r@ =~= Seq::<(Seq<char>, PagePropertyView)>::empty());
        r
    }

    /// How many names have a value.
    pub fn len(&self) -> (r: usize)
        ensures
            r == self@.len(),
            distinct(self@),
    {
        proof {
            use_type_invariant(self);
        }
        self.entries.len()
    }

    /// The place at which `name` stands, if it has a value.
    fn find(&self, name: &str) -> (r: Option<usize>)
        ensures
            distinct(self@),
            match r {
                Some(at) => at < self@.len() && holds(self@, name@) && place(self@, name@) == at,
                None => !holds(self@, name@),
            },
    {
        proof {
            use_type_invariant(self);
        }
        let mut i: usize = 0;
        while i < self.entries.len()
            invariant
                i <= self.entries.len(),
                self@.len() == self.entries.len(),
                distinct(self@),
                forall|k: int| 0 <= k < i ==> (#[trigger] self@[k]).0 != name@,
            decreases self.entries.len() - i,
        {
            if same_text(self.entries[i].0.as_str(), name) {
                proof {
                    assert(self@[i as int].0 == name@);
                    let p = place(self@, name@);
                    if p < i {
                        assert(self@[p].0 != name@);
                    } else if i < p {
                        assert(self@[i as int].0 != self@[p].0);
                    }
                }
                return Some(i);
            }
            i += 1;
        }
        None
    }

    /// The value of `name`, if it has one.
    pub fn get(&self, name: &str) -> (r: Option<&PageProperty>)
        ensures
            r.deep_view() == value(self@, name@),
    {
        match self.find(name) {
            Some(at) => Some(&self.entries[at].1),
            None => None,
        }
    }

    /// Whether `name` has a value.
    pub fn contains(&self, name: &str) -> (r: bool)
        ensures
            r == holds(self@, name@),
    {
        self.find(name).is_some()
    }

    /// Writes `property` under `name`. Where the name had a value, the new
    /// one takes its place: the last write wins.
    pub fn insert(self, name: &str, property: PageProperty) -> (r: PageProperties)
        ensures
            r@ == written(self@, name@, property@),
            distinct(r@),
            holds(r@, name@),
            value(r@, name@) == Some(property@),
            forall|other: Seq<char>|
                other != name@ ==> #[trigger] value(r@, other) == value(self@, other),
            r@.len() == if holds(self@, name@) {
                self@.len()
            } else {
                self@.len() + 1
            },
    {
        proof {
            use_type_invariant(&self);
            lemma_last_write_wins(self@, name@, property@, name@);
            assert forall|other: Seq<char>| other != name@ implies #[trigger] value(
                written(self@, name@, property@),
                other,
            ) == value(self@, other) by {
                lemma_last_write_wins(self@, name@, property@, other);
            }
        }
        let found = self.find(name);
        let ghost before = self@;
        let mut entries = self.entries;
        match found {
            Some(at) => {
                entries.set(at, (name.to_owned(), property));
            },
            None => {
                entries.push((name.to_owned(), property));
            },
        }
        let ghost after = Seq::new(entries@.len(), |i: int| (entries@[i].0@, entries@[i].1@));
        assert(after =~= written(before, name@, property@));
        PageProperties { entries }
    }

    /// Reads the properties of a record from a document.
    pub fn from_json(j: &Json) -> (r: Result<PageProperties, Error>)
        ensures
            outcome(r) == decode_page_properties(j@),
    {
        let members = match j {
            Json::Object(members) => members,
            _ => { return Err(Error::InvalidType { field: "properties".to_owned() }); },
        };
        proof {
            lemma_object_value(*members);
        }
        let ghost all = members_of(members@);
        let mut map = PageProperties::new();
        let mut i: usize = 0;
        assert(all.take(0) =~= Seq::empty());
        while i < members.len()
            invariant
                i <= members.len(),
                all == members_of(members@),
                j@ == JsonValue::Object(all),
                decode_entries(all.take(i as int)) == Ok::<Entries, ErrorView>(map@),
            decreases members.len() - i,
        {
            assert(all.take(i + 1).drop_last() =~= all.take(i as int));
            assert(all.take(i + 1).last() == (members@[i as int].0@, members@[i as int].1@));
            match PageProperty::from_json(&members[i].1) {
                Err(e) => {
                    proof {
                        lemma_entries_refused(all, i + 1);
                    }
                    return Err(e);
                },
                Ok(property) => {
                    map = map.insert(members[i].0.as_str(), property);
                },
            }
            i += 1;
        }
        assert(all.take(i as int) =~= all);
        Ok(map)
    }

    /// Writes the properties of a record as a document, each under its
    /// name, without what only the service fills in.
    pub fn to_json(&self) -> (r: Json)
        ensures
            r@ == encode_page_properties(self@),
    {
        let mut members: Vec<(String, Json)> = Vec::new();
        let mut i: usize = 0;
        while i < self.entries.len()
            invariant
                i <= self.entries.len(),
                members.len() == i,
                forall|k: int|
                    0 <= k < i ==> (#[trigger] members@[k]).0@ == self.entries@[k].0@
                        && members@[k].1@ == encode_page_property(self.entries@[k].1@),
            decreases self.entries.len() - i,
        {
            members.push((self.entries[i].0.clone(), self.entries[i].1.to_json()));
            i += 1;
        }
        assert(members_of(members@) =~= encode_entries(self@));
        object(members)
    }
}

} // verus!
