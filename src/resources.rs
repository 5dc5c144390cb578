use crate::table::{payload, resource_text, ResourceKey};
use serde_json::Value;
use vstd::prelude::*;

verus! {

/// What a text holds when read as a JSON object: its members as
/// (name, content) pairs, in name order. The content of an array member is
/// its elements, each as (compact JSON text, content where it is a string);
/// any other member has no content.
pub uninterp spec fn json_members(
    text: Seq<char>,
) -> Option<Seq<(Seq<char>, Option<Seq<(Seq<char>, Option<Seq<char>>)>>)>>;

/// One element of an array member: its compact JSON text, and its content
/// where it is a string.
pub type Element = (String, Option<String>);

/// One member of an object: its name, and its elements where it is an array.
pub type Member = (String, Option<Vec<Element>>);

pub type ElementView = (Seq<char>, Option<Seq<char>>);

pub type MemberView = (Seq<char>, Option<Seq<ElementView>>);

pub open spec fn element_view(e: Element) -> ElementView {
    (e.0@, match e.1 {
        Some(s) => Some(s@),
        None => None,
    })
}

pub open spec fn elements_view(v: Seq<Element>) -> Seq<ElementView> {
    v.map_values(|e: Element| element_view(e))
}

pub open spec fn content_view(c: Option<Vec<Element>>) -> Option<Seq<ElementView>> {
    match c {
        Some(l) => Some(elements_view(l@)),
        None => None,
    }
}

pub open spec fn member_view(m: Member) -> MemberView {
    (m.0@, content_view(m.1))
}

pub open spec fn members_view(v: Seq<Member>) -> Seq<MemberView> {
    v.map_values(|m: Member| member_view(m))
}

pub open spec fn strings_view(v: Seq<String>) -> Seq<Seq<char>> {
    v.map_values(|s: String| s@)
}

/// The content of the first member named `key`, from position `i` on; the
/// outer `None` where no member has that name.
pub open spec fn lookup_from(es: Seq<MemberView>, key: Seq<char>, i: int) -> Option<
    Option<Seq<ElementView>>,
>
    decreases es.len() - i,
{
    if i < 0 || i >= es.len() {
        None
    } else if es[i].0 == key {
        Some(es[i].1)
    } else {
        lookup_from(es, key, i + 1)
    }
}

pub open spec fn lookup(es: Seq<MemberView>, key: Seq<char>) -> Option<Option<Seq<ElementView>>> {
    lookup_from(es, key, 0)
}

/// The string contents of the elements, where every element is a string.
pub open spec fn all_strings(l: Seq<ElementView>) -> Option<Seq<Seq<char>>> {
    if forall|i: int| 0 <= i < l.len() ==> (#[trigger] l[i]).1 is Some {
        Some(l.map_values(|e: ElementView| e.1.unwrap()))
    } else {
        None
    }
}

/// The strings of the member named `key`, where it is an array of strings.
pub open spec fn string_member(es: Seq<MemberView>, key: Seq<char>) -> Option<Seq<Seq<char>>> {
    match lookup(es, key) {
        Some(Some(l)) => all_strings(l),
        _ => None,
    }
}

/// The element texts of the member named `key`, where it is an array.
pub open spec fn record_member(es: Seq<MemberView>, key: Seq<char>) -> Option<Seq<Seq<char>>> {
    match lookup(es, key) {
        Some(Some(l)) => Some(l.map_values(|e: ElementView| e.0)),
        _ => None,
    }
}

/// Relies on serde_json::from_str, read into a BTreeMap from names to
/// serde_json::Value, whose entries come out in name order; array elements
/// are written back with Value's Display impl. On failure it hands back the
/// error's message.
#[verifier::external_body]
fn parse_members(text: &str) -> (r: Result<Vec<Member>, String>)
    ensures
        match r {
            Ok(v) => json_members(text@) == Some(members_view(v@)),
            Err(_) => json_members(text@) is None,
        },
{
    match serde_json::from_str::<std::collections::BTreeMap<String, Value>>(text) {
        Ok(m) => Ok(m.into_iter().map(|(k, v)| {
            let content = match v {
                Value::Array(vs) => Some(vs.into_iter().map(|e| (e.to_string(), match e {
                    Value::String(s) => Some(s),
                    _ => None,
                })).collect()),
                _ => None,
            };
            (k, content)
        }).collect()),
        Err(e) => Err(e.to_string()),
    }
}

/// The content of the first member named `key`.
pub fn find_member<'a>(members: &'a Vec<Member>, key: &str) -> (r: Option<&'a Option<Vec<Element>>>)
    ensures
        match r {
            Some(c) => lookup(members_view(members@), key@) == Some(content_view(*c)),
            None => lookup(members_view(members@), key@) is None,
        },
{
    let k = key.to_owned();
    let ghost es = members_view(members@);
    let mut i: usize = 0;
    while i < members.len()
        invariant
            i <= members.len(),
            es == members_view(members@),
            k@ == key@,
            lookup(es, key@) == lookup_from(es, key@, i as int),
        decreases members.len() - i,
    {
        if members[i].0 == k {
            return Some(&members[i].1);
        }
        i = i + 1;
    }
    None
}

/// The strings of the member named `key`, where it is an array of strings.
fn strings_in(members: &Vec<Member>, key: &str) -> (r: Option<Vec<String>>)
    ensures
        match r {
            Some(v) => string_member(members_view(members@), key@) == Some(strings_view(v@)),
            None => string_member(members_view(members@), key@) is None,
        },
{
    match find_member(members, key) {
        Some(Some(l)) => {
            let ghost lv = elements_view(l@);
            assert(lookup(members_view(members@), key@) == Some(Some(lv)));
            let mut out: Vec<String> = Vec::new();
            let mut i: usize = 0;
            while i < l.len()
                invariant
                    i <= l.len(),
                    lv == elements_view(l@),
                    lookup(members_view(members@), key@) == Some(Some(lv)),
                    out.len() == i,
                    forall|j: int| 0 <= j < i ==> (#[trigger] lv[j]).1 == Some(out@[j]@),
                decreases l.len() - i,
            {
                match &l[i].1 {
                    Some(s) => out.push(s.clone()),
                    None => {
                        assert(lv[i as int].1 is None);
                        assert(all_strings(lv) is None);
                        return None;
                    },
                }
                i = i + 1;
            }
            assert(forall|j: int| 0 <= j < lv.len() ==> (#[trigger] lv[j]).1 is Some);
            assert(strings_view(out@) =~= lv.map_values(|e: ElementView| e.1.unwrap()));
            Some(out)
        },
        _ => None,
    }
}

/// The element texts of the member named `key`, where it is an array.
fn records_in(members: &Vec<Member>, key: &str) -> (r: Option<Vec<String>>)
    ensures
        match r {
            Some(v) => record_member(members_view(members@), key@) == Some(strings_view(v@)),
            None => record_member(members_view(members@), key@) is None,
        },
{
    match find_member(members, key) {
        Some(Some(l)) => {
            let ghost lv = elements_view(l@);
            assert(lookup(members_view(members@), key@) == Some(Some(lv)));
            let mut out: Vec<String> = Vec::new();
            let mut i: usize = 0;
            while i < l.len()
                invariant
                    i <= l.len(),
                    lv == elements_view(l@),
                    lookup(members_view(members@), key@) == Some(Some(lv)),
                    out.len() == i,
                    forall|j: int| 0 <= j < i ==> (#[trigger] lv[j]).0 == out@[j]@,
                decreases l.len() - i,
            {
                out.push(l[i].0.clone());
                i = i + 1;
            }
            assert(strings_view(out@) =~= lv.map_values(|e: ElementView| e.0));
            Some(out)
        },
        _ => None,
    }
}

/// Why a resource did not decode.
#[derive(Debug, Clone, PartialEq)]
pub enum DecodeError {
    /// The text is not a JSON object; the parser's message.
    Syntax(String),
    /// The named member is missing or not of the shape the resource needs.
    Member(String),
}

/// A type whose value is read from one embedded resource.
pub trait Resource: Sized + View {
    /// The key of the resource this type is read from.
    spec fn spec_key() -> ResourceKey;

    /// The value that `text` decodes to, if it is well formed.
    spec fn decoded(text: Seq<char>) -> Option<Self::V>;

    fn key() -> (r: ResourceKey)
        ensures
            r == Self::spec_key(),
    ;

    /// Reads a value from text; members it does not need are ignored,
    /// whatever they hold.
    fn from_text(text: &str) -> (r: Result<Self, DecodeError>)
        ensures
            match r {
                Ok(v) => Self::decoded(text@) == Some(v@),
                Err(e) => Self::decoded(text@) is None && (e is Syntax <==> json_members(text@) is None),
            },
    ;
}

/// Reads the resource that `T` is keyed to, saying why it failed.
pub fn try_fetch_resource<T: Resource>() -> (r: Result<T, DecodeError>)
    ensures
        match r {
            Ok(v) => T::decoded(payload(T::spec_key())) == Some(v@),
            Err(e) => T::decoded(payload(T::spec_key())) is None
                && (e is Syntax <==> json_members(payload(T::spec_key())) is None),
        },
{
    let text = resource_text(T::key());
    T::from_text(text)
}

/// Reads the resource that `T` is keyed to. A malformed payload gives `None`.
pub fn fetch_resource<T: Resource>() -> (r: Option<T>)
    ensures
        match r {
            Some(v) => T::decoded(payload(T::spec_key())) == Some(v@),
            None => T::decoded(payload(T::spec_key())) is None,
        },
{
    match try_fetch_resource::<T>() {
        Ok(v) => Some(v),
        Err(_) => None,
    }
}

/// Word lists used to name celestial bodies.
#[derive(PartialEq, Debug, Clone)]
pub struct AstronomicalNamesResource {
    pub names: Vec<String>,
    pub scientific_names: Vec<String>,
    pub greek: Vec<String>,
    pub roman: Vec<String>,
    pub decorators: Vec<String>,
}

/// The five word lists, in field order.
pub type NameLists = (Seq<Seq<char>>, Seq<Seq<char>>, Seq<Seq<char>>, Seq<Seq<char>>, Seq<Seq<char>>);

impl View for AstronomicalNamesResource {
    type V = NameLists;

    open spec fn view(&self) -> NameLists {
        (
            strings_view(self.names@),
            strings_view(self.scientific_names@),
            strings_view(self.greek@),
            strings_view(self.roman@),
            strings_view(self.decorators@),
        )
    }
}

/// The five word lists found in decoded members, if each is an array of
/// strings.
pub open spec fn name_lists_of(es: Seq<MemberView>) -> Option<NameLists> {
    match (
        string_member(es, "names"@),
        string_member(es, "scientific_names"@),
        string_member(es, "greek"@),
        string_member(es, "roman"@),
        string_member(es, "decorators"@),
    ) {
        (Some(a), Some(b), Some(c), Some(d), Some(e)) => Some((a, b, c, d, e)),
        _ => None,
    }
}

fn member_error(key: &str) -> (r: DecodeError)
    ensures
        r is Member,
{
    DecodeError::Member(key.to_owned())
}

impl Resource for AstronomicalNamesResource {
    open spec fn spec_key() -> ResourceKey {
        ResourceKey::AstronomicalNames
    }

    open spec fn decoded(text: Seq<char>) -> Option<NameLists> {
        match json_members(text) {
            Some(es) => name_lists_of(es),
            None => None,
        }
    }

    fn key() -> (r: ResourceKey) {
        ResourceKey::AstronomicalNames
    }

    fn from_text(text: &str) -> (r: Result<Self, DecodeError>) {
        let members = match parse_members(text) {
            Ok(m) => m,
            Err(msg) => return Err(DecodeError::Syntax(msg)),
        };
        let names = match strings_in(&members, "names") {
            Some(v) => v,
            None => return Err(member_error("names")),
        };
        let scientific_names = match strings_in(&members, "scientific_names") {
            Some(v) => v,
            None => return Err(member_error("scientific_names")),
        };
        let greek = match strings_in(&members, "greek") {
            Some(v) => v,
            None => return Err(member_error("greek")),
        };
        let roman = match strings_in(&members, "roman") {
            Some(v) => v,
            None => return Err(member_error("roman")),
        };
        let decorators = match strings_in(&members, "decorators") {
            Some(v) => v,
            None => return Err(member_error("decorators")),
        };
        Ok(AstronomicalNamesResource { names, scientific_names, greek, roman, decorators })
    }
}

/// One ship's characteristics, kept as the JSON text of its record.
#[derive(PartialEq, Debug, Clone)]
pub struct ShipCharacteristics {
    pub record: String,
}

/// One schematic, kept as the JSON text of its record.
#[derive(PartialEq, Debug, Clone)]
pub struct Schematic {
    pub record: String,
}

/// Every ship available in the game, in the order of the resource.
#[derive(Debug)]
pub struct ShipResource {
    pub ships: Vec<ShipCharacteristics>,
}

/// Every schematic, in the order of the resource.
#[derive(Debug)]
pub struct SchematicResource {
    pub schematics: Vec<Schematic>,
}

impl View for ShipResource {
    type V = Seq<Seq<char>>;

    open spec fn view(&self) -> Seq<Seq<char>> {
        self.ships@.map_values(|s: ShipCharacteristics| s.record@)
    }
}

impl View for SchematicResource {
    type V = Seq<Seq<char>>;

    open spec fn view(&self) -> Seq<Seq<char>> {
        self.schematics@.map_values(|s: Schematic| s.record@)
    }
}

/// The record texts listed under `key`, if the text decodes and that member
/// is an array.
pub open spec fn records_under(text: Seq<char>, key: Seq<char>) -> Option<Seq<Seq<char>>> {
    match json_members(text) {
        Some(es) => record_member(es, key),
        None => None,
    }
}

impl Resource for ShipResource {
    open spec fn spec_key() -> ResourceKey {
        ResourceKey::Ships
    }

    open spec fn decoded(text: Seq<char>) -> Option<Seq<Seq<char>>> {
        records_under(text, "ships"@)
    }

    fn key() -> (r: ResourceKey) {
        ResourceKey::Ships
    }

    fn from_text(text: &str) -> (r: Result<Self, DecodeError>) {
        let members = match parse_members(text) {
            Ok(m) => m,
            Err(msg) => return Err(DecodeError::Syntax(msg)),
        };
        let records = match records_in(&members, "ships") {
            Some(v) => v,
            None => return Err(member_error("ships")),
        };
        let mut ships: Vec<ShipCharacteristics> = Vec::new();
        let mut i: usize = 0;
        while i < records.len()
            invariant
                i <= records.len(),
                ships.len() == i,
                forall|j: int| 0 <= j < i ==> #[trigger] ships@[j].record@ == records@[j]@,
            decreases records.len() - i,
        {
            ships.push(ShipCharacteristics { record: records[i].clone() });
            i = i + 1;
        }
        let r = ShipResource { ships };
        assert(r@ =~= strings_view(records@));
        Ok(r)
    }
}

impl Resource for SchematicResource {
    open spec fn spec_key() -> ResourceKey {
        ResourceKey::Schematics
    }

    open spec fn decoded(text: Seq<char>) -> Option<Seq<Seq<char>>> {
        records_under(text, "schematics"@)
    }

    fn key() -> (r: ResourceKey) {
        ResourceKey::Schematics
    }

    fn from_text(text: &str) -> (r: Result<Self, DecodeError>) {
        let members = match parse_members(text) {
            Ok(m) => m,
            Err(msg) => return Err(DecodeError::Syntax(msg)),
        };
        let records = match records_in(&members, "schematics") {
            Some(v) => v,
            None => return Err(member_error("schematics")),
        };
        let mut schematics: Vec<Schematic> = Vec::new();
        let mut i: usize = 0;
        while i < records.len()
            invariant
                i <= records.len(),
                schematics.len() == i,
                forall|j: int| 0 <= j < i ==> #[trigger] schematics@[j].record@ == records@[j]@,
            decreases records.len() - i,
        {
            schematics.push(Schematic { record: records[i].clone() });
            i = i + 1;
        }
        let r = SchematicResource { schematics };
        assert(r@ =~= strings_view(records@));
        Ok(r)
    }
}

} // verus!
