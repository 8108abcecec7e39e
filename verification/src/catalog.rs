//! The catalog of tracked objects: the address of the catalog service for a
//! place on the ground, the records in the service's answer, and the list
//! that a display keeps between answers.
//!
//! The answer is JSON and is read by `serde_json`. Latitude, longitude and
//! altitude are carried as IEEE 754 binary64 bit patterns: this module moves
//! them and never computes with them.

use vstd::prelude::*;
use vstd::string::*;

verus! {

/// A JSON value as `serde_json` holds it.
#[verifier::external_type_specification]
#[verifier::external_body]
pub struct ExJsonValue(serde_json::Value);

/// The report of `serde_json` on text that is not JSON.
#[verifier::external_type_specification]
#[verifier::external_body]
pub struct ExJsonError(serde_json::Error);

/// One tracked object of the catalog.
#[allow(non_snake_case)]
#[derive(Clone, Debug, PartialEq, Eq)]
pub struct SpaceObject {
    /// The catalog identifier, as JSON text.
    pub satid: String,
    /// The object's name, as JSON text.
    pub satname: String,
    /// The international designator, as JSON text.
    pub intDesignator: String,
    /// The launch date, as JSON text.
    pub launchDate: String,
    /// Latitude of the point below the object, in degrees (binary64 bits).
    pub satlat: u64,
    /// Longitude of the point below the object, in degrees (binary64 bits).
    pub satlng: u64,
    /// Altitude of the object, in kilometres (binary64 bits).
    pub satalt: u64,
    /// The object's element record, where one is known.
    pub tle: Option<String>,
}

/// One entry of the service's answer as it was found: the three numbers are
/// missing where the entry holds no number under their names.
#[allow(non_snake_case)]
#[derive(Debug)]
pub struct RawEntry {
    pub satid: String,
    pub satname: String,
    pub intDesignator: String,
    pub launchDate: String,
    pub satlat: Option<u64>,
    pub satlng: Option<u64>,
    pub satalt: Option<u64>,
}

/// One of the three numbers that place a tracked object.
#[derive(Clone, Copy, Debug, PartialEq, Eq, Structural)]
pub enum CoordinateField {
    Latitude,
    Longitude,
    Altitude,
}

/// Why an answer of the catalog service yields no list.
#[derive(Debug)]
pub enum CatalogError {
    /// The answer is not JSON.
    Malformed(serde_json::Error),
    /// The answer has no array under `above`.
    NoList,
    /// The entry at this place of the list lacks a number for this field:
    /// the first that it lacks of latitude, longitude and altitude.
    Coordinate { index: usize, field: CoordinateField },
}

/// The address of the catalog service for the objects above a place.
pub open spec fn spec_endpoint(latitude: Seq<char>, longitude: Seq<char>, api_key: Seq<char>) -> Seq<
    char,
> {
    "https://api.n2yo.com/rest/v1/satellite/above/"@ + latitude + "/"@ + longitude
        + "/0/70/32/&apiKey="@ + api_key
}

/// The address of the catalog service for the objects above a place.
pub fn endpoint(latitude: &str, longitude: &str, api_key: &str) -> (url: String)
    ensures
        url@ == spec_endpoint(latitude@, longitude@, api_key@),
{
    let mut url = String::from_str("https://api.n2yo.com/rest/v1/satellite/above/");
    url.append(latitude);
    url.append("/");
    url.append(longitude);
    url.append("/0/70/32/&apiKey=");
    url.append(api_key);
    url
}

impl RawEntry {
    /// The first number that the entry lacks, of latitude, longitude and
    /// altitude in this order, if it lacks one.
    pub open spec fn missing(&self) -> Option<CoordinateField> {
        if self.satlat is None {
            Some(CoordinateField::Latitude)
        } else if self.satlng is None {
            Some(CoordinateField::Longitude)
        } else if self.satalt is None {
            Some(CoordinateField::Altitude)
        } else {
            None
        }
    }

    /// Whether the entry has all three numbers.
    pub open spec fn complete(&self) -> bool {
        self.missing() is None
    }

    /// The tracked object that a complete entry describes.
    pub open spec fn spec_object(&self) -> SpaceObject {
        SpaceObject {
            satid: self.satid,
            satname: self.satname,
            intDesignator: self.intDesignator,
            launchDate: self.launchDate,
            satlat: self.satlat->0,
            satlng: self.satlng->0,
            satalt: self.satalt->0,
            tle: None,
        }
    }
}

impl SpaceObject {
    /// Whether an object is the placeholder shown before the first answer.
    pub open spec fn is_placeholder(&self) -> bool {
        &&& self.satid@ == "0"@
        &&& self.satname@ == "Dummy"@
        &&& self.intDesignator@ == "Designator"@
        &&& self.launchDate@ == "ReleasedToday"@
        &&& self.satlat == 0
        &&& self.satlng == 0
        &&& self.satalt == 0
        &&& self.tle is None
    }

    /// The placeholder shown before the first answer: at latitude, longitude
    /// and altitude zero, without an element record.
    pub fn placeholder() -> (object: SpaceObject)
        ensures
            object.is_placeholder(),
    {
        SpaceObject {
            satid: String::from_str("0"),
            satname: String::from_str("Dummy"),
            intDesignator: String::from_str("Designator"),
            launchDate: String::from_str("ReleasedToday"),
            satlat: 0,
            satlng: 0,
            satalt: 0,
            tle: None,
        }
    }

    /// The tracked object that an entry describes, or the first number that
    /// the entry lacks.
    pub fn from_entry(entry: &RawEntry) -> (res: Result<SpaceObject, CoordinateField>)
        ensures
            res == match entry.missing() {
                None => Ok::<SpaceObject, CoordinateField>(entry.spec_object()),
                Some(field) => Err(field),
            },
    {
        match (entry.satlat, entry.satlng, entry.satalt) {
            (None, _, _) => Err(CoordinateField::Latitude),
            (Some(_), None, _) => Err(CoordinateField::Longitude),
            (Some(_), Some(_), None) => Err(CoordinateField::Altitude),
            (Some(satlat), Some(satlng), Some(satalt)) => Ok(
                SpaceObject {
                    satid: entry.satid.clone(),
                    satname: entry.satname.clone(),
                    intDesignator: entry.intDesignator.clone(),
                    launchDate: entry.launchDate.clone(),
                    satlat,
                    satlng,
                    satalt,
                    tle: None,
                },
            ),
        }
    }
}

/// The list that the entries of an answer describe: all of them, in their
/// order, or none at all where one of them is incomplete. The failure names
/// the first incomplete entry and the first number that it lacks.
pub fn assemble(entries: &Vec<RawEntry>) -> (res: Result<Vec<SpaceObject>, CatalogError>)
    ensures
        res is Ok <==> forall|i: int| 0 <= i < entries@.len() ==> (#[trigger] entries@[i]).complete(),
        res matches Ok(objects) ==> objects@ == entries@.map_values(|e: RawEntry| e.spec_object()),
        res matches Err(failure) ==> {
            &&& failure matches CatalogError::Coordinate { index, field }
            &&& index < entries@.len()
            &&& entries@[index as int].missing() == Some(field)
            &&& forall|i: int| 0 <= i < index ==> (#[trigger] entries@[i]).complete()
        },
{
    let mut objects: Vec<SpaceObject> = Vec::new();
    let mut i: usize = 0;
    while i < entries.len()
        invariant
            i <= entries@.len(),
            objects@.len() == i,
            forall|k: int| 0 <= k < i ==> (#[trigger] entries@[k]).complete(),
            forall|k: int| 0 <= k < i ==> objects@[k] == (#[trigger] entries@[k]).spec_object(),
        decreases entries@.len() - i,
    {
        match SpaceObject::from_entry(&entries[i]) {
            Ok(object) => {
                objects.push(object);
            },
            Err(field) => {
                return Err(CatalogError::Coordinate { index: i, field });
            },
        }
        i = i + 1;
    }
    assert(objects@ =~= entries@.map_values(|e: RawEntry| e.spec_object()));
    Ok(objects)
}

/// What `serde_json::from_str` makes of a text: the JSON value that the
/// text denotes, or its report on text that is not JSON.
pub uninterp spec fn document_of(text: Seq<char>) -> Result<serde_json::Value, serde_json::Error>;

/// What indexing a `serde_json::Value` by a key gives: the member of an
/// object under that key, and the JSON null where the value is no object or
/// has no such member.
pub uninterp spec fn member_of(value: serde_json::Value, key: Seq<char>) -> serde_json::Value;

/// What `serde_json::Value::as_array` gives: the elements of a JSON array,
/// and nothing for any other value.
pub uninterp spec fn items_of(value: serde_json::Value) -> Option<Seq<serde_json::Value>>;

/// The text that the `Display` of a `serde_json::Value` writes: the value as
/// compact JSON.
pub uninterp spec fn text_of(value: serde_json::Value) -> Seq<char>;

/// What `serde_json::Value::as_f64` gives, as bits: a JSON number read as
/// binary64, and nothing for any other value.
pub uninterp spec fn number_of(value: serde_json::Value) -> Option<u64>;

/// The entries that a JSON answer lists under `above`, if it has an array there.
pub open spec fn listed(document: serde_json::Value) -> Option<Seq<serde_json::Value>> {
    items_of(member_of(document, "above"@))
}

/// Whether a raw entry holds what a JSON entry has under the seven names.
pub open spec fn read_from(raw: RawEntry, entry: serde_json::Value) -> bool {
    &&& raw.satid@ == text_of(member_of(entry, "satid"@))
    &&& raw.satname@ == text_of(member_of(entry, "satname"@))
    &&& raw.intDesignator@ == text_of(member_of(entry, "intDesignator"@))
    &&& raw.launchDate@ == text_of(member_of(entry, "launchDate"@))
    &&& raw.satlat == number_of(member_of(entry, "satlat"@))
    &&& raw.satlng == number_of(member_of(entry, "satlng"@))
    &&& raw.satalt == number_of(member_of(entry, "satalt"@))
}

/// The first number that a JSON entry lacks, of latitude, longitude and
/// altitude in this order, if it lacks one.
pub open spec fn lacks(entry: serde_json::Value) -> Option<CoordinateField> {
    if number_of(member_of(entry, "satlat"@)) is None {
        Some(CoordinateField::Latitude)
    } else if number_of(member_of(entry, "satlng"@)) is None {
        Some(CoordinateField::Longitude)
    } else if number_of(member_of(entry, "satalt"@)) is None {
        Some(CoordinateField::Altitude)
    } else {
        None
    }
}

/// Whether a JSON entry has a number for latitude, longitude and altitude.
pub open spec fn has_coordinates(entry: serde_json::Value) -> bool {
    lacks(entry) is None
}

/// Whether a tracked object is the one that a JSON entry describes: its four
/// texts are the entry's members as JSON text, its three numbers are the
/// entry's, and it has no element record.
pub open spec fn describes(entry: serde_json::Value, object: SpaceObject) -> bool {
    &&& object.satid@ == text_of(member_of(entry, "satid"@))
    &&& object.satname@ == text_of(member_of(entry, "satname"@))
    &&& object.intDesignator@ == text_of(member_of(entry, "intDesignator"@))
    &&& object.launchDate@ == text_of(member_of(entry, "launchDate"@))
    &&& number_of(member_of(entry, "satlat"@)) == Some(object.satlat)
    &&& number_of(member_of(entry, "satlng"@)) == Some(object.satlng)
    &&& number_of(member_of(entry, "satalt"@)) == Some(object.satalt)
    &&& object.tle is None
}

/// What a list of JSON entries yields: a tracked object for each entry, in
/// order, where every entry has its coordinates; else the place of the first
/// entry that lacks one, and the first that it lacks.
pub open spec fn yields(list: Seq<serde_json::Value>, res: Result<Vec<SpaceObject>, CatalogError>) -> bool {
    match res {
        Ok(objects) => {
            &&& objects@.len() == list.len()
            &&& forall|i: int|
                0 <= i < list.len() ==> has_coordinates(#[trigger] list[i]) && describes(
                    list[i],
                    objects@[i],
                )
        },
        Err(CatalogError::Coordinate { index, field }) => {
            &&& index < list.len()
            &&& lacks(list[index as int]) == Some(field)
            &&& forall|i: int| 0 <= i < index ==> has_coordinates(#[trigger] list[i])
        },
        Err(_) => false,
    }
}

/// Calls `serde_json::from_str`, which reads text as one JSON value.
#[verifier::external_body]
fn parse_document(text: &str) -> (res: Result<serde_json::Value, serde_json::Error>)
    ensures
        res == document_of(text@),
{
    serde_json::from_str(text)
}

/// Indexes a `serde_json::Value` by a key: the member of an object under
/// that key, and the JSON null where the value is no object or has no such
/// member.
#[verifier::external_body]
fn member<'a>(value: &'a serde_json::Value, key: &str) -> (res: &'a serde_json::Value)
    ensures
        *res == member_of(*value, key@),
{
    &value[key]
}

/// Calls `serde_json::Value::as_array`: the elements of a JSON array, and
/// nothing for any other value.
#[verifier::external_body]
fn array_items(value: &serde_json::Value) -> (res: Option<&Vec<serde_json::Value>>)
    ensures
        match res {
            Some(items) => items_of(*value) == Some(items@),
            None => items_of(*value) is None,
        },
{
    value.as_array()
}

/// Writes a `serde_json::Value` as compact JSON text, through its `Display`.
#[verifier::external_body]
fn json_text(value: &serde_json::Value) -> (res: String)
    ensures
        res@ == text_of(*value),
{
    value.to_string()
}

/// Calls `serde_json::Value::as_f64`: the bits of a JSON number read as
/// binary64, and nothing for any other value.
#[verifier::external_body]
fn number_bits(value: &serde_json::Value) -> (res: Option<u64>)
    ensures
        res == number_of(*value),
{
    match value.as_f64() {
        Some(number) => Some(number.to_bits()),
        None => None,
    }
}

/// One entry of the answer as it is found in the JSON value: its members
/// under the four text names as JSON text, and the numbers under the three
/// coordinate names.
fn read_entry(entry: &serde_json::Value) -> (raw: RawEntry)
    ensures
        read_from(raw, *entry),
{
    RawEntry {
        satid: json_text(member(entry, "satid")),
        satname: json_text(member(entry, "satname")),
        intDesignator: json_text(member(entry, "intDesignator")),
        launchDate: json_text(member(entry, "launchDate")),
        satlat: number_bits(member(entry, "satlat")),
        satlng: number_bits(member(entry, "satlng")),
        satalt: number_bits(member(entry, "satalt")),
    }
}

/// What a parsed answer holds under `above`, entry by entry; a failure where
/// the answer is not JSON or holds no array there.
pub fn entries_of(parsed: Result<serde_json::Value, serde_json::Error>) -> (res: Result<
    Vec<RawEntry>,
    CatalogError,
>)
    ensures
        match parsed {
            Err(report) => res matches Err(CatalogError::Malformed(r)) && r == report,
            Ok(document) => match listed(document) {
                None => res matches Err(CatalogError::NoList),
                Some(list) => {
                    &&& res matches Ok(entries)
                    &&& entries@.len() == list.len()
                    &&& forall|i: int|
                        0 <= i < list.len() ==> read_from(#[trigger] entries@[i], list[i])
                },
            },
        },
{
    match parsed {
        Err(report) => Err(CatalogError::Malformed(report)),
        Ok(document) => {
            match array_items(member(&document, "above")) {
                None => Err(CatalogError::NoList),
                Some(list) => {
                    let mut entries: Vec<RawEntry> = Vec::new();
                    let mut i: usize = 0;
                    while i < list.len()
                        invariant
                            i <= list@.len(),
                            entries@.len() == i,
                            forall|k: int|
                                0 <= k < i ==> read_from(#[trigger] entries@[k], list@[k]),
                        decreases list@.len() - i,
                    {
                        entries.push(read_entry(&list[i]));
                        i = i + 1;
                    }
                    Ok(entries)
                },
            }
        },
    }
}

/// The list of tracked objects that a display keeps between answers of the
/// catalog service.
#[derive(Clone, Debug)]
pub struct SpaceObjectTracking {
    tracked_objects: Vec<SpaceObject>,
    transaction_count: u64,
}

impl View for SpaceObjectTracking {
    type V = Seq<SpaceObject>;

    closed spec fn view(&self) -> Seq<SpaceObject> {
        self.tracked_objects@
    }
}

impl SpaceObjectTracking {
    /// The number of transactions with the catalog service that the display
    /// accounts for.
    pub closed spec fn spec_transaction_count(&self) -> u64 {
        self.transaction_count
    }

    /// Three placeholders.
    pub fn get_mocked_objects() -> (objects: Vec<SpaceObject>)
        ensures
            objects@.len() == 3,
            forall|i: int| 0 <= i < 3 ==> (#[trigger] objects@[i]).is_placeholder(),
    {
        let mut objects: Vec<SpaceObject> = Vec::new();
        objects.push(SpaceObject::placeholder());
        objects.push(SpaceObject::placeholder());
        objects.push(SpaceObject::placeholder());
        objects
    }

    /// The list before the first answer: three placeholders, and no
    /// transaction accounted for.
    pub fn new() -> (tracking: SpaceObjectTracking)
        ensures
            tracking@.len() == 3,
            forall|i: int| 0 <= i < 3 ==> (#[trigger] tracking@[i]).is_placeholder(),
            tracking.spec_transaction_count() == 0,
    {
        SpaceObjectTracking {
            tracked_objects: SpaceObjectTracking::get_mocked_objects(),
            transaction_count: 0,
        }
    }

    /// The tracked objects in an answer of the catalog service. An answer
    /// that is not JSON, or that has no array under `above`, fails as such.
    /// Else every entry of the array yields its object, in order, or the
    /// first entry that lacks a coordinate fails the whole answer. No object
    /// read from an answer has an element record.
    pub fn update_tracked_objects(response: &str) -> (res: Result<Vec<SpaceObject>, CatalogError>)
        ensures
            match document_of(response@) {
                Err(report) => res matches Err(CatalogError::Malformed(r)) && r == report,
                Ok(document) => match listed(document) {
                    None => res matches Err(CatalogError::NoList),
                    Some(list) => yields(list, res),
                },
            },
    {
        match entries_of(parse_document(response)) {
            Err(failure) => Err(failure),
            Ok(entries) => {
                let res = assemble(&entries);
                proof {
                    let list = listed(document_of(response@)->Ok_0)->0;
                    assert forall|i: int| 0 <= i < list.len() implies (#[trigger] entries@[i]).missing()
                        == lacks(list[i]) by {
                        assert(read_from(entries@[i], list[i]));
                    }
                    if res is Ok {
                        let objects = res->Ok_0;
                        assert forall|i: int| 0 <= i < list.len() implies has_coordinates(
                            #[trigger] list[i],
                        ) && describes(list[i], objects@[i]) by {
                            assert(entries@[i].complete());
                            assert(read_from(entries@[i], list[i]));
                            assert(objects@[i] == entries@[i].spec_object());
                        }
                    } else {
                        let index = res->Err_0->index;
                        assert(entries@[index as int].missing() == lacks(list[index as int]));
                        assert forall|i: int| 0 <= i < index implies has_coordinates(
                            #[trigger] list[i],
                        ) by {
                            assert(entries@[i].complete());
                        }
                    }
                }
                res
            },
        }
    }

    /// Takes in the outcome of a fetch. A list replaces the one kept so far
    /// as a whole; after a failure the list kept so far stays as it is, and
    /// the failure is handed back. The count of transactions stays.
    pub fn update(&mut self, outcome: Result<Vec<SpaceObject>, CatalogError>) -> (failure: Option<
        CatalogError,
    >)
        ensures
            match outcome {
                Ok(objects) => final(self)@ == objects@ && failure is None,
                Err(report) => final(self)@ == old(self)@ && failure == Some(report),
            },
            final(self).spec_transaction_count() == old(self).spec_transaction_count(),
    {
        match outcome {
            Ok(objects) => {
                self.tracked_objects = objects;
                None
            },
            Err(report) => Some(report),
        }
    }

    /// The number of transactions with the catalog service that the display
    /// accounts for.
    pub fn transaction_count(&self) -> (count: u64)
        ensures
            count == self.spec_transaction_count(),
    {
        self.transaction_count
    }

    /// The tracked objects, in the order of the last answer.
    pub fn tracked_objects(&self) -> (objects: &Vec<SpaceObject>)
        ensures
            objects@ == self@,
    {
        &self.tracked_objects
    }
}

} // verus!
