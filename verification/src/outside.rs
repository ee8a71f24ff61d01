//! What the library takes from other crates and from the machine it runs on.
//!
//! What the wrappers in this file claim of other crates is believed, not proved. What
//! they read off the machine comes as a value of a type of its own, which nothing else can
//! make: a contract that speaks of such a value speaks of what was read.

use core::time::Duration;
use vstd::prelude::*;

use crate::job::text_view;
use crate::keys::Text;

verus! {

/// A number of CPUs that the machine has reported.
#[derive(Clone, Copy, Debug)]
pub struct CpuCount {
    count: usize,
}

impl View for CpuCount {
    type V = usize;

    closed spec fn view(&self) -> usize {
        self.count
    }
}

impl CpuCount {
    /// The number.
    pub(crate) fn get(self) -> (count: usize)
        ensures
            count == self@,
    {
        self.count
    }
}

/// A host name that the machine has reported, if it is valid Unicode.
#[derive(Debug)]
pub struct HostName {
    name: Option<String>,
}

impl View for HostName {
    type V = Option<Text>;

    closed spec fn view(&self) -> Option<Text> {
        text_view(self.name)
    }
}

impl HostName {
    /// The name.
    pub(crate) fn get(self) -> (name: Option<String>)
        ensures
            text_view(name) == self@,
    {
        self.name
    }
}

/// A reading of the clock, in seconds since the Unix epoch.
#[derive(Clone, Copy, Debug)]
pub struct ClockReading {
    seconds: i64,
}

impl View for ClockReading {
    type V = i64;

    closed spec fn view(&self) -> i64 {
        self.seconds
    }
}

impl ClockReading {
    /// The seconds.
    pub(crate) fn get(self) -> (seconds: i64)
        ensures
            seconds == self@,
    {
        self.seconds
    }
}

/// What was read is shown as it was read, whatever it is.
proof fn law_readings_show_what_was_read(cpus: CpuCount, host: HostName, clock: ClockReading)
    ensures
        cpus@ == cpus.count,
        host.name matches Some(name) ==> host@ == Some(name@),
        host@ is Some <==> host.name is Some,
        clock@ == clock.seconds,
{
}

/// The number of workers that suits the machine: [`num_cpus::get`].
///
/// The contract claims what that function documents of every outcome: at least
/// one CPU is reported. The number itself is the machine's.
#[verifier::external_body]
pub(crate) fn logical_cpus() -> (cpus: CpuCount)
    ensures
        cpus@ >= 1,
{
    CpuCount { count: num_cpus::get() }
}

/// The name of this host: [`gethostname::gethostname`], or `None` where the
/// operating system's name is not valid Unicode.
///
/// Nothing is claimed of the name, which is the machine's. The call would panic if the
/// operating system gave no name, which its documentation rules out in practice.
#[verifier::external_body]
pub(crate) fn host_name() -> (name: HostName) {
    HostName { name: gethostname::gethostname().into_string().ok() }
}

/// Seconds since the Unix epoch: [`chrono::Utc::now`] and its `timestamp`.
///
/// Nothing is claimed of the number, which is the clock's. The call panics where the
/// system clock stands before 1970.
#[verifier::external_body]
pub(crate) fn unix_now() -> (reading: ClockReading) {
    ClockReading { seconds: chrono::Utc::now().timestamp() }
}

/// The duration that [`Duration::from_secs`] makes of a number of whole seconds.
pub uninterp spec fn whole_seconds(seconds: u64) -> Duration;

/// [`Duration::from_secs`]. The contract claims that the duration depends on the number
/// of seconds alone.
pub assume_specification[ Duration::from_secs ](seconds: u64) -> (duration: Duration)
    ensures
        duration == whole_seconds(seconds),
;

/// A [`serde_json::Value`], opaque here.
#[verifier::external_type_specification]
#[verifier::external_body]
pub struct ExValue(serde_json::Value);

/// A [`serde_json::Map`], the fields of a JSON object.
#[verifier::external_type_specification]
#[verifier::external_body]
#[verifier::reject_recursive_types(K)]
#[verifier::reject_recursive_types(V)]
pub struct ExObject<K, V>(serde_json::Map<K, V>);

/// What a field of a JSON object holds.
pub enum Field {
    /// A JSON string.
    Text(Text),
    /// A JSON number without a fraction.
    Integer(int),
}

/// The fields of a JSON object by their names.
pub uninterp spec fn fields(object: serde_json::Map<String, serde_json::Value>) -> Map<Text, Field>;

/// The fields of an empty object.
pub open spec fn no_fields() -> Map<Text, Field> {
    Map::empty()
}

/// The compact JSON text of an object with the given fields.
pub uninterp spec fn object_text(fields: Map<Text, Field>) -> Text;

/// [`serde_json::Map::new`]. The contract claims that the object has no fields.
#[verifier::external_body]
pub(crate) fn empty_object() -> (object: serde_json::Map<String, serde_json::Value>)
    ensures
        fields(object) == no_fields(),
{
    serde_json::Map::new()
}

/// [`serde_json::Map::insert`] of [`serde_json::Value::from`] a text. The contract claims
/// that the field then holds the text as a JSON string, in place of what it held before,
/// and that the other fields stay as they are.
#[verifier::external_body]
pub(crate) fn insert_text(
    object: &mut serde_json::Map<String, serde_json::Value>,
    name: &str,
    value: &str,
)
    ensures
        fields(*final(object)) == fields(*old(object)).insert(name@, Field::Text(value@)),
{
    object.insert(name.to_string(), serde_json::Value::from(value));
}

/// [`serde_json::Map::insert`] of [`serde_json::Value::from`] a number. The contract claims
/// that the field then holds the number as a JSON number, in place of what it held
/// before, and that the other fields stay as they are.
#[verifier::external_body]
pub(crate) fn insert_integer(
    object: &mut serde_json::Map<String, serde_json::Value>,
    name: &str,
    value: i64,
)
    ensures
        fields(*final(object)) == fields(*old(object)).insert(name@, Field::Integer(value as int)),
{
    object.insert(name.to_string(), serde_json::Value::from(value));
}

/// The `Display` text of [`serde_json::Value::Object`], which is compact JSON. The
/// contract claims that the fields alone decide the text: the map keeps them sorted by
/// their names, so that the order in which they were inserted does not matter. What the
/// text looks like is left unsaid.
#[verifier::external_body]
pub(crate) fn render_object(object: serde_json::Map<String, serde_json::Value>) -> (text: String)
    ensures
        text@ == object_text(fields(object)),
{
    serde_json::Value::Object(object).to_string()
}

} // verus!
