//! The result that every sensor returns.

use vstd::prelude::*;
use vstd::hash_map::StringHashMap;

verus! {

/// What a sensor found.
pub struct SensorResult {
    /// The name of the sensor that produced the result.
    pub sensor_name: String,
    /// Whether the audio passed; `None` for a sensor that only informs.
    pub passed: Option<bool>,
    /// The measured value, a binary64 encoding.
    pub value: u64,
    /// The threshold that decided, a binary64 encoding.
    pub threshold: u64,
    /// The reason code of a failure.
    pub reason: Option<String>,
    /// An explanation for a human reader.
    pub detail: Option<String>,
    /// Further data by key. A key occurs once; the last value written stays.
    pub metadata: StringHashMap<String>,
}

/// A result as a mathematical value: texts are sequences of characters and
/// the metadata is a map.
pub struct SensorResultView {
    pub sensor_name: Seq<char>,
    pub passed: Option<bool>,
    pub value: u64,
    pub threshold: u64,
    pub reason: Option<Seq<char>>,
    pub detail: Option<Seq<char>>,
    pub metadata: Map<Seq<char>, Seq<char>>,
}

/// The characters of an optional text.
pub open spec fn text_of(text: Option<String>) -> Option<Seq<char>> {
    match text {
        Some(t) => Some(t@),
        None => None,
    }
}

impl View for SensorResult {
    type V = SensorResultView;

    open spec fn view(&self) -> SensorResultView {
        SensorResultView {
            sensor_name: self.sensor_name@,
            passed: self.passed,
            value: self.value,
            threshold: self.threshold,
            reason: text_of(self.reason),
            detail: text_of(self.detail),
            metadata: self.metadata@.map_values(|v: String| v@),
        }
    }
}

impl SensorResult {
    /// A result with the given fields and no metadata.
    pub fn new(
        sensor_name: String,
        passed: Option<bool>,
        value: u64,
        threshold: u64,
        reason: Option<String>,
        detail: Option<String>,
    ) -> (r: Self)
        ensures
            r@ == (SensorResultView {
                sensor_name: sensor_name@,
                passed,
                value,
                threshold,
                reason: text_of(reason),
                detail: text_of(detail),
                metadata: Map::empty(),
            }),
    {
        let r = SensorResult {
            sensor_name,
            passed,
            value,
            threshold,
            reason,
            detail,
            metadata: StringHashMap::new(),
        };
        assert(r.metadata@.map_values(|v: String| v@) =~= Map::<Seq<char>, Seq<char>>::empty());
        r
    }

    /// Writes `value` under `key` in the metadata, replacing what was there.
    pub fn add_metadata(&mut self, key: String, value: String)
        ensures
            final(self)@ == (SensorResultView {
                metadata: old(self)@.metadata.insert(key@, value@),
                ..old(self)@
            }),
    {
        let ghost before = self.metadata@;
        self.metadata.insert(key, value);
        assert(self.metadata@.map_values(|v: String| v@) =~= before.map_values(|v: String| v@).insert(
            key@,
            value@,
        ));
    }

    /// Whether the sensor passed the audio.
    pub fn is_pass(&self) -> (r: bool)
        ensures
            r == (self.passed == Some(true)),
    {
        match self.passed {
            Some(p) => p,
            None => false,
        }
    }

    /// Whether the sensor failed the audio. A result that only informs is
    /// neither a pass nor a fail.
    pub fn is_fail(&self) -> (r: bool)
        ensures
            r == (self.passed == Some(false)),
    {
        match self.passed {
            Some(p) => !p,
            None => false,
        }
    }
}

impl Default for SensorResult {
    /// The empty result: no name, no verdict, zeros, no texts, no metadata.
    fn default() -> (r: Self)
        ensures
            r@ == (SensorResultView {
                sensor_name: Seq::empty(),
                passed: None,
                value: 0,
                threshold: 0,
                reason: None,
                detail: None,
                metadata: Map::empty(),
            }),
    {
        SensorResult::new(String::new(), None, 0, 0, None, None)
    }
}

} // verus!
