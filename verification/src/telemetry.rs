//! One telemetry sample of the vehicle stream and its wire form: thirteen
//! comma-separated positional fields.
//!
//! A measurement is kept as the decimal text that the vehicle sent, once it
//! has been checked to denote a number. A measurement that the vehicle left
//! empty is kept as `0`: after decoding, nothing tells an absent value from
//! a zero. This is the one place where decoding loses information.
use vstd::prelude::*;
use vstd::string::*;
use crate::numeral::{
    decimal, decimal_text, digit_run, integer_value, is_number_text, is_real_literal,
    lemma_decimal_chars, lemma_integer_value_of_decimal, lemma_literal_chars, parse_integer,
};
use crate::text::{
    comma, join_fields, join_with, lemma_join_split, lemma_split_free, lemma_split_join,
    split_fields, split_on,
};

verus! {

/// Number of positional fields in an update payload.
pub const FIELD_COUNT: usize = 13;

/// Position of the shift state, the one field that is free text.
pub const SHIFT_STATE_AT: usize = 9;

/// The text that stands for a measurement that was left empty.
pub open spec fn zero_text() -> Seq<char> {
    seq!['0']
}

/// What a measurement field is kept as: itself, or `0` where it is empty.
pub open spec fn normal_measure(field: Seq<char>) -> Seq<char> {
    if field.len() == 0 {
        zero_text()
    } else {
        field
    }
}

/// A measurement field that decoding accepts: empty, or a number.
pub open spec fn measure_ok(field: Seq<char>) -> bool {
    field.len() == 0 || is_real_literal(field)
}

/// A measurement: decimal text that denotes a number.
#[derive(Debug, Clone, PartialEq, Eq)]
pub struct Reading {
    text: String,
}

impl View for Reading {
    type V = Seq<char>;

    closed spec fn view(&self) -> Seq<char> {
        self.text@
    }
}

impl Reading {
    /// The text denotes a number.
    pub open spec fn wf(&self) -> bool {
        is_real_literal(self@)
    }

    /// The measurement `0`.
    pub fn zero() -> (r: Self)
        ensures
            r@ == zero_text(),
            r.wf(),
    {
        proof {
            reveal_strlit("0");
            lemma_zero_is_number();
        }
        let text = String::from_str("0");
        assert(text@ =~= zero_text());
        Reading { text }
    }

    /// Accepts `s` if it denotes a number.
    pub fn parse(s: &str) -> (r: Option<Self>)
        ensures
            r is Some <==> is_real_literal(s@),
            r matches Some(x) ==> x@ == s@ && x.wf(),
    {
        if is_number_text(s) {
            Some(Reading { text: String::from_str(s) })
        } else {
            None
        }
    }

    /// Reads one measurement field of an update payload, where the empty
    /// field stands for zero.
    pub fn read(field: &str) -> (r: Option<Self>)
        ensures
            r is Some <==> measure_ok(field@),
            r matches Some(x) ==> x@ == normal_measure(field@) && x.wf(),
    {
        if field.unicode_len() == 0 {
            Some(Reading::zero())
        } else {
            Reading::parse(field)
        }
    }

    /// The text of the measurement.
    pub fn as_str(&self) -> (s: &str)
        ensures
            s@ == self@,
    {
        self.text.as_str()
    }

    /// A copy of the measurement.
    pub fn duplicate(&self) -> (r: Self)
        ensures
            r == *self,
    {
        Reading { text: self.text.clone() }
    }
}

/// The text `0` denotes a number.
pub proof fn lemma_zero_is_number()
    ensures
        is_real_literal(zero_text()),
{
    let s = zero_text();
    assert(digit_run(s, 1) == 1);
}

/// One telemetry sample.
#[derive(Debug, Clone, PartialEq, Eq)]
pub struct DrivingState {
    /// Milliseconds since the epoch.
    pub timestamp: i64,
    pub speed: Reading,
    pub odometer: Reading,
    /// State of charge.
    pub soc: Reading,
    pub elevation: Reading,
    pub est_heading: Reading,
    pub est_lat: Reading,
    pub est_lng: Reading,
    pub power: Reading,
    pub shift_state: String,
    pub range: Reading,
    pub est_range: Reading,
    pub heading: Reading,
}

/// Why an update payload was dropped.
#[derive(Debug, Clone, Copy, PartialEq, Eq, Structural)]
pub enum DecodeError {
    /// The update frame carries no payload.
    MissingValue,
    /// The payload does not have thirteen fields.
    FieldCount,
    /// The first field is no 64-bit whole number.
    Timestamp,
    /// A measurement field is neither empty nor a number.
    Number,
}

/// Every measurement field of the thirteen is empty or a number.
pub open spec fn measures_ok(raw: Seq<Seq<char>>) -> bool {
    forall|i: int| 1 <= i < FIELD_COUNT && i != SHIFT_STATE_AT ==> measure_ok(#[trigger] raw[i])
}

/// The fields of a payload that decoding accepts.
pub open spec fn accepted(raw: Seq<Seq<char>>) -> bool {
    raw.len() == FIELD_COUNT && integer_value(raw[0]) is Some && measures_ok(raw)
}

/// Why decoding rejects the fields: the first condition that they fail.
pub open spec fn rejection(raw: Seq<Seq<char>>) -> DecodeError
    recommends
        !accepted(raw),
{
    if raw.len() != FIELD_COUNT {
        DecodeError::FieldCount
    } else if integer_value(raw[0]) is None {
        DecodeError::Timestamp
    } else {
        DecodeError::Number
    }
}

/// The fields as the decoded sample holds them: the canonical text of the
/// timestamp, `0` for each empty measurement, everything else unchanged.
pub open spec fn canonical(raw: Seq<Seq<char>>) -> Seq<Seq<char>> {
    Seq::new(
        FIELD_COUNT as nat,
        |i: int|
            if i == 0 {
                decimal(integer_value(raw[0]).unwrap() as int)
            } else if i == SHIFT_STATE_AT {
                raw[i]
            } else {
                normal_measure(raw[i])
            },
    )
}

impl DrivingState {
    /// The thirteen positional fields of the sample, in wire order.
    pub open spec fn fields(&self) -> Seq<Seq<char>> {
        seq![
            decimal(self.timestamp as int),
            self.speed@,
            self.odometer@,
            self.soc@,
            self.elevation@,
            self.est_heading@,
            self.est_lat@,
            self.est_lng@,
            self.power@,
            self.shift_state@,
            self.range@,
            self.est_range@,
            self.heading@,
        ]
    }

    /// Every measurement is a number.
    pub open spec fn wf(&self) -> bool {
        &&& self.speed.wf()
        &&& self.odometer.wf()
        &&& self.soc.wf()
        &&& self.elevation.wf()
        &&& self.est_heading.wf()
        &&& self.est_lat.wf()
        &&& self.est_lng.wf()
        &&& self.power.wf()
        &&& self.range.wf()
        &&& self.est_range.wf()
        &&& self.heading.wf()
    }

    /// Decodes the payload of an update frame.
    ///
    /// The payload is accepted exactly if it has thirteen fields, the first
    /// is a whole number and each measurement is empty or a number. The
    /// sample holds the fields in canonical form. A rejected payload names
    /// the first of the three conditions that it fails.
    pub fn decode(value: &str) -> (r: Result<DrivingState, DecodeError>)
        ensures
            match r {
                Ok(d) => accepted(split_on(value@, comma())) && d.wf() && d.fields() == canonical(
                    split_on(value@, comma()),
                ) && Some(d.timestamp) == integer_value(split_on(value@, comma())[0]),
                Err(e) => !accepted(split_on(value@, comma())) && e == rejection(
                    split_on(value@, comma()),
                ),
            },
    {
        let raw = split_fields(value);
        if raw.len() != FIELD_COUNT {
            return Err(DecodeError::FieldCount);
        }
        let ghost texts = raw.deep_view();
        let timestamp = match parse_integer(raw[0].as_str()) {
            Some(t) => t,
            None => {
                return Err(DecodeError::Timestamp);
            },
        };
        let speed = match Reading::read(raw[1].as_str()) {
            Some(x) => x,
            None => {
                assert(!measure_ok(texts[1]));
                return Err(DecodeError::Number);
            },
        };
        let odometer = match Reading::read(raw[2].as_str()) {
            Some(x) => x,
            None => {
                assert(!measure_ok(texts[2]));
                return Err(DecodeError::Number);
            },
        };
        let soc = match Reading::read(raw[3].as_str()) {
            Some(x) => x,
            None => {
                assert(!measure_ok(texts[3]));
                return Err(DecodeError::Number);
            },
        };
        let elevation = match Reading::read(raw[4].as_str()) {
            Some(x) => x,
            None => {
                assert(!measure_ok(texts[4]));
                return Err(DecodeError::Number);
            },
        };
        let est_heading = match Reading::read(raw[5].as_str()) {
            Some(x) => x,
            None => {
                assert(!measure_ok(texts[5]));
                return Err(DecodeError::Number);
            },
        };
        let est_lat = match Reading::read(raw[6].as_str()) {
            Some(x) => x,
            None => {
                assert(!measure_ok(texts[6]));
                return Err(DecodeError::Number);
            },
        };
        let est_lng = match Reading::read(raw[7].as_str()) {
            Some(x) => x,
            None => {
                assert(!measure_ok(texts[7]));
                return Err(DecodeError::Number);
            },
        };
        let power = match Reading::read(raw[8].as_str()) {
            Some(x) => x,
            None => {
                assert(!measure_ok(texts[8]));
                return Err(DecodeError::Number);
            },
        };
        let shift_state = raw[9].clone();
        let range = match Reading::read(raw[10].as_str()) {
            Some(x) => x,
            None => {
                assert(!measure_ok(texts[10]));
                return Err(DecodeError::Number);
            },
        };
        let est_range = match Reading::read(raw[11].as_str()) {
            Some(x) => x,
            None => {
                assert(!measure_ok(texts[11]));
                return Err(DecodeError::Number);
            },
        };
        let heading = match Reading::read(raw[12].as_str()) {
            Some(x) => x,
            None => {
                assert(!measure_ok(texts[12]));
                return Err(DecodeError::Number);
            },
        };
        let d = DrivingState {
            timestamp,
            speed,
            odometer,
            soc,
            elevation,
            est_heading,
            est_lat,
            est_lng,
            power,
            shift_state,
            range,
            est_range,
            heading,
        };
        Ok(d)
    }

    /// The wire form of the sample: its thirteen fields joined by commas.
    pub fn encode(&self) -> (wire: String)
        ensures
            wire@ == join_with(self.fields(), comma()),
    {
        let mut parts: Vec<String> = Vec::new();
        parts.push(decimal_text(self.timestamp));
        parts.push(self.speed.text.clone());
        parts.push(self.odometer.text.clone());
        parts.push(self.soc.text.clone());
        parts.push(self.elevation.text.clone());
        parts.push(self.est_heading.text.clone());
        parts.push(self.est_lat.text.clone());
        parts.push(self.est_lng.text.clone());
        parts.push(self.power.text.clone());
        parts.push(self.shift_state.clone());
        parts.push(self.range.text.clone());
        parts.push(self.est_range.text.clone());
        parts.push(self.heading.text.clone());
        assert(parts.deep_view() =~= self.fields());
        join_fields(&parts)
    }
}

/// The fields with `0` in place of each empty measurement.
pub open spec fn zero_filled(raw: Seq<Seq<char>>) -> Seq<Seq<char>> {
    Seq::new(
        raw.len(),
        |i: int|
            if 1 <= i < FIELD_COUNT && i != SHIFT_STATE_AT {
                normal_measure(raw[i])
            } else {
                raw[i]
            },
    )
}

/// The timestamp is written in canonical form: without a plus sign, without
/// leading zeros, and zero without a minus sign.
pub open spec fn timestamp_is_canonical(raw: Seq<Seq<char>>) -> bool {
    integer_value(raw[0]) matches Some(t) && raw[0] == decimal(t as int)
}

/// A payload in canonical form: the timestamp is canonical and no
/// measurement is left empty.
pub open spec fn is_canonical(raw: Seq<Seq<char>>) -> bool {
    &&& accepted(raw)
    &&& timestamp_is_canonical(raw)
    &&& forall|i: int| 1 <= i < FIELD_COUNT && i != SHIFT_STATE_AT ==> (#[trigger] raw[i]).len() > 0
}

/// Decoding an accepted payload and encoding the sample again gives the
/// payload back with `0` in each measurement that was empty, and otherwise
/// character for character: a payload without an empty measurement comes
/// back unchanged.
///
/// This holds of payloads whose timestamp is written in canonical form. A
/// timestamp such as `+5` or `007` is accepted too, and comes back as `5`
/// and `7`.
pub proof fn lemma_decode_encode(wire: Seq<char>)
    requires
        accepted(split_on(wire, comma())),
        timestamp_is_canonical(split_on(wire, comma())),
    ensures
        join_with(canonical(split_on(wire, comma())), comma()) == join_with(
            zero_filled(split_on(wire, comma())),
            comma(),
        ),
        is_canonical(split_on(wire, comma())) ==> join_with(
            canonical(split_on(wire, comma())),
            comma(),
        ) == wire,
{
    let raw = split_on(wire, comma());
    assert(canonical(raw) =~= zero_filled(raw));
    if is_canonical(raw) {
        assert(canonical(raw) =~= raw);
        lemma_join_split(wire, comma());
    }
}

/// Whatever payload was accepted, the sample's wire form is in canonical
/// form and decodes to the same fields: encoding normalises once.
pub proof fn lemma_encode_is_canonical(wire: Seq<char>)
    requires
        accepted(split_on(wire, comma())),
    ensures
        split_on(join_with(canonical(split_on(wire, comma())), comma()), comma()) == canonical(
            split_on(wire, comma()),
        ),
        is_canonical(canonical(split_on(wire, comma()))),
        canonical(canonical(split_on(wire, comma()))) == canonical(split_on(wire, comma())),
{
    let raw = split_on(wire, comma());
    let c = canonical(raw);
    let t = integer_value(raw[0]).unwrap();
    lemma_split_free(wire, comma());
    lemma_integer_value_of_decimal(t);
    lemma_decimal_chars(t as int);
    lemma_zero_is_number();
    assert(forall|i: int|
        1 <= i < FIELD_COUNT && i != SHIFT_STATE_AT ==> measure_ok(#[trigger] c[i]) && c[i].len()
            > 0);
    assert forall|i: int, j: int| 0 <= i < c.len() && 0 <= j < c[i].len() implies #[trigger] c[i][j]
        != comma() by {
        if i == SHIFT_STATE_AT || (i > 0 && raw[i].len() > 0) {
            assert(raw[i][j] != comma());
        }
    }
    lemma_split_join(c, comma());
}

/// Encoding a sample and decoding the text gives the sample's fields back,
/// provided that its shift state holds no comma.
pub proof fn lemma_encode_decode(d: DrivingState)
    requires
        d.wf(),
        forall|j: int| 0 <= j < d.shift_state@.len() ==> d.shift_state@[j] != comma(),
    ensures
        accepted(split_on(join_with(d.fields(), comma()), comma())),
        canonical(split_on(join_with(d.fields(), comma()), comma())) == d.fields(),
{
    let f = d.fields();
    lemma_integer_value_of_decimal(d.timestamp);
    lemma_decimal_chars(d.timestamp as int);
    assert forall|i: int, j: int| 0 <= i < f.len() && 0 <= j < f[i].len() implies #[trigger] f[i][j]
        != comma() by {
        if i != 0 && i != SHIFT_STATE_AT {
            lemma_literal_chars(f[i]);
        }
    }
    lemma_split_join(f, comma());
    assert(forall|i: int|
        1 <= i < FIELD_COUNT && i != SHIFT_STATE_AT ==> measure_ok(#[trigger] f[i]) && f[i].len()
            > 0);
}

} // verus!
