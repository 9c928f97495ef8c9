//! The remote store. Every vehicle has one hash bucket per calendar day;
//! within a bucket, a period record is stored under its timestamp. Storing
//! a record under a timestamp that the bucket already holds replaces the
//! value, so writing a record again does no harm.
use vstd::prelude::*;
use vstd::string::*;
use crate::db::Error;
use crate::numeral::{decimal, decimal_text};
use crate::records::VehiclePeriodRecord;

verus! {

/// The calendar day, in UTC, of the moment `secs` seconds after the epoch,
/// as the date library writes it with the pattern `%Y%m%d`: `20230615` for
/// a moment of the fifteenth of June 2023. `None` where the calendar of the
/// date library does not reach that far.
pub uninterp spec fn utc_day(secs: i64) -> Option<Seq<char>>;

/// Calls `chrono::NaiveDateTime::from_timestamp_opt` with `secs` seconds
/// and no nanoseconds and, where it gives a date, `format` with the pattern
/// `%Y%m%d` on it. The contract claims only that the outcome is a function
/// of `secs`, which it names `utc_day`.
#[allow(deprecated)]
#[verifier::external_body]
fn day_stamp(secs: i64) -> (day: Option<String>)
    ensures
        match day {
            Some(text) => utc_day(secs) == Some(text@),
            None => utc_day(secs) is None,
        },
{
    match chrono::NaiveDateTime::from_timestamp_opt(secs, 0) {
        Some(moment) => Some(moment.format("%Y%m%d").to_string()),
        None => None,
    }
}

/// The name of the bucket of one vehicle and one day.
pub open spec fn bucket_name(namespace: Seq<char>, vehicle_id: i64, day: Seq<char>) -> Seq<char> {
    namespace + seq!['-'] + decimal(vehicle_id as int) + seq!['-'] + day
}

/// One write to a hash bucket: `value` goes under `field` in the bucket
/// `key`, replacing what was there.
#[derive(Debug, Clone, PartialEq, Eq)]
pub struct HashWrite {
    pub key: String,
    pub field: i64,
    pub value: Vec<u8>,
}

/// A bucket as the store holds it: at most one value under each field.
pub type Bucket = Map<i64, Seq<u8>>;

impl HashWrite {
    /// The bucket after the write.
    pub open spec fn apply(&self, bucket: Bucket) -> Bucket {
        bucket.insert(self.field, self.value@)
    }
}

/// The index of the first value that could not be decoded.
pub open spec fn first_failure<T>(values: Seq<Result<T, Error>>) -> Option<int>
    decreases values.len(),
{
    if values.len() == 0 {
        None
    } else if values[0] is Err {
        Some(0)
    } else {
        match first_failure(values.skip(1)) {
            Some(i) => Some(i + 1),
            None => None,
        }
    }
}

/// The first failure is at `at` where every value before `at` is good and
/// the value at `at`, if there is one, is not.
pub proof fn lemma_first_failure<T>(values: Seq<Result<T, Error>>, at: int)
    requires
        0 <= at <= values.len(),
        forall|i: int| 0 <= i < at ==> (#[trigger] values[i]) is Ok,
        at < values.len() ==> values[at] is Err,
    ensures
        first_failure(values) == (if at < values.len() {
            Some(at)
        } else {
            None
        }),
    decreases values.len(),
{
    if values.len() > 0 && at > 0 {
        let rest = values.skip(1);
        lemma_first_failure(rest, at - 1);
    }
}

/// The layout of the remote store under one namespace.
#[derive(Debug, Clone, PartialEq, Eq)]
pub struct PikaConnection {
    namespace: String,
}

impl PikaConnection {
    pub closed spec fn namespace(&self) -> Seq<char> {
        self.namespace@
    }

    /// The layout under `namespace`.
    pub fn with_namespace(namespace: &str) -> (store: Self)
        ensures
            store.namespace() == namespace@,
    {
        PikaConnection { namespace: String::from_str(namespace) }
    }

    /// The name of the bucket of `vehicle_id` for the day `day`.
    pub fn bucket(&self, vehicle_id: i64, day: &str) -> (key: String)
        ensures
            key@ == bucket_name(self.namespace(), vehicle_id, day@),
    {
        proof {
            reveal_strlit("-");
        }
        let mut key = self.namespace.clone();
        key.append("-");
        key.append(decimal_text(vehicle_id).as_str());
        key.append("-");
        key.append(day);
        key
    }

    /// Plans the write of a period record: the serialised record `payload`
    /// goes into the bucket of the vehicle and of the day of the record's
    /// timestamp, under the timestamp. A timestamp that names no day is
    /// refused.
    pub fn save_vehicle_period_record(
        &self,
        vehicle_id: i64,
        record: &VehiclePeriodRecord,
        payload: Vec<u8>,
    ) -> (r: Result<HashWrite, Error>)
        ensures
            match utc_day(record.timestamp) {
                Some(day) => r is Ok && r.unwrap().key@ == bucket_name(
                    self.namespace(),
                    vehicle_id,
                    day,
                ) && r.unwrap().field == record.timestamp && r.unwrap().value == payload,
                None => r == Err::<HashWrite, Error>(Error::FromTimestampErr),
            },
    {
        match day_stamp(record.timestamp) {
            Some(day) => Ok(
                HashWrite {
                    key: self.bucket(vehicle_id, day.as_str()),
                    field: record.timestamp,
                    value: payload,
                },
            ),
            None => Err(Error::FromTimestampErr),
        }
    }

    /// The name of the bucket of `vehicle_id` for the day that the number
    /// `day` writes, such as 20230615.
    pub fn daily_bucket(&self, vehicle_id: i64, day: i32) -> (key: String)
        ensures
            key@ == bucket_name(self.namespace(), vehicle_id, decimal(day as int)),
    {
        let day = decimal_text(day as i64);
        self.bucket(vehicle_id, day.as_str())
    }

    /// Puts together what a bulk read of a bucket brought, each value
    /// already decoded on its own. One value that could not be decoded fails
    /// the whole read, with the failure of the first such value: a bucket
    /// that is corrupt in part is not served in part.
    pub fn load_daily_vehicle_period_records(
        values: Vec<Result<VehiclePeriodRecord, Error>>,
    ) -> (r: Result<Vec<VehiclePeriodRecord>, Error>)
        ensures
            match first_failure(values@) {
                Some(i) => r is Err && Err::<VehiclePeriodRecord, Error>(r.unwrap_err())
                    == values@[i],
                None => r is Ok && r.unwrap()@.len() == values@.len() && forall|i: int|
                    0 <= i < values@.len() ==> Ok::<VehiclePeriodRecord, Error>(
                        #[trigger] r.unwrap()@[i],
                    ) == values@[i],
            },
    {
        let ghost all = values@;
        let mut records: Vec<VehiclePeriodRecord> = Vec::new();
        for item in it: values
            invariant
                it.seq() == all,
                records@.len() == it.index(),
                forall|i: int|
                    0 <= i < records@.len() ==> Ok::<VehiclePeriodRecord, Error>(
                        #[trigger] records@[i],
                    ) == all[i],
        {
            match item {
                Ok(record) => {
                    records.push(record);
                },
                Err(e) => {
                    proof {
                        assert forall|i: int| 0 <= i < it.index() implies (#[trigger] all[i]) is Ok by {
                            assert(Ok::<VehiclePeriodRecord, Error>(records@[i]) == all[i]);
                        }
                        lemma_first_failure(all, it.index() as int);
                    }
                    return Err(e);
                },
            }
        }
        proof {
            assert forall|i: int| 0 <= i < all.len() implies (#[trigger] all[i]) is Ok by {
                assert(Ok::<VehiclePeriodRecord, Error>(records@[i]) == all[i]);
            }
            lemma_first_failure(all, all.len() as int);
        }
        Ok(records)
    }
}

/// Two period records of one vehicle with the same timestamp go to the same
/// field of the same bucket.
pub proof fn lemma_same_slot(
    store: PikaConnection,
    vehicle_id: i64,
    a: VehiclePeriodRecord,
    b: VehiclePeriodRecord,
)
    requires
        a.timestamp == b.timestamp,
        utc_day(a.timestamp) is Some,
    ensures
        bucket_name(store.namespace(), vehicle_id, utc_day(a.timestamp).unwrap()) == bucket_name(
            store.namespace(),
            vehicle_id,
            utc_day(b.timestamp).unwrap(),
        ),
{
}

/// Writing twice under one field leaves one value under that field, the
/// one written last, and touches no other field.
pub proof fn lemma_upsert(bucket: Bucket, first: HashWrite, second: HashWrite)
    requires
        first.field == second.field,
    ensures
        second.apply(first.apply(bucket)) == second.apply(bucket),
        second.apply(first.apply(bucket)).dom() == bucket.dom().insert(second.field),
        second.apply(first.apply(bucket))[second.field] == second.value@,
{
}

} // verus!
