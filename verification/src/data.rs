//! The data object that unifies what modules put out.

use serde_json::Value;
use vstd::prelude::*;

use crate::error::WarpError;
use crate::module::Module;

verus! {

#[verifier::external_type_specification]
#[verifier::external_body]
pub struct ExValue(serde_json::Value);

/// What a JSON value holds, as the compact text that it is written as.
pub uninterp spec fn json_text(value: Value) -> Seq<char>;

/// `Display` of `serde_json::Value`: the value, written as compact JSON. Which text
/// that is, is said of `null` alone, by `default_value`.
#[verifier::external_body]
fn value_text(value: &Value) -> (r: String)
    ensures
        r@ == json_text(*value),
{
    value.to_string()
}

/// `serde_json::Value::default`: the JSON value `null`.
#[verifier::external_body]
fn default_value() -> (r: Value)
    ensures
        json_text(r) == "null"@,
{
    Value::default()
}

/// `Clone` of `serde_json::Value`: a value that is the same as the one it was
/// made from.
#[verifier::external_body]
fn clone_value(value: &Value) -> (r: Value)
    ensures
        r == *value,
{
    value.clone()
}

/// `uuid::Uuid::new_v4`: a random number in which the four version bits are 4
/// and the two variant bits are those of RFC 4122. Nothing is said of the other
/// bits.
#[verifier::external_body]
fn new_v4() -> (r: u128)
    ensures
        is_random_id(r),
{
    uuid::Uuid::new_v4().as_u128()
}

/// `chrono::Utc::now`: the seconds and nanoseconds that have passed since the
/// beginning of 1970. It does not return where the system's clock is set before
/// that. Nothing is said of which moment it is: that is up to the clock.
#[verifier::external_body]
fn utc_now() -> (r: (i64, u32))
    ensures
        0 <= r.0,
        r.1 < 1_000_000_000,
{
    let now = chrono::Utc::now();
    (now.timestamp(), now.timestamp_subsec_nanos())
}

/// The shape of a random (version 4) id.
pub open spec fn is_random_id(id: u128) -> bool {
    &&& (id >> 76u128) & 0xf == 4
    &&& (id >> 62u128) & 0x3 == 2
}

/// An id that was drawn at random.
pub closed spec fn is_drawn_id(id: u128) -> bool {
    call_ensures(new_v4, (), id)
}

/// A moment in UTC.
#[derive(Debug, Clone, Copy, PartialEq, Eq)]
pub struct Timestamp {
    /// Whole seconds since the beginning of 1970.
    pub secs: i64,
    /// What is left of the last second.
    pub nanos: u32,
}

impl Timestamp {
    /// A moment that the system's clock can show.
    pub open spec fn is_clock_time(self) -> bool {
        0 <= self.secs && self.nanos < 1_000_000_000
    }

    /// A moment that a reading of the system's clock returned.
    pub closed spec fn is_reading(self) -> bool {
        call_ensures(utc_now, (), (self.secs, self.nanos))
    }

    /// Reads the clock.
    pub fn now() -> (r: Timestamp)
        ensures
            r.is_clock_time(),
            r.is_reading(),
    {
        let (secs, nanos) = utc_now();
        Timestamp { secs, nanos }
    }
}

/// What is said of a reading of `value` by `from_value`: it was handed that value,
/// and what it returned is the result.
pub open spec fn read_by<T, F: FnOnce(Value) -> Result<T, serde_json::Error>>(
    value: Value,
    from_value: F,
    r: Result<T, WarpError>,
) -> bool {
    match r {
        Ok(inner) => from_value.ensures((value,), Ok(inner)),
        Err(WarpError::SerdeJson(error)) => from_value.ensures((value,), Err(error)),
        Err(_) => false,
    }
}

/// What is said of a writing of `payload` by `to_value` that ended in `r`, and
/// that left `value` where it ended well.
pub open spec fn written_by<T, F: FnOnce(T) -> Result<Value, serde_json::Error>, R>(
    payload: T,
    to_value: F,
    value: Value,
    r: Result<R, WarpError>,
) -> bool {
    match r {
        Ok(_) => to_value.ensures((payload,), Ok(value)),
        Err(WarpError::SerdeJson(error)) => to_value.ensures((payload,), Err(error)),
        Err(_) => false,
    }
}

/// The JSON value that a data object carries.
#[derive(Debug, PartialEq, Eq)]
pub struct Payload {
    /// The value itself.
    pub value: Value,
}

impl Payload {
    /// A payload that carries `data`.
    pub fn new(data: Value) -> (r: Payload)
        ensures
            r.value == data,
    {
        Payload { value: data }
    }

    /// A payload that carries what `serde_json::to_value` returned, or its error.
    pub fn from_result(value: Result<Value, serde_json::Error>) -> (r: Result<Payload, WarpError>)
        ensures
            r == match value {
                Ok(value) => Ok::<Payload, WarpError>(Payload { value }),
                Err(error) => Err::<Payload, WarpError>(WarpError::SerdeJson(error)),
            },
    {
        match value {
            Ok(value) => Ok(Payload::new(value)),
            Err(error) => Err(WarpError::from(error)),
        }
    }

    /// A payload that carries what `to_value` makes of `payload`. It is to be
    /// `serde_json::to_value`.
    pub fn new_from_ser<T, F: FnOnce(T) -> Result<Value, serde_json::Error>>(
        payload: T,
        to_value: F,
    ) -> (r: Result<Payload, WarpError>)
        requires
            to_value.requires((payload,)),
        ensures
            written_by(payload, to_value, r->Ok_0.value, r),
    {
        Payload::from_result(to_value(payload))
    }

    /// The value, written as compact JSON.
    pub fn to_text(&self) -> (r: String)
        ensures
            r@ == json_text(self.value),
    {
        value_text(&self.value)
    }

    /// Hands a copy of the value to `from_value`, which is to be
    /// `serde_json::from_value` for the type that is wanted.
    pub fn to_type<T, F: FnOnce(Value) -> Result<T, serde_json::Error>>(
        &self,
        from_value: F,
    ) -> (r: Result<T, WarpError>)
        requires
            from_value.requires((self.value,)),
        ensures
            read_by(self.value, from_value, r),
    {
        match from_value(clone_value(&self.value)) {
            Ok(inner) => Ok(inner),
            Err(error) => Err(WarpError::from(error)),
        }
    }
}

impl Clone for Payload {
    fn clone(&self) -> (r: Payload)
        ensures
            r == *self,
    {
        Payload::new(clone_value(&self.value))
    }
}

impl Default for Payload {
    fn default() -> (r: Payload)
        ensures
            json_text(r.value) == "null"@,
    {
        Payload::new(default_value())
    }
}

/// Another name for `Data`.
pub type DataObject = Data;

/// The standard data object, in which all modules put out what they have.
#[derive(Debug, PartialEq, Eq)]
pub struct Data {
    /// Id of the object.
    pub id: u128,
    /// Version of the object, which the cache counts.
    pub version: u32,
    /// When the object was made, or last touched.
    pub timestamp: Timestamp,
    /// Size of the object.
    pub size: u64,
    /// The module that the object and its payload belong to.
    pub module: Module,
    /// What is stored in the object.
    pub payload: Payload,
}

impl Data {
    /// An object that was just made, with a new id, for `module`.
    pub open spec fn is_fresh(self, module: Module) -> bool {
        &&& is_random_id(self.id)
        &&& is_drawn_id(self.id)
        &&& self.version == 0
        &&& self.timestamp.is_clock_time()
        &&& self.timestamp.is_reading()
        &&& self.size == 0
        &&& self.module == module
    }

    /// The object of a given id and time, at version 0 and with size 0.
    pub fn from_parts(id: u128, timestamp: Timestamp, module: Module, payload: Payload) -> (r: Data)
        ensures
            r == (Data { id, version: 0, timestamp, size: 0, module, payload }),
    {
        Data { id, version: 0, timestamp, size: 0, module, payload }
    }

    /// A new object for `module` that carries what `serde_json::to_value`
    /// returned, or its error.
    pub fn from_result(module: &Module, value: Result<Value, serde_json::Error>) -> (r: Result<
        Data,
        WarpError,
    >)
        ensures
            match value {
                Ok(value) => r matches Ok(data) && data.is_fresh(*module) && data.payload.value
                    == value,
                Err(error) => r == Err::<Data, WarpError>(WarpError::SerdeJson(error)),
            },
    {
        match Payload::from_result(value) {
            Ok(payload) => Ok(
                Data::from_parts(new_v4(), Timestamp::now(), module.clone(), payload),
            ),
            Err(error) => Err(error),
        }
    }

    /// A new object for `module` that carries what `to_value` makes of `payload`.
    /// It is to be `serde_json::to_value`.
    pub fn new<T, F: FnOnce(T) -> Result<Value, serde_json::Error>>(
        module: &Module,
        payload: T,
        to_value: F,
    ) -> (r: Result<Data, WarpError>)
        requires
            to_value.requires((payload,)),
        ensures
            written_by(payload, to_value, r->Ok_0.payload.value, r),
            r matches Ok(data) ==> data.is_fresh(*module),
    {
        Data::from_result(module, to_value(payload))
    }

    /// Sets the time of the object to the present.
    pub fn update_time(&mut self)
        ensures
            final(self).timestamp.is_clock_time(),
            final(self).timestamp.is_reading(),
            *final(self) == (Data { timestamp: final(self).timestamp, ..*old(self) }),
    {
        self.set_timestamp(Timestamp::now());
    }

    /// Sets the time of the object.
    pub fn set_timestamp(&mut self, timestamp: Timestamp)
        ensures
            *final(self) == (Data { timestamp, ..*old(self) }),
    {
        self.timestamp = timestamp;
    }

    /// Sets the version of the object.
    pub fn update_version(&mut self, version: u32)
        ensures
            *final(self) == (Data { version, ..*old(self) }),
    {
        self.version = version;
    }

    /// Sets the module of the object.
    pub fn set_module(&mut self, module: &Module)
        ensures
            *final(self) == (Data { module: *module, ..*old(self) }),
    {
        self.module = module.clone();
    }

    /// Sets the payload to what `serde_json::to_value` returned. On its error the
    /// object stays as it is.
    pub fn set_result(&mut self, value: Result<Value, serde_json::Error>) -> (r: Result<
        (),
        WarpError,
    >)
        ensures
            match value {
                Ok(value) => r == Ok::<(), WarpError>(()) && *final(self) == (Data {
                    payload: Payload { value },
                    ..*old(self)
                }),
                Err(error) => r == Err::<(), WarpError>(WarpError::SerdeJson(error))
                    && *final(self) == *old(self),
            },
    {
        match Payload::from_result(value) {
            Ok(payload) => {
                self.payload = payload;
                Ok(())
            },
            Err(error) => Err(error),
        }
    }

    /// Sets the payload to what `to_value` makes of `payload`. It is to be
    /// `serde_json::to_value`. On its error the object stays as it is.
    pub fn set_payload<T, F: FnOnce(T) -> Result<Value, serde_json::Error>>(
        &mut self,
        payload: T,
        to_value: F,
    ) -> (r: Result<(), WarpError>)
        requires
            to_value.requires((payload,)),
        ensures
            written_by(payload, to_value, final(self).payload.value, r),
            r is Ok ==> *final(self) == (Data { payload: final(self).payload, ..*old(self) }),
            r is Err ==> *final(self) == *old(self),
    {
        self.set_result(to_value(payload))
    }

    /// Sets the size of the object.
    pub fn set_size(&mut self, size: u64)
        ensures
            *final(self) == (Data { size, ..*old(self) }),
    {
        self.size = size;
    }

    /// Reads the payload as another type: hands a copy of its value to
    /// `from_value`, which is to be `serde_json::from_value`.
    pub fn payload<T, F: FnOnce(Value) -> Result<T, serde_json::Error>>(
        &self,
        from_value: F,
    ) -> (r: Result<T, WarpError>)
        requires
            from_value.requires((self.payload.value,)),
        ensures
            read_by(self.payload.value, from_value, r),
    {
        self.payload.to_type(from_value)
    }

    /// The time of the object, in seconds since the beginning of 1970.
    pub fn timestamp(&self) -> (r: i64)
        ensures
            r == self.timestamp.secs,
    {
        self.timestamp.secs
    }
}

impl Clone for Data {
    fn clone(&self) -> (r: Data)
        ensures
            r == *self,
    {
        Data {
            id: self.id,
            version: self.version,
            timestamp: self.timestamp,
            size: self.size,
            module: self.module.clone(),
            payload: self.payload.clone(),
        }
    }
}

impl Default for Data {
    fn default() -> (r: Data)
        ensures
            r.is_fresh(Module::Unknown),
            json_text(r.payload.value) == "null"@,
    {
        Data::from_parts(new_v4(), Timestamp::now(), Module::default(), Payload::default())
    }
}

/// A moment that is a reading was returned by the clock, and an id that is a drawn
/// one by the drawing: nothing else is one.
proof fn lemma_readings_and_draws(moment: Timestamp, id: u128)
    ensures
        moment.is_reading() <==> call_ensures(utc_now, (), (moment.secs, moment.nanos)),
        is_drawn_id(id) <==> call_ensures(new_v4, (), id),
{
}

/// A new object has the time at which it was made, an id that was drawn for it,
/// the module that it was made for, and what was made of its payload. It is made
/// wherever something was made of the payload, and otherwise the error is that of
/// trying.
pub proof fn new_object_is_new<T, F: FnOnce(T) -> Result<Value, serde_json::Error>>(
    module: &Module,
    payload: T,
    to_value: F,
    r: Result<Data, WarpError>,
)
    requires
        call_ensures(Data::new::<T, F>, (module, payload, to_value), r),
    ensures
        match r {
            Ok(data) => {
                &&& to_value.ensures((payload,), Ok(data.payload.value))
                &&& data.timestamp.is_reading()
                &&& is_drawn_id(data.id)
                &&& data.module == *module
                &&& data.version == 0
                &&& data.size == 0
            },
            Err(error) => error matches WarpError::SerdeJson(cause) && to_value.ensures(
                (payload,),
                Err(cause),
            ),
        },
{
    if let Ok(data) = r {
        lemma_readings_and_draws(data.timestamp, data.id);
    }
}

/// An object is made of a value wherever there is one: the value is its payload,
/// its time is a reading of the clock, and its id was drawn. Otherwise the error
/// is the one that came in place of the value.
pub proof fn value_becomes_an_object(
    module: &Module,
    value: Result<Value, serde_json::Error>,
    r: Result<Data, WarpError>,
)
    requires
        call_ensures(Data::from_result, (module, value), r),
    ensures
        value matches Ok(carried) ==> {
            &&& r matches Ok(data)
            &&& data.payload.value == carried
            &&& data.timestamp.is_reading()
            &&& is_drawn_id(data.id)
            &&& data.module == *module
            &&& data.version == 0
            &&& data.size == 0
        },
        value matches Err(cause) ==> r == Err::<Data, WarpError>(WarpError::SerdeJson(cause)),
{
    if let Ok(data) = r {
        lemma_readings_and_draws(data.timestamp, data.id);
    }
}

/// An object that is made of nothing is dated and drawn like any other, belongs to
/// no particular module, and carries `null`.
pub proof fn default_object_is_new_and_empty(data: Data)
    requires
        call_ensures(Data::default, (), data),
    ensures
        data.timestamp.is_reading(),
        is_drawn_id(data.id),
        data.module == Module::Unknown,
        data.version == 0,
        data.size == 0,
        json_text(data.payload.value) == "null"@,
{
    lemma_readings_and_draws(data.timestamp, data.id);
}

/// What an object tells as its time is, of a new object, the seconds of a reading
/// of the clock.
pub proof fn time_of_a_new_object_is_read(
    module: &Module,
    value: Result<Value, serde_json::Error>,
    data: Data,
    secs: i64,
)
    requires
        call_ensures(Data::from_result, (module, value), Ok(data)),
        call_ensures(Data::timestamp, (&data,), secs),
    ensures
        exists|nanos: u32| #[trigger] (Timestamp { secs, nanos }).is_reading(),
{
    value_becomes_an_object(module, value, Ok(data));
    assert(data.timestamp == Timestamp { secs, nanos: data.timestamp.nanos });
}

/// A new object gives back what it was made with: where `from_value` undoes what
/// `to_value` does to `payload`, an object that was made with it is read as it.
pub proof fn new_object_is_read_back<
    T,
    F: FnOnce(T) -> Result<Value, serde_json::Error>,
    G: FnOnce(Value) -> Result<T, serde_json::Error>,
>(
    module: &Module,
    payload: T,
    to_value: F,
    data: Data,
    from_value: G,
    read: Result<T, WarpError>,
)
    requires
        call_ensures(Data::new::<T, F>, (module, payload, to_value), Ok(data)),
        call_ensures(Data::payload::<T, G>, (&data, from_value), read),
        forall|value: Value, out: Result<T, serde_json::Error>|
            to_value.ensures((payload,), Ok(value)) && #[trigger] from_value.ensures((value,), out)
                ==> out == Ok::<T, serde_json::Error>(payload),
    ensures
        read == Ok::<T, WarpError>(payload),
{
    payload_round_trip(payload, to_value, Ok::<Data, WarpError>(data), data, from_value, read);
}

/// A payload is read as what the reading of its own value returned, and its error
/// is that of the reading.
pub proof fn payload_is_read_as_it_is<T, G: FnOnce(Value) -> Result<T, serde_json::Error>>(
    data: Data,
    from_value: G,
    read: Result<T, WarpError>,
)
    requires
        call_ensures(Data::payload::<T, G>, (&data, from_value), read),
    ensures
        match read {
            Ok(inner) => from_value.ensures((data.payload.value,), Ok(inner)),
            Err(error) => error matches WarpError::SerdeJson(cause) && from_value.ensures(
                (data.payload.value,),
                Err(cause),
            ),
        },
{
}

/// What was set is what is read: where `from_value` undoes what `to_value` does to
/// `payload`, an object whose payload was set to it by `set_payload`, or that was
/// made with it by `new`, gives it back from `payload`.
pub proof fn payload_round_trip<
    T,
    F: FnOnce(T) -> Result<Value, serde_json::Error>,
    G: FnOnce(Value) -> Result<T, serde_json::Error>,
    R,
>(
    payload: T,
    to_value: F,
    set: Result<R, WarpError>,
    data: Data,
    from_value: G,
    read: Result<T, WarpError>,
)
    requires
        written_by(payload, to_value, data.payload.value, set),
        set is Ok,
        read_by(data.payload.value, from_value, read),
        forall|value: Value, out: Result<T, serde_json::Error>|
            to_value.ensures((payload,), Ok(value)) && #[trigger] from_value.ensures((value,), out)
                ==> out == Ok::<T, serde_json::Error>(payload),
    ensures
        read == Ok::<T, WarpError>(payload),
{
    match read {
        Ok(inner) => {
            assert(from_value.ensures((data.payload.value,), Ok(inner)));
        },
        Err(WarpError::SerdeJson(error)) => {
            assert(from_value.ensures((data.payload.value,), Err(error)));
        },
        Err(_) => {},
    }
}

} // verus!
