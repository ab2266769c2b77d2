//! Data objects: string keys with string, integer and flag values, and how
//! the top level of a JSON value is stored in one.

use vstd::prelude::*;
use vstd::string::*;
use vstd::utf8::*;

use crate::error::Error;
use crate::ledger::{clone_call, release_call};
use crate::native::{Call, Kind};
use crate::string::{first_nul, lossy_text, nul_free, CText};

verus! {

/// `serde_json::Value`: a JSON value, which is carried through unopened.
#[verifier::external_type_specification]
#[verifier::external_body]
pub struct ExJsonValue(serde_json::Value);

/// One member of a JSON object, as far as a data object can take it.
#[derive(Debug, Clone, PartialEq, Eq)]
pub enum Field {
    /// `null`.
    Null,
    /// `true` or `false`.
    Boolean(bool),
    /// A number, with its value where that is an integer an `i64` can hold.
    Number(Option<i64>),
    /// A string.
    Text(String),
    /// An array or an object.
    Nested,
}

/// Whether a `serde_json::Value` is of the variant `Object`.
pub uninterp spec fn is_json_object(value: serde_json::Value) -> bool;

/// The members of a `serde_json::Value` of the variant `Object`, in the
/// order in which `serde_json::Map::iter` yields them, each with its key
/// and with what a data object can take of its value.
pub uninterp spec fn json_members(value: serde_json::Value) -> Seq<(String, Field)>;

/// Reads the top level of a `serde_json::Value`: nothing unless it is of
/// the variant `Object`, else one entry for each pair that
/// `serde_json::Map::iter` yields, in that order. The value of an entry is
/// told by its variant alone, but for a number, which carries what
/// `serde_json::Number::as_i64` says of it: the value, where the number is
/// an integer that an `i64` holds. Nothing of this is proved here; the
/// contract only gives the outcome its two names.
#[verifier::external_body]
fn members_of(value: &serde_json::Value) -> (r: Option<Vec<(String, Field)>>)
    ensures
        r is Some <==> is_json_object(*value),
        r matches Some(members) ==> members@ == json_members(*value),
{
    let serde_json::Value::Object(map) = value else { return None };
    let mut members = Vec::new();
    for (key, member) in map.iter() {
        members.push((key.clone(), match member {
            serde_json::Value::Null => Field::Null,
            serde_json::Value::Bool(flag) => Field::Boolean(*flag),
            serde_json::Value::Number(number) => Field::Number(number.as_i64()),
            serde_json::Value::String(text) => Field::Text(text.clone()),
            serde_json::Value::Array(_) => Field::Nested,
            serde_json::Value::Object(_) => Field::Nested,
        }));
    }
    Some(members)
}

/// The members that reach the data object: all but the `null` ones, in
/// their order.
pub open spec fn kept(members: Seq<(String, Field)>) -> Seq<(String, Field)>
    decreases members.len(),
{
    if members.len() == 0 {
        Seq::empty()
    } else if members.last().1 is Null {
        kept(members.drop_last())
    } else {
        kept(members.drop_last()).push(members.last())
    }
}

/// Whether a member can be stored, or skipped, without complaint.
pub open spec fn accepted(member: (String, Field)) -> bool {
    match member.1 {
        Field::Null => true,
        Field::Boolean(_) => nul_free(encode_utf8(member.0@)),
        Field::Number(n) => n is Some && nul_free(encode_utf8(member.0@)),
        Field::Text(s) => nul_free(encode_utf8(member.0@)) && nul_free(encode_utf8(s@)),
        Field::Nested => false,
    }
}

/// Whether `e` is the complaint a member that is not accepted draws: the
/// key is looked at before the value.
pub open spec fn rejected_with(member: (String, Field), e: Error) -> bool {
    let key = encode_utf8(member.0@);
    match member.1 {
        Field::Null => false,
        Field::Boolean(_) => e matches Error::CString(at) && first_nul(key, at as int),
        Field::Number(n) => if n is Some {
            e matches Error::CString(at) && first_nul(key, at as int)
        } else {
            e == Error::Json
        },
        Field::Text(s) => if nul_free(key) {
            e matches Error::CString(at) && first_nul(encode_utf8(s@), at as int)
        } else {
            e matches Error::CString(at) && first_nul(key, at as int)
        },
        Field::Nested => e == Error::Json,
    }
}

/// Whether `call` stores `member` in the data object at `data` with the
/// setter of the member's own type.
pub open spec fn stores(call: Call, data: usize, member: (String, Field)) -> bool {
    match member.1 {
        Field::Boolean(flag) => call matches Call::DataSetBool { data: d, key, value }
            && d == data && key@ == encode_utf8(member.0@) && value == flag,
        Field::Number(Some(n)) => call matches Call::DataSetInt { data: d, key, value }
            && d == data && key@ == encode_utf8(member.0@) && value == n,
        Field::Text(s) => call matches Call::DataSetString { data: d, key, value }
            && d == data && key@ == encode_utf8(member.0@) && value@ == encode_utf8(s@),
        _ => false,
    }
}

/// Whether `r` is what filling the data object at `data` from `members`
/// comes to: the complaint of the first member that is not accepted, or
/// else one setter call for each member kept, in order.
pub open spec fn fills(r: Result<Vec<Call>, Error>, data: usize, members: Seq<(String, Field)>) -> bool {
    match r {
        Ok(calls) => {
            &&& forall|i: int| 0 <= i < members.len() ==> accepted(#[trigger] members[i])
            &&& calls@.len() == kept(members).len()
            &&& forall|j: int|
                0 <= j < calls@.len() ==> stores(#[trigger] calls@[j], data, kept(members)[j])
        },
        Err(e) => exists|i: int|
            {
                &&& 0 <= i < members.len()
                &&& forall|k: int| 0 <= k < i ==> accepted(#[trigger] members[k])
                &&& !accepted(members[i])
                &&& #[trigger] rejected_with(members[i], e)
            },
    }
}

/// One strong reference to a native data object: string keys with string,
/// integer and flag values. The address held is never zero.
#[derive(Debug, PartialEq, Eq)]
pub struct DataRef {
    pointer: usize,
}

impl View for DataRef {
    type V = usize;

    closed spec fn view(&self) -> usize {
        self.pointer
    }
}

impl DataRef {
    #[verifier::type_invariant]
    spec fn non_null(self) -> bool {
        self.pointer != 0
    }

    /// Wraps an address that already carries a reference for the host;
    /// address zero gives no handle.
    pub fn from_raw(pointer: usize) -> (r: Option<Self>)
        ensures
            pointer == 0 <==> r is None,
            r matches Some(h) ==> h@ == pointer,
    {
        if pointer == 0 {
            None
        } else {
            Some(DataRef { pointer })
        }
    }

    /// The address of the data object.
    pub fn as_ptr(&self) -> (r: usize)
        ensures
            r == self@,
            r != 0,
    {
        proof {
            use_type_invariant(self);
        }
        self.pointer
    }

    /// Asks for a new, empty data object. The engine's answer, given to
    /// `from_raw`, is the handle.
    pub fn new() -> (r: Call)
        ensures
            r == Call::DataCreate,
    {
        Call::DataCreate
    }

    /// A second handle to the same data object, with the call that takes
    /// the reference it owns.
    pub fn clone(&self) -> (r: (Self, Call))
        ensures
            r.0@ == self@,
            r.1 == (Call::DataAddref { data: self@ }),
            r.1 == clone_call(Kind::Data, self@),
    {
        proof {
            use_type_invariant(self);
        }
        (DataRef { pointer: self.pointer }, Call::DataAddref { data: self.pointer })
    }

    /// Gives this reference up. The handle is spent.
    pub fn release(self) -> (r: Call)
        ensures
            r == (Call::DataRelease { data: self@ }),
            r == release_call(Kind::Data, self@),
    {
        Call::DataRelease { data: self.pointer }
    }

    /// Stores `value` under `key`. A NUL in the key is reported before one
    /// in the value.
    pub fn set_string(&self, key: &str, value: &str) -> (r: Result<Call, Error>)
        ensures
            match r {
                Ok(Call::DataSetString { data, key: k, value: v }) => data == self@ && k@
                    == key.spec_bytes() && v@ == value.spec_bytes() && nul_free(key.spec_bytes())
                    && nul_free(value.spec_bytes()),
                Err(Error::CString(at)) => if nul_free(key.spec_bytes()) {
                    first_nul(value.spec_bytes(), at as int)
                } else {
                    first_nul(key.spec_bytes(), at as int)
                },
                _ => false,
            },
    {
        let key = CText::new(key)?;
        let value = CText::new(value)?;
        Ok(Call::DataSetString { data: self.pointer, key, value })
    }

    /// Asks for the string under `key`. The answer goes to
    /// `get_string_answer`.
    pub fn get_string(&self, key: &str) -> (r: Result<Call, Error>)
        ensures
            match r {
                Ok(Call::DataGetString { data, key: k }) => data == self@ && k@ == key.spec_bytes()
                    && nul_free(key.spec_bytes()),
                Err(Error::CString(at)) => first_nul(key.spec_bytes(), at as int),
                _ => false,
            },
    {
        let key = CText::new(key)?;
        Ok(Call::DataGetString { data: self.pointer, key })
    }

    /// The string the engine answered with, or `Error::String` when it is
    /// not UTF-8.
    pub fn get_string_answer(text: &CText) -> (r: Result<String, Error>)
        ensures
            match r {
                Ok(s) => valid_utf8(text@) && s@ == decode_utf8(text@),
                Err(e) => !valid_utf8(text@) && e == Error::String,
            },
    {
        match text.to_str() {
            Ok(s) => Ok(s.to_owned()),
            Err(e) => Err(e),
        }
    }

    /// Stores `value` under `key`.
    pub fn set_int(&self, key: &str, value: i64) -> (r: Result<Call, Error>)
        ensures
            match r {
                Ok(Call::DataSetInt { data, key: k, value: v }) => data == self@ && k@
                    == key.spec_bytes() && v == value && nul_free(key.spec_bytes()),
                Err(Error::CString(at)) => first_nul(key.spec_bytes(), at as int),
                _ => false,
            },
    {
        let key = CText::new(key)?;
        Ok(Call::DataSetInt { data: self.pointer, key, value })
    }

    /// Asks for the integer under `key`. The answer is the integer.
    pub fn get_int(&self, key: &str) -> (r: Result<Call, Error>)
        ensures
            match r {
                Ok(Call::DataGetInt { data, key: k }) => data == self@ && k@ == key.spec_bytes()
                    && nul_free(key.spec_bytes()),
                Err(Error::CString(at)) => first_nul(key.spec_bytes(), at as int),
                _ => false,
            },
    {
        let key = CText::new(key)?;
        Ok(Call::DataGetInt { data: self.pointer, key })
    }

    /// Stores `value` under `key`.
    pub fn set_bool(&self, key: &str, value: bool) -> (r: Result<Call, Error>)
        ensures
            match r {
                Ok(Call::DataSetBool { data, key: k, value: v }) => data == self@ && k@
                    == key.spec_bytes() && v == value && nul_free(key.spec_bytes()),
                Err(Error::CString(at)) => first_nul(key.spec_bytes(), at as int),
                _ => false,
            },
    {
        let key = CText::new(key)?;
        Ok(Call::DataSetBool { data: self.pointer, key, value })
    }

    /// Asks for the flag under `key`. The answer is the flag.
    pub fn get_bool(&self, key: &str) -> (r: Result<Call, Error>)
        ensures
            match r {
                Ok(Call::DataGetBool { data, key: k }) => data == self@ && k@ == key.spec_bytes()
                    && nul_free(key.spec_bytes()),
                Err(Error::CString(at)) => first_nul(key.spec_bytes(), at as int),
                _ => false,
            },
    {
        let key = CText::new(key)?;
        Ok(Call::DataGetBool { data: self.pointer, key })
    }

    /// The setter calls that fill this data object from `members`, or the
    /// complaint of the first member that cannot be stored; then no call
    /// is to be made. `null` members are skipped.
    pub fn from_fields(&self, members: &Vec<(String, Field)>) -> (r: Result<Vec<Call>, Error>)
        ensures
            fills(r, self@, members@),
    {
        let mut calls: Vec<Call> = Vec::new();
        let mut i: usize = 0;
        while i < members.len()
            invariant
                i <= members.len(),
                forall|k: int| 0 <= k < i ==> accepted(#[trigger] members@[k]),
                calls@.len() == kept(members@.take(i as int)).len(),
                forall|j: int|
                    0 <= j < calls@.len() ==> stores(
                        #[trigger] calls@[j],
                        self@,
                        kept(members@.take(i as int))[j],
                    ),
            decreases members.len() - i,
        {
            let ghost member = members@[i as int];
            proof {
                assert(members@.take(i + 1).drop_last() =~= members@.take(i as int));
            }
            let made = match &members[i].1 {
                Field::Null => None,
                Field::Boolean(flag) => Some(self.set_bool(members[i].0.as_str(), *flag)),
                Field::Number(Some(n)) => Some(self.set_int(members[i].0.as_str(), *n)),
                Field::Number(None) => Some(Err(Error::Json)),
                Field::Text(text) => Some(self.set_string(members[i].0.as_str(), text.as_str())),
                Field::Nested => Some(Err(Error::Json)),
            };
            match made {
                None => {},
                Some(Ok(call)) => {
                    calls.push(call);
                },
                Some(Err(e)) => {
                    assert(!accepted(member) && rejected_with(member, e));
                    return Err(e);
                },
            }
            i += 1;
        }
        assert(members@.take(i as int) =~= members@);
        Ok(calls)
    }

    /// The setter calls that fill this data object from the top level of a
    /// JSON value: strings as strings, integers as integers, flags as
    /// flags, `null` members skipped. Anything but an object is refused
    /// with `Error::Json`, and so is an object with a member that is an
    /// array, an object, or a number that no `i64` holds.
    pub fn from_value(&self, value: &serde_json::Value) -> (r: Result<Vec<Call>, Error>)
        ensures
            !is_json_object(*value) ==> r == Err::<Vec<Call>, Error>(Error::Json),
            is_json_object(*value) ==> fills(r, self@, json_members(*value)),
    {
        match members_of(value) {
            None => Err(Error::Json),
            Some(members) => self.from_fields(&members),
        }
    }

    /// Asks for a data object parsed from a JSON document. The engine's
    /// answer, given to `from_raw`, is the handle.
    pub fn load(json: &str) -> (r: Result<Call, Error>)
        ensures
            match r {
                Ok(Call::DataCreateFromJson { json: j }) => j@ == json.spec_bytes() && nul_free(
                    json.spec_bytes(),
                ),
                Err(Error::CString(at)) => first_nul(json.spec_bytes(), at as int),
                _ => false,
            },
    {
        let json = CText::new(json)?;
        Ok(Call::DataCreateFromJson { json })
    }

    /// Asks for the data object as a JSON document. The answer goes to
    /// `dump_answer`.
    pub fn dump(&self) -> (r: Call)
        ensures
            r == (Call::DataGetJson { data: self@ }),
    {
        Call::DataGetJson { data: self.pointer }
    }

    /// The JSON document the engine answered with, as text: exactly, when
    /// it is UTF-8, and with the standard library's substitutions
    /// otherwise.
    pub fn dump_answer(text: &CText) -> (r: String)
        ensures
            valid_utf8(text@) ==> r@ == decode_utf8(text@),
            !valid_utf8(text@) ==> r@ == lossy_text(text@),
    {
        text.to_string_lossy()
    }
}

/// The members kept are the members that are not `null`, each once and in
/// their order: no `null` member is kept, and where none is `null`, every
/// member is.
pub proof fn lemma_kept_drops_exactly_the_nulls(members: Seq<(String, Field)>)
    ensures
        kept(members) == members.filter(|m: (String, Field)| !(m.1 is Null)),
        forall|j: int| 0 <= j < kept(members).len() ==> !(#[trigger] kept(members)[j].1 is Null),
        (forall|i: int| 0 <= i < members.len() ==> !(#[trigger] members[i].1 is Null)) ==> kept(
            members,
        ) == members,
    decreases members.len(),
{
    reveal(Seq::filter);
    if members.len() > 0 {
        lemma_kept_drops_exactly_the_nulls(members.drop_last());
        if forall|i: int| 0 <= i < members.len() ==> !(#[trigger] members[i].1 is Null) {
            assert forall|i: int| 0 <= i < members.drop_last().len() implies !(
            #[trigger] members.drop_last()[i].1 is Null) by {}
        }
    } else {
    }
}

/// A member that is not `null` and is stored is stored under its own key
/// with its own value, by the setter of its own type: a string as a
/// string, an integer as an integer, a flag as a flag. Read back with the
/// getter of that type from an engine that hands back what it was given,
/// it is the value it was.
pub proof fn lemma_stored_member_keeps_its_value(call: Call, data: usize, member: (String, Field))
    requires
        stores(call, data, member),
    ensures
        match member.1 {
            Field::Text(text) => call matches Call::DataSetString { value, .. } && valid_utf8(
                value@,
            ) && decode_utf8(value@) == text@,
            Field::Number(n) => call matches Call::DataSetInt { value, .. } && n == Some(value),
            Field::Boolean(flag) => call matches Call::DataSetBool { value, .. } && value == flag,
            _ => false,
        },
{
    match member.1 {
        Field::Text(text) => {
            encode_utf8_valid_utf8(text@);
            encode_utf8_decode_utf8(text@);
        },
        _ => {},
    }
}

} // verus!
