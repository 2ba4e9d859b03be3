//! The claims a token carries, and their form as a JSON payload.

use vstd::prelude::*;
use crate::json::{
    json_clone,
    json_from_text,
    json_from_unsigned,
    json_insert,
    json_is_null,
    json_member,
    json_model,
    json_object,
    json_text,
    json_unsigned,
    member,
    unsigned,
    JsonModel,
};

verus! {

/// The decoded payload of a token.
#[derive(Debug)]
pub struct Claims {
    /// Expiry, in seconds since the epoch.
    pub exp: u64,
    /// Subject identifier.
    pub uid: String,
    /// Free-form payload that this layer carries and never reads.
    pub data: Option<serde_json::Value>,
}

/// What a [`Claims`] value holds.
pub struct ClaimsModel {
    pub exp: u64,
    pub uid: Seq<char>,
    pub data: Option<JsonModel>,
}

impl View for Claims {
    type V = ClaimsModel;

    open spec fn view(&self) -> ClaimsModel {
        ClaimsModel {
            exp: self.exp,
            uid: self.uid@,
            data: match self.data {
                Some(value) => Some(json_model(value)),
                None => None,
            },
        }
    }
}

/// Name of the payload member that holds the subject identifier.
pub open spec fn uid_member() -> Seq<char> {
    "uid"@
}

/// Name of the payload member that holds the expiry.
pub open spec fn exp_member() -> Seq<char> {
    "exp"@
}

/// Name of the payload member that holds the free-form data.
pub open spec fn data_member() -> Seq<char> {
    "data"@
}

impl ClaimsModel {
    /// Claims are well formed when the subject identifier is not empty.
    pub open spec fn well_formed(self) -> bool {
        self.uid.len() > 0
    }

    /// The payload that stands for these claims: an object with the subject
    /// under `uid`, the expiry under `exp` and, where there is any, the data
    /// under `data`.
    pub open spec fn payload(self) -> JsonModel {
        let required = Map::<Seq<char>, JsonModel>::empty().insert(
            uid_member(),
            JsonModel::Text(self.uid),
        ).insert(exp_member(), JsonModel::Integer(self.exp as int));
        JsonModel::Object(
            match self.data {
                Some(data) => required.insert(data_member(), data),
                None => required,
            },
        )
    }

    /// The claims that a payload stands for. A payload stands for claims when
    /// it is an object whose `uid` is a non-empty string and whose `exp` is an
    /// unsigned 64-bit integer. A `data` member that is missing or `null`
    /// means no data.
    pub open spec fn of_payload(payload: JsonModel) -> Option<ClaimsModel> {
        match (member(payload, uid_member()), member(payload, exp_member())) {
            (Some(JsonModel::Text(uid)), Some(expiry)) => match unsigned(expiry) {
                Some(exp) => if uid.len() > 0 {
                    Some(
                        ClaimsModel {
                            exp,
                            uid,
                            data: match member(payload, data_member()) {
                                Some(JsonModel::Null) => None,
                                other => other,
                            },
                        },
                    )
                } else {
                    None
                },
                None => None,
            },
            _ => None,
        }
    }
}

/// The three member names differ from one another.
pub proof fn lemma_member_names_differ()
    ensures
        uid_member() != exp_member(),
        uid_member() != data_member(),
        exp_member() != data_member(),
{
    reveal_strlit("uid");
    reveal_strlit("exp");
    reveal_strlit("data");
    assert(uid_member()[0] == 'u');
    assert(exp_member()[0] == 'e');
    assert(data_member()[0] == 'd');
}

/// Reading back the payload of well-formed claims gives the same claims,
/// unless their data is the JSON value `null`, which reads back as no data.
pub proof fn lemma_payload_round_trip(claims: ClaimsModel)
    requires
        claims.well_formed(),
        claims.data != Some(JsonModel::Null),
    ensures
        ClaimsModel::of_payload(claims.payload()) == Some(claims),
{
    lemma_member_names_differ();
}

impl Clone for Claims {
    fn clone(&self) -> (copy: Self)
        ensures
            copy@ == self@,
    {
        Claims {
            exp: self.exp,
            uid: self.uid.clone(),
            data: match &self.data {
                Some(value) => Some(json_clone(value)),
                None => None,
            },
        }
    }
}

impl Claims {
    /// Writes the claims as a JSON payload.
    pub fn to_payload(&self) -> (payload: serde_json::Value)
        ensures
            json_model(payload) == self@.payload(),
    {
        let mut payload = json_object();
        json_insert(&mut payload, "uid", json_from_text(self.uid.as_str()));
        json_insert(&mut payload, "exp", json_from_unsigned(self.exp));
        match &self.data {
            Some(value) => {
                json_insert(&mut payload, "data", json_clone(value));
            },
            None => {},
        }
        payload
    }

    /// Reads claims from a JSON payload; nothing where the payload stands for none.
    pub fn from_payload(payload: &serde_json::Value) -> (claims: Option<Claims>)
        ensures
            match claims {
                Some(c) => ClaimsModel::of_payload(json_model(*payload)) == Some(c@),
                None => ClaimsModel::of_payload(json_model(*payload)) is None,
            },
    {
        let uid = match json_member(payload, "uid") {
            Some(value) => match json_text(value) {
                Some(text) => text,
                None => { return None; },
            },
            None => { return None; },
        };
        let exp = match json_member(payload, "exp") {
            Some(value) => match json_unsigned(value) {
                Some(number) => number,
                None => { return None; },
            },
            None => { return None; },
        };
        if uid.is_empty() {
            return None;
        }
        let data = match json_member(payload, "data") {
            Some(value) => if json_is_null(value) {
                None
            } else {
                Some(json_clone(value))
            },
            None => None,
        };
        Some(Claims { exp, uid: uid.to_owned(), data })
    }
}

} // verus!
