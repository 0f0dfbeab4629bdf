//! The parameters that an API request carries, and their conversion into the
//! argument tuples that the supervisor methods take.

use vstd::prelude::*;
use vstd::string::*;

verus! {

/// The parameters of an API request. A request body is read as the first of
/// these shapes that fits it, in the order in which they are listed.
#[allow(inconsistent_fields)]
pub enum RequestParams {
    StringI32I32 { a: String, b: i32, c: i32 },
    StringString { a: String, b: String },
    StringBool { a: String, b: bool },
    I32I32 { a: i32, b: i32 },
    String { a: String },
    Bool { a: bool },
    Empty {},
}

/// The shape of a `RequestParams` value: which of its variants it is.
#[derive(PartialEq, Eq, Structural, Clone, Copy, Debug)]
pub enum ParamShape {
    StringI32I32,
    StringString,
    StringBool,
    I32I32,
    Text,
    Flag,
    Nothing,
}

/// The parameters of a request to the log endpoint.
pub struct LogRequestParams {
    pub offset: i32,
    pub length: i32,
    pub process: String,
}

/// The message with which a request whose parameters do not fit is refused.
pub open spec fn bad_request_message() -> Seq<char> {
    "Bad request"@
}

fn bad_request() -> (e: String)
    ensures
        e@ == bad_request_message(),
{
    String::from_str("Bad request")
}

impl RequestParams {
    /// Which variant `self` is.
    pub open spec fn shape(&self) -> ParamShape {
        match self {
            RequestParams::StringI32I32 { .. } => ParamShape::StringI32I32,
            RequestParams::StringString { .. } => ParamShape::StringString,
            RequestParams::StringBool { .. } => ParamShape::StringBool,
            RequestParams::I32I32 { .. } => ParamShape::I32I32,
            RequestParams::String { .. } => ParamShape::Text,
            RequestParams::Bool { .. } => ParamShape::Flag,
            RequestParams::Empty {} => ParamShape::Nothing,
        }
    }

    /// The fields of a `StringI32I32` value; any other value is a bad request.
    pub fn to_string_i32_i32(self) -> (r: Result<(String, i32, i32), String>)
        ensures
            r is Ok <==> self.shape() == ParamShape::StringI32I32,
            r matches Ok(v) ==> self == (RequestParams::StringI32I32 { a: v.0, b: v.1, c: v.2 }),
            r matches Err(e) ==> e@ == bad_request_message(),
    {
        if let RequestParams::StringI32I32 { a, b, c } = self {
            Ok((a, b, c))
        } else {
            Err(bad_request())
        }
    }

    /// The fields of a `StringString` value; any other value is a bad request.
    pub fn to_string_string(self) -> (r: Result<(String, String), String>)
        ensures
            r is Ok <==> self.shape() == ParamShape::StringString,
            r matches Ok(v) ==> self == (RequestParams::StringString { a: v.0, b: v.1 }),
            r matches Err(e) ==> e@ == bad_request_message(),
    {
        if let RequestParams::StringString { a, b } = self {
            Ok((a, b))
        } else {
            Err(bad_request())
        }
    }

    /// The fields of a `StringBool` value; any other value is a bad request.
    pub fn to_string_bool(self) -> (r: Result<(String, bool), String>)
        ensures
            r is Ok <==> self.shape() == ParamShape::StringBool,
            r matches Ok(v) ==> self == (RequestParams::StringBool { a: v.0, b: v.1 }),
            r matches Err(e) ==> e@ == bad_request_message(),
    {
        if let RequestParams::StringBool { a, b } = self {
            Ok((a, b))
        } else {
            Err(bad_request())
        }
    }

    /// The fields of an `I32I32` value; any other value is a bad request.
    pub fn to_i32_i32(self) -> (r: Result<(i32, i32), String>)
        ensures
            r is Ok <==> self.shape() == ParamShape::I32I32,
            r matches Ok(v) ==> self == (RequestParams::I32I32 { a: v.0, b: v.1 }),
            r matches Err(e) ==> e@ == bad_request_message(),
    {
        if let RequestParams::I32I32 { a, b } = self {
            Ok((a, b))
        } else {
            Err(bad_request())
        }
    }

    /// The field of a `String` value; any other value is a bad request.
    pub fn to_string(self) -> (r: Result<String, String>)
        ensures
            r is Ok <==> self.shape() == ParamShape::Text,
            r matches Ok(v) ==> self == (RequestParams::String { a: v }),
            r matches Err(e) ==> e@ == bad_request_message(),
    {
        if let RequestParams::String { a } = self {
            Ok(a)
        } else {
            Err(bad_request())
        }
    }

    /// The field of a `Bool` value; any other value is a bad request.
    pub fn to_bool(self) -> (r: Result<bool, String>)
        ensures
            r is Ok <==> self.shape() == ParamShape::Flag,
            r matches Ok(v) ==> self == (RequestParams::Bool { a: v }),
            r matches Err(e) ==> e@ == bad_request_message(),
    {
        if let RequestParams::Bool { a } = self {
            Ok(a)
        } else {
            Err(bad_request())
        }
    }

    /// Succeeds on an `Empty` value; any other value is a bad request.
    pub fn is_empty(self) -> (r: Result<(), String>)
        ensures
            r is Ok <==> self.shape() == ParamShape::Nothing,
            r matches Err(e) ==> e@ == bad_request_message(),
    {
        if let RequestParams::Empty {} = self {
            Ok(())
        } else {
            Err(bad_request())
        }
    }
}

/// Of the seven conversions of `RequestParams`, exactly one accepts any given
/// value: the one named after the value's variant.
pub proof fn lemma_exactly_one_conversion_accepts(p: RequestParams)
    ensures
        p.shape() == ParamShape::StringI32I32 || p.shape() == ParamShape::StringString
            || p.shape() == ParamShape::StringBool || p.shape() == ParamShape::I32I32
            || p.shape() == ParamShape::Text || p.shape() == ParamShape::Flag || p.shape()
            == ParamShape::Nothing,
        p.shape() == ParamShape::StringI32I32 <==> p is StringI32I32,
        p.shape() == ParamShape::StringString <==> p is StringString,
        p.shape() == ParamShape::StringBool <==> p is StringBool,
        p.shape() == ParamShape::I32I32 <==> p is I32I32,
        p.shape() == ParamShape::Text <==> p is String,
        p.shape() == ParamShape::Flag <==> p is Bool,
        p.shape() == ParamShape::Nothing <==> p is Empty,
{
}

} // verus!
