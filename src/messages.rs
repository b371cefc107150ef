use vstd::prelude::*;
use vstd::string::StringExecFns;

verus! {

pub open spec fn connect_error_text(url: Seq<char>, detail: Seq<char>) -> Seq<char> {
    "Failed to connect to gRPC server at "@ + url + ": "@ + detail
}

pub open spec fn call_error_text(detail: Seq<char>) -> Seq<char> {
    "gRPC call failed: "@ + detail
}

pub open spec fn serialize_error_text(detail: Seq<char>) -> Seq<char> {
    "Failed to serialize response: "@ + detail
}

pub open spec fn stream_serialize_error_text(detail: Seq<char>) -> Seq<char> {
    "Failed to serialize chat stream: "@ + detail
}

pub open spec fn open_error_text(path: Seq<char>, detail: Seq<char>) -> Seq<char> {
    "Failed to open file "@ + path + ": "@ + detail
}

pub open spec fn interruption_text(detail: Seq<char>) -> Seq<char> {
    "Stream interrupted: "@ + detail + ". Some partial results may be missing."@
}

pub open spec fn greeting_text(name: Seq<char>) -> Seq<char> {
    "Hello, "@ + name + "! You've been greeted from Rust!"@
}

/// The answer to a greeting from the UI.
pub fn greeting(name: &str) -> (r: String)
    ensures
        r@ == greeting_text(name@),
{
    String::from_str("Hello, ").concat(name).concat("! You've been greeted from Rust!")
}

/// The error of a failed connection attempt, naming the endpoint.
pub fn connect_error(url: &str, detail: &str) -> (r: String)
    ensures
        r@ == connect_error_text(url@, detail@),
{
    String::from_str("Failed to connect to gRPC server at ").concat(url).concat(": ").concat(detail)
}

/// The error of a remote call that failed in transport or on the remote side.
pub fn call_error(detail: &str) -> (r: String)
    ensures
        r@ == call_error_text(detail@),
{
    String::from_str("gRPC call failed: ").concat(detail)
}

/// The error of a response that could not be turned into a structured value.
pub fn serialize_error(detail: &str) -> (r: String)
    ensures
        r@ == serialize_error_text(detail@),
{
    String::from_str("Failed to serialize response: ").concat(detail)
}

/// The error of a collected chat stream that could not be turned into a
/// structured value.
pub fn stream_serialize_error(detail: &str) -> (r: String)
    ensures
        r@ == stream_serialize_error_text(detail@),
{
    String::from_str("Failed to serialize chat stream: ").concat(detail)
}

/// The error of a file that could not be opened for upload.
pub fn open_error(path: &str, detail: &str) -> (r: String)
    ensures
        r@ == open_error_text(path@, detail@),
{
    String::from_str("Failed to open file ").concat(path).concat(": ").concat(detail)
}

/// The text of the entry that marks an interrupted response stream.
pub fn interruption_message(detail: &str) -> (r: String)
    ensures
        r@ == interruption_text(detail@),
{
    String::from_str("Stream interrupted: ").concat(detail).concat(
        ". Some partial results may be missing.",
    )
}

} // verus!
