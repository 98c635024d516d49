//! The command bridge.
//!
//! Five operations back the front-end. Three of them exchange one HTTP
//! request with the dataset server; the application issues the request and
//! hands the decoded response body to the library as `Some(body)`, or `None`
//! when the transport failed or the body could not be decoded. The HTTP
//! status code is never inspected, so a server-side rejection with a
//! decodable body counts as a response. The other two operations touch no
//! network at all: they only produce a log line.

use vstd::prelude::*;
use vstd::string::StringExecFns;
use crate::error_text;
use crate::lines::spec_split_nonempty;
use crate::lines::split_nonempty_lines;

verus! {

/// What `add_dataset` returns for each transport outcome.
pub open spec fn add_result_spec(outcome: Option<Seq<char>>) -> Seq<char> {
    match outcome {
        Some(body) => "Added "@ + body,
        None => error_text(),
    }
}

/// What `remove_dataset` returns for each transport outcome.
pub open spec fn remove_result_spec(outcome: Option<Seq<char>>) -> Seq<char> {
    match outcome {
        Some(body) => "Removed "@ + body,
        None => error_text(),
    }
}

/// What `all_datasets` returns for each transport outcome.
pub open spec fn all_result_spec(outcome: Option<Seq<char>>) -> Seq<Seq<char>> {
    match outcome {
        Some(body) => spec_split_nonempty(body),
        None => seq![error_text()],
    }
}

/// The URL that creating or removing the dataset `name` is requested at.
pub fn dataset_url(name: &str) -> (r: String)
    ensures
        r@ == "http://localhost:4200/datasets/"@ + name@,
{
    String::from_str("http://localhost:4200/datasets/").concat(name)
}

/// The URL that the dataset listing is requested at.
pub fn listing_url() -> (r: String)
    ensures
        r@ == "http://localhost:4200/datasets"@,
{
    String::from_str("http://localhost:4200/datasets")
}

/// Shapes the outcome of the creation request for the front-end: the
/// response body prefixed with `Added `, or `Error` when there was no
/// decodable response.
pub fn add_dataset(outcome: Option<String>) -> (r: String)
    ensures
        r@ == add_result_spec(outcome.deep_view()),
{
    match outcome {
        Some(body) => String::from_str("Added ").concat(body.as_str()),
        None => String::from_str("Error"),
    }
}

/// Shapes the outcome of the removal request for the front-end: the
/// response body prefixed with `Removed `, or `Error` when there was no
/// decodable response.
pub fn remove_dataset(outcome: Option<String>) -> (r: String)
    ensures
        r@ == remove_result_spec(outcome.deep_view()),
{
    match outcome {
        Some(body) => String::from_str("Removed ").concat(body.as_str()),
        None => String::from_str("Error"),
    }
}

/// Shapes the outcome of the listing request for the front-end: the
/// non-empty lines of the response body in order, or the one-element
/// listing `Error` when there was no decodable response.
pub fn all_datasets(outcome: Option<String>) -> (r: Vec<String>)
    ensures
        r.deep_view() == all_result_spec(outcome.deep_view()),
{
    match outcome {
        Some(body) => split_nonempty_lines(body.as_str()),
        None => {
            let mut v: Vec<String> = Vec::new();
            v.push(String::from_str("Error"));
            proof {
                assert(v.deep_view() =~= seq![error_text()]);
            }
            v
        },
    }
}

/// The log line that `run_write` produces.
pub open spec fn write_log_spec(dataset: Seq<char>, input: Seq<char>) -> Seq<char> {
    "Running Write on "@ + dataset + ":\n"@ + input
}

/// The log line that `run_query` produces.
pub open spec fn query_log_spec(dataset: Seq<char>, input: Seq<char>) -> Seq<char> {
    "Running Query on "@ + dataset + ":\n"@ + input
}

/// The write command is a stub: it performs no request and only produces
/// the log line recording its arguments, for the application to print.
pub fn run_write(dataset: &str, input: &str) -> (r: String)
    ensures
        r@ == write_log_spec(dataset@, input@),
{
    String::from_str("Running Write on ").concat(dataset).concat(":\n").concat(input)
}

/// The query command is a stub: it performs no request and only produces
/// the log line recording its arguments, for the application to print.
pub fn run_query(dataset: &str, input: &str) -> (r: String)
    ensures
        r@ == query_log_spec(dataset@, input@),
{
    String::from_str("Running Query on ").concat(dataset).concat(":\n").concat(input)
}

/// Against a server that echoes the dataset name, adding and then removing
/// a dataset yield the confirmations carrying that name.
pub proof fn lemma_add_remove_echo(n: Seq<char>)
    ensures
        add_result_spec(Some(n)) == "Added "@ + n,
        remove_result_spec(Some(n)) == "Removed "@ + n,
{
}

/// When no response could be had, each command that issues a request
/// reports its error value: the string `Error`, or the one-element listing
/// holding it.
pub proof fn lemma_unreachable_error()
    ensures
        add_result_spec(None) == error_text(),
        remove_result_spec(None) == error_text(),
        all_result_spec(None) == seq![error_text()],
{
}

} // verus!
