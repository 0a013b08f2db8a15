//! Functions, and the command lines by which they are read.

use vstd::prelude::*;

use crate::command;
use crate::command::{with_option, with_region, Ran};
use crate::numeral;
use crate::numeral::byte_count_text;
use crate::order;
use crate::order::{name_before, sort_by};
use crate::table::Table;
use crate::text;
use crate::text::{cat2, cat4, list_of, owned, trim};

verus! {

/// A function and what it is configured with.
pub struct Function {
    pub function_name: String,
    pub function_arn: String,
    pub runtime: Option<String>,
    pub handler: Option<String>,
    pub role: String,
    pub memory_size: Option<u32>,
    pub timeout: Option<u32>,
    pub last_modified: Option<String>,
    pub code_size: Option<u64>,
    pub description: Option<String>,
    pub package_type: Option<String>,
    pub architectures: Vec<String>,
    pub environment: Option<EnvironmentResponse>,
    pub reserved_concurrent_executions: Option<u32>,
    pub tracing_config: Option<TracingConfig>,
    pub dead_letter_config: Option<DeadLetterConfig>,
}

/// The environment of a function: its variables, and why they could not be
/// read.
pub struct EnvironmentResponse {
    pub variables: Table<String, String>,
    pub error: Option<EnvironmentError>,
}

impl EnvironmentResponse {
    /// How many variables there are.
    pub fn var_count(&self) -> (r: usize)
        ensures
            r == self.variables@.dom().len(),
    {
        self.variables.len()
    }
}

pub struct EnvironmentError {
    pub error_code: Option<String>,
    pub message: Option<String>,
}

pub struct TracingConfig {
    pub mode: Option<String>,
}

pub struct DeadLetterConfig {
    pub target_arn: Option<String>,
}

/// The arguments of `aws` for a page of the list of functions.
pub open spec fn list_command(region: Option<Seq<char>>, marker: Option<Seq<char>>) -> Seq<Seq<char>> {
    seq!["lambda"@, "list-functions"@, "--output"@, "json"@] + command::region_option(region)
        + command::option_with("--starting-token"@, marker)
}

pub fn list_functions_args(region: Option<&str>, marker: Option<&str>) -> (r: Vec<String>)
    ensures
        text::views(r@) == list_command(text::opt_str_view(region), text::opt_str_view(marker)),
{
    let head = list_of(vec!["lambda", "list-functions", "--output", "json"]);
    assert(text::views(head@) =~= seq!["lambda"@, "list-functions"@, "--output"@, "json"@]);
    with_option(with_region(head, region), "--starting-token", marker)
}

/// The error of a run that listed no functions.
pub open spec fn list_error(ran: Ran) -> Option<Seq<char>> {
    match ran {
        Ran::NotStarted(_) => Some("spawn `aws lambda list-functions`"@),
        Ran::Failed(e) => Some("aws lambda list-functions failed: "@ + text::trimmed(e@)),
        Ran::Done(_) => None,
    }
}

pub fn list_functions_error(ran: &Ran) -> (r: Option<String>)
    ensures
        text::opt_view(r) == list_error(*ran),
{
    match ran {
        Ran::NotStarted(_) => Some(owned("spawn `aws lambda list-functions`")),
        Ran::Failed(e) => Some(cat2("aws lambda list-functions failed: ", trim(e.as_str()))),
        Ran::Done(_) => None,
    }
}

/// Functions in the order in which they are listed: by name, in lower case.
pub open spec fn listed(f: Seq<Function>) -> Seq<Function> {
    order::sorted(
        f,
        |a: Function, b: Function| order::lower_before(a.function_name@, b.function_name@),
    )
}

/// Puts functions in the order of the list.
pub fn sort_functions(f: Vec<Function>) -> (r: Vec<Function>)
    ensures
        r@ == listed(f@),
{
    let comes_before = |a: &Function, b: &Function| -> (o: bool)
        ensures
            o == order::lower_before(a.function_name@, b.function_name@),
    {
        name_before(a.function_name.as_str(), b.function_name.as_str())
    };
    sort_by(
        f,
        comes_before,
        Ghost(|a: Function, b: Function| order::lower_before(a.function_name@, b.function_name@)),
    )
}

/// The arguments of `aws` for one function.
pub open spec fn get_command(name: Seq<char>, region: Option<Seq<char>>) -> Seq<Seq<char>> {
    seq![
        "lambda"@,
        "get-function-configuration"@,
        "--function-name"@,
        name,
        "--output"@,
        "json"@,
    ] + command::region_option(region)
}

pub fn get_function_args(name: &str, region: Option<&str>) -> (r: Vec<String>)
    ensures
        text::views(r@) == get_command(name@, text::opt_str_view(region)),
{
    let head = list_of(
        vec!["lambda", "get-function-configuration", "--function-name", name, "--output", "json"],
    );
    assert(text::views(head@) =~= seq![
        "lambda"@,
        "get-function-configuration"@,
        "--function-name"@,
        name@,
        "--output"@,
        "json"@,
    ]);
    with_region(head, region)
}

/// The error of a run that read no function.
pub open spec fn get_error(name: Seq<char>, ran: Ran) -> Option<Seq<char>> {
    match ran {
        Ran::NotStarted(_) => Some("spawn `aws lambda get-function-configuration` for "@ + name),
        Ran::Failed(e) => Some(
            "aws lambda get-function-configuration failed for "@ + name + ": "@ + text::trimmed(e@),
        ),
        Ran::Done(_) => None,
    }
}

pub fn get_function_error(name: &str, ran: &Ran) -> (r: Option<String>)
    ensures
        text::opt_view(r) == get_error(name@, *ran),
{
    match ran {
        Ran::NotStarted(_) => Some(cat2("spawn `aws lambda get-function-configuration` for ", name)),
        Ran::Failed(e) => Some(
            cat4("aws lambda get-function-configuration failed for ", name, ": ", trim(e.as_str())),
        ),
        Ran::Done(_) => None,
    }
}

/// The log group of a function.
pub fn log_group_for(name: &str) -> (r: String)
    ensures
        r@ == "/aws/lambda/"@ + name@,
{
    cat2("/aws/lambda/", name)
}

/// A number of bytes in words.
pub fn fmt_bytes(n: u64) -> (r: String)
    ensures
        r@ == numeral::byte_count(n as nat),
{
    byte_count_text(n)
}

/// Functions are listed by name, whatever the case of its letters, and none is
/// lost or added.
pub proof fn law_functions_in_order(f: Seq<Function>)
    ensures
        order::in_order(listed(f), |a: Function, b: Function| order::lower_before(a.function_name@, b.function_name@)),
        listed(f).to_multiset() == f.to_multiset(),
{
    let less = |a: Function, b: Function| order::lower_before(a.function_name@, b.function_name@);
    order::lemma_key_orders(less, |a: Function| text::lowercased(a.function_name@));
    order::law_sorted(f, less);
}

} // verus!
