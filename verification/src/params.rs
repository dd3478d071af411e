//! Binding of query parameters.
//!
//! Parameters reach the driver beside the query text, never inside it: the
//! binder wraps each value and leaves the text of the query alone.

use vstd::prelude::*;

verus! {

/// A typed parameter, as a driver takes it.
#[derive(Clone, Debug, PartialEq, Eq)]
pub enum DriverParam {
    Null,
    Bool(bool),
    Int(i64),
    String(String),
}

/// `out` names the parameters of `params` in the same order, each value
/// wrapped as a string parameter with the same characters.
pub open spec fn binds_to(params: Seq<(String, String)>, out: Seq<(String, DriverParam)>) -> bool {
    &&& out.len() == params.len()
    &&& forall|i: int|
        0 <= i < params.len() ==> {
            &&& (#[trigger] out[i]).0@ == params[i].0@
            &&& out[i].1 matches DriverParam::String(s) && s@ == params[i].1@
        }
}

/// Wraps every value as a string parameter. Nothing is inferred from a value
/// and nothing is escaped.
pub fn bind(params: &Vec<(String, String)>) -> (r: Vec<(String, DriverParam)>)
    ensures
        binds_to(params@, r@),
{
    let mut out: Vec<(String, DriverParam)> = Vec::new();
    let mut i: usize = 0;
    while i < params.len()
        invariant
            i <= params@.len(),
            binds_to(params@.subrange(0, i as int), out@),
        decreases params@.len() - i,
    {
        let name = params[i].0.clone();
        let value = params[i].1.clone();
        out.push((name, DriverParam::String(value)));
        i = i + 1;
    }
    assert(params@.subrange(0, i as int) =~= params@);
    out
}

/// A query as a driver runs it: the text, and beside it the parameters.
#[derive(Clone, Debug, PartialEq, Eq)]
pub struct QueryRequest {
    pub template: String,
    pub params: Vec<(String, DriverParam)>,
}

/// Makes a request from a query text and its parameters. The text is taken
/// as it stands, whatever the parameters hold; the parameters are bound as
/// `bind` binds them.
pub fn prepare(template: &str, params: &Vec<(String, String)>) -> (r: QueryRequest)
    ensures
        r.template@ == template@,
        binds_to(params@, r.params@),
{
    QueryRequest { template: template.to_owned(), params: bind(params) }
}

} // verus!
