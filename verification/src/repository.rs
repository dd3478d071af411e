//! The repository contract, and the decoding of whole results.
//!
//! A repository decodes the nodes of a query result into entities of one
//! type. It holds no state; talking to the database is the business of a
//! driver loop outside this crate, which follows `crate::session`.
//!
//! The policy is strict: the first value that is no node, and the first node
//! that the decoder rejects, fail the whole query, and what had been
//! collected is dropped.

use vstd::prelude::*;
use crate::decoder::{decode_person, person_of};
use crate::entities::Person;
use crate::value::{GraphValue, Node, Record};

verus! {

/// Why a query gave no result.
#[derive(Clone, Debug, PartialEq, Eq)]
pub enum RepositoryError {
    /// The driver could not reach the database, or the connection was not
    /// ready.
    ConnectionFailed,
    /// The driver refused to run the query, or failed while it fetched the
    /// result; the text is the driver's own.
    QueryFailed(String),
    /// A result held something other than a node.
    UnexpectedValue,
    /// A node lacked a required field.
    DecodeRejected,
}

/// A repository of entities of type `T`.
pub trait DbRepository<T>: Sized {
    /// The nodes that `decode` turns into an entity.
    spec fn accepts(node: Node) -> bool;

    /// `entity` is what `node` decodes to.
    spec fn decoded(node: Node, entity: T) -> bool;

    fn new() -> Self;

    /// Decodes one node; `None` rejects it.
    fn decode(&self, node: &Node) -> (r: Option<T>)
        ensures
            r is Some <==> Self::accepts(*node),
            r matches Some(e) ==> Self::decoded(*node, e),
    ;
}

/// The repository of persons.
#[derive(Debug, PartialEq, Eq)]
pub struct PersonRepository {}

impl DbRepository<Person> for PersonRepository {
    open spec fn accepts(node: Node) -> bool {
        person_of(node) is Some
    }

    open spec fn decoded(node: Node, entity: Person) -> bool {
        person_of(node) == Some(entity@)
    }

    fn new() -> Self {
        PersonRepository {}
    }

    fn decode(&self, node: &Node) -> (r: Option<Person>) {
        decode_person(node)
    }
}

/// The values of all records, in the order in which they came.
pub open spec fn flat(records: Seq<Record>) -> Seq<GraphValue>
    decreases records.len(),
{
    if records.len() == 0 {
        Seq::empty()
    } else {
        flat(records.drop_last()) + records.last().values@
    }
}

/// A value that the repository `R` turns into an entity: a node that its
/// decoder accepts.
pub open spec fn acceptable<T, R: DbRepository<T>>(value: GraphValue) -> bool {
    value matches GraphValue::Node(n) && R::accepts(n)
}

/// The error that a value which is not acceptable gives.
pub open spec fn fault_of(value: GraphValue) -> RepositoryError {
    if value is Node {
        RepositoryError::DecodeRejected
    } else {
        RepositoryError::UnexpectedValue
    }
}

/// `out` holds, in order, what each of `values` decodes to.
pub open spec fn decoded_all<T, R: DbRepository<T>>(values: Seq<GraphValue>, out: Seq<T>) -> bool {
    &&& out.len() == values.len()
    &&& forall|i: int|
        0 <= i < values.len() ==> {
            &&& acceptable::<T, R>(#[trigger] values[i])
            &&& R::decoded(values[i]->Node_0, out[i])
        }
}

/// `values[at]` is the first value that is not acceptable.
pub open spec fn first_fault<T, R: DbRepository<T>>(values: Seq<GraphValue>, at: int) -> bool {
    &&& 0 <= at < values.len()
    &&& !acceptable::<T, R>(values[at])
    &&& forall|j: int| 0 <= j < at ==> acceptable::<T, R>(#[trigger] values[j])
}

/// `outcome` is what decoding `values` in order gives: all entities, or the
/// error of the first value that is not acceptable.
pub open spec fn collects<T, R: DbRepository<T>>(
    values: Seq<GraphValue>,
    outcome: Result<Vec<T>, RepositoryError>,
) -> bool {
    match outcome {
        Ok(out) => decoded_all::<T, R>(values, out@),
        Err(e) => exists|at: int| #[trigger] first_fault::<T, R>(values, at) && e == fault_of(values[at]),
    }
}

/// Decodes the values of one record in order.
pub fn decode_values<T, R: DbRepository<T>>(repo: &R, values: &Vec<GraphValue>) -> (r: Result<
    Vec<T>,
    RepositoryError,
>)
    ensures
        collects::<T, R>(values@, r),
{
    let mut out: Vec<T> = Vec::new();
    let mut i: usize = 0;
    while i < values.len()
        invariant
            i <= values@.len(),
            decoded_all::<T, R>(values@.subrange(0, i as int), out@),
        decreases values@.len() - i,
    {
        match &values[i] {
            GraphValue::Node(node) => {
                match repo.decode(node) {
                    Some(entity) => {
                        out.push(entity);
                    },
                    None => {
                        assert(first_fault::<T, R>(values@, i as int)) by {
                            assert forall|j: int| 0 <= j < i implies acceptable::<T, R>(
                                #[trigger] values@[j],
                            ) by {
                                assert(values@.subrange(0, i as int)[j] == values@[j]);
                            }
                        }
                        return Err(RepositoryError::DecodeRejected);
                    },
                }
            },
            _ => {
                assert(first_fault::<T, R>(values@, i as int)) by {
                    assert forall|j: int| 0 <= j < i implies acceptable::<T, R>(
                        #[trigger] values@[j],
                    ) by {
                        assert(values@.subrange(0, i as int)[j] == values@[j]);
                    }
                }
                return Err(RepositoryError::UnexpectedValue);
            },
        }
        i = i + 1;
        proof {
            let now = values@.subrange(0, i as int);
            assert forall|j: int| 0 <= j < now.len() implies {
                &&& acceptable::<T, R>(#[trigger] now[j])
                &&& R::decoded(now[j]->Node_0, out@[j])
            } by {
                if j < i - 1 {
                    assert(values@.subrange(0, i - 1)[j] == now[j]);
                }
            }
        }
    }
    assert(values@.subrange(0, i as int) =~= values@);
    Ok(out)
}

proof fn lemma_flat_push(records: Seq<Record>, i: int)
    requires
        0 <= i < records.len(),
    ensures
        flat(records.subrange(0, i + 1)) == flat(records.subrange(0, i)) + records[i].values@,
{
    let upto = records.subrange(0, i + 1);
    assert(upto.drop_last() =~= records.subrange(0, i));
    assert(upto.last() == records[i]);
}

/// What two runs of values decode to, one after the other, is what the two
/// runs put together decode to.
pub proof fn lemma_decoded_all_concat<T, R: DbRepository<T>>(
    a: Seq<GraphValue>,
    x: Seq<T>,
    b: Seq<GraphValue>,
    y: Seq<T>,
)
    requires
        decoded_all::<T, R>(a, x),
        decoded_all::<T, R>(b, y),
    ensures
        decoded_all::<T, R>(a + b, x + y),
{
    let ab = a + b;
    let xy = x + y;
    assert forall|i: int| 0 <= i < ab.len() implies {
        &&& acceptable::<T, R>(#[trigger] ab[i])
        &&& R::decoded(ab[i]->Node_0, xy[i])
    } by {
        if i < a.len() {
            assert(ab[i] == a[i] && xy[i] == x[i]);
        } else {
            assert(ab[i] == b[i - a.len()] && xy[i] == y[i - a.len()]);
        }
    }
}

/// Behind values that all decode, the first bad value of what follows is
/// the first bad value of the whole.
pub proof fn lemma_first_fault_concat<T, R: DbRepository<T>>(
    a: Seq<GraphValue>,
    x: Seq<T>,
    b: Seq<GraphValue>,
    at: int,
)
    requires
        decoded_all::<T, R>(a, x),
        first_fault::<T, R>(b, at),
    ensures
        first_fault::<T, R>(a + b, a.len() + at),
        (a + b)[a.len() + at] == b[at],
{
    let ab = a + b;
    assert forall|j: int| 0 <= j < a.len() + at implies acceptable::<T, R>(#[trigger] ab[j]) by {
        if j < a.len() {
            assert(ab[j] == a[j]);
        } else {
            assert(ab[j] == b[j - a.len()]);
        }
    }
}

/// Decodes the values of all records, record by record and value by value.
///
/// The result is the list of entities in the order of the values, or the
/// error of the first value that is no node or that the decoder rejects.
pub fn decode_records<T, R: DbRepository<T>>(repo: &R, records: &Vec<Record>) -> (r: Result<
    Vec<T>,
    RepositoryError,
>)
    ensures
        collects::<T, R>(flat(records@), r),
{
    let mut out: Vec<T> = Vec::new();
    let mut i: usize = 0;
    while i < records.len()
        invariant
            i <= records@.len(),
            decoded_all::<T, R>(flat(records@.subrange(0, i as int)), out@),
        decreases records@.len() - i,
    {
        let ghost seen = flat(records@.subrange(0, i as int));
        let ghost before = out@;
        proof {
            lemma_flat_push(records@, i as int);
        }
        match decode_values::<T, R>(repo, &records[i].values) {
            Ok(mut more) => {
                proof {
                    lemma_decoded_all_concat::<T, R>(seen, before, records@[i as int].values@, more@);
                }
                out.append(&mut more);
            },
            Err(e) => {
                proof {
                    let here = records@[i as int].values@;
                    let at = choose|at: int| #[trigger]
                        first_fault::<T, R>(here, at) && e == fault_of(here[at]);
                    lemma_first_fault_concat::<T, R>(seen, before, here, at);
                    lemma_flat_prefix(records@, i + 1);
                    lemma_fault_stays::<T, R>(seen + here, flat(records@), seen.len() + at);
                }
                return Err(e);
            },
        }
        i = i + 1;
    }
    assert(records@.subrange(0, i as int) =~= records@);
    Ok(out)
}

proof fn lemma_flat_prefix(records: Seq<Record>, n: int)
    requires
        0 <= n <= records.len(),
    ensures
        flat(records.subrange(0, n)).len() <= flat(records).len(),
        flat(records.subrange(0, n)) == flat(records).subrange(
            0,
            flat(records.subrange(0, n)).len() as int,
        ),
    decreases records.len() - n,
{
    if n == records.len() {
        assert(records.subrange(0, n) =~= records);
        assert(flat(records).subrange(0, flat(records).len() as int) =~= flat(records));
    } else {
        lemma_flat_prefix(records, n + 1);
        lemma_flat_push(records, n);
        let short = flat(records.subrange(0, n));
        let long = flat(records.subrange(0, n + 1));
        assert(short =~= long.subrange(0, short.len() as int));
        assert(short =~= flat(records).subrange(0, short.len() as int));
    }
}

proof fn lemma_fault_stays<T, R: DbRepository<T>>(
    prefix: Seq<GraphValue>,
    all: Seq<GraphValue>,
    at: int,
)
    requires
        first_fault::<T, R>(prefix, at),
        prefix.len() <= all.len(),
        prefix == all.subrange(0, prefix.len() as int),
    ensures
        first_fault::<T, R>(all, at),
        all[at] == prefix[at],
{
    assert forall|j: int| 0 <= j <= at implies all[j] == prefix[j] by {
        assert(all.subrange(0, prefix.len() as int)[j] == all[j]);
    }
    assert forall|j: int| 0 <= j < at implies acceptable::<T, R>(#[trigger] all[j]) by {
        assert(all[j] == prefix[j]);
    }
}

} // verus!
