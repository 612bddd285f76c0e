//! Metadata resolution: turning what the extractor printed for each queued
//! item into metadata documents, or into the first failure of the batch.

use vstd::prelude::*;

verus! {

#[verifier::external_type_specification]
#[verifier::external_body]
pub struct ExValue(serde_json::Value);

#[verifier::external_type_specification]
#[verifier::external_body]
pub struct ExJsonError(serde_json::Error);

/// Whether `b` is one JSON document, as serde_json reads it.
pub uninterp spec fn json_document(b: Seq<u8>) -> bool;

/// Relies on `serde_json::from_slice` into a `serde_json::Value`: it succeeds
/// exactly on the byte strings that hold one JSON document.
#[verifier::external_body]
fn parse_document(b: &Vec<u8>) -> (r: Result<serde_json::Value, serde_json::Error>)
    ensures
        r is Ok == json_document(b@),
{
    serde_json::from_slice(b)
}

/// Relies on the `Display` text of `serde_json::Error`.
#[verifier::external_body]
fn json_error_text(e: &serde_json::Error) -> String {
    e.to_string()
}

/// What running the extractor on one item gave.
pub enum Extraction {
    /// It ran to the end: whether it exited with success, and what it printed.
    Finished { success: bool, stdout: Vec<u8> },
    /// It could not be started.
    Unlaunched { reason: String },
}

/// Why one item has no metadata.
pub enum ItemFailure {
    /// The extractor could not be started.
    Unlaunched(String),
    /// The extractor exited with a failure status.
    ExitFailure,
    /// The extractor's output is not a JSON document.
    Malformed(String),
}

/// The first item of a batch that has no metadata, by its position.
pub struct ResolveFailure {
    pub index: usize,
    pub failure: ItemFailure,
}

/// The extraction gave usable metadata.
pub open spec fn extraction_ok(x: Extraction) -> bool {
    x matches Extraction::Finished { success, stdout } && success && json_document(stdout@)
}

/// `f` is the failure that the extraction `x` stands for.
pub open spec fn failure_of(x: Extraction, f: ItemFailure) -> bool {
    match x {
        Extraction::Unlaunched { reason } => f matches ItemFailure::Unlaunched(t) && t@ == reason@,
        Extraction::Finished { success, stdout } => if !success {
            f is ExitFailure
        } else {
            !json_document(stdout@) && f is Malformed
        },
    }
}

/// The metadata of one item, or why there is none.
pub fn resolve_item(x: &Extraction) -> (r: Result<serde_json::Value, ItemFailure>)
    ensures
        r is Ok == extraction_ok(*x),
        r matches Err(f) ==> failure_of(*x, f),
{
    match x {
        Extraction::Unlaunched { reason } => Err(ItemFailure::Unlaunched(reason.clone())),
        Extraction::Finished { success, stdout } => {
            if !*success {
                Err(ItemFailure::ExitFailure)
            } else {
                match parse_document(stdout) {
                    Ok(v) => Ok(v),
                    Err(e) => Err(ItemFailure::Malformed(json_error_text(&e))),
                }
            }
        },
    }
}

/// The documents of a batch of per-item results, in order; or, where any
/// item has none, the first such item, since a preview needs all of them.
pub fn collect_results(results: Vec<Result<serde_json::Value, ItemFailure>>) -> (r: Result<Vec<serde_json::Value>, ResolveFailure>)
    ensures
        r is Ok <==> forall|i: int| 0 <= i < results@.len() ==> #[trigger] results@[i] is Ok,
        r matches Ok(v) ==> v@.len() == results@.len()
            && forall|i: int| 0 <= i < v@.len() ==> #[trigger] results@[i] == Ok::<serde_json::Value, ItemFailure>(v@[i]),
        r matches Err(f) ==> {
            &&& f.index < results@.len()
            &&& results@[f.index as int] == Err::<serde_json::Value, ItemFailure>(f.failure)
            &&& forall|j: int| 0 <= j < f.index ==> #[trigger] results@[j] is Ok
        },
{
    let ghost all = results@;
    let mut rest = results;
    let mut docs: Vec<serde_json::Value> = Vec::new();
    let mut i: usize = 0;
    assert(all.len() == rest.len());
    while rest.len() > 0
        invariant
            all == results@,
            all.len() <= usize::MAX,
            i + rest@.len() == all.len(),
            rest@ == all.skip(i as int),
            docs@.len() == i,
            forall|j: int| 0 <= j < i ==> #[trigger] all[j] == Ok::<serde_json::Value, ItemFailure>(docs@[j]),
        decreases rest@.len(),
    {
        assert(all[i as int] == rest@[0]);
        match rest.remove(0) {
            Ok(v) => docs.push(v),
            Err(failure) => {
                assert(all[i as int] == Err::<serde_json::Value, ItemFailure>(failure));
                assert(!(all[i as int] is Ok));
                assert forall|j: int| 0 <= j < i implies #[trigger] all[j] is Ok by {
                    assert(all[j] == Ok::<serde_json::Value, ItemFailure>(docs@[j]));
                }
                return Err(ResolveFailure { index: i, failure });
            },
        }
        assert(rest@ =~= all.skip(i + 1));
        i += 1;
    }
    Ok(docs)
}

/// The metadata of every item of the batch, in order; or, where any item has
/// none, the first such item.
pub fn resolve_batch(batch: &Vec<Extraction>) -> (r: Result<Vec<serde_json::Value>, ResolveFailure>)
    ensures
        r is Ok <==> forall|i: int| 0 <= i < batch@.len() ==> extraction_ok(#[trigger] batch@[i]),
        r matches Ok(v) ==> v@.len() == batch@.len(),
        r matches Err(f) ==> {
            &&& f.index < batch@.len()
            &&& failure_of(batch@[f.index as int], f.failure)
            &&& !extraction_ok(batch@[f.index as int])
            &&& forall|j: int| 0 <= j < f.index ==> extraction_ok(#[trigger] batch@[j])
        },
{
    let mut results: Vec<Result<serde_json::Value, ItemFailure>> = Vec::new();
    let mut i: usize = 0;
    while i < batch.len()
        invariant
            i <= batch@.len(),
            results@.len() == i,
            forall|j: int| 0 <= j < i ==> (#[trigger] results@[j] is Ok) == extraction_ok(batch@[j]),
            forall|j: int| 0 <= j < i ==> (#[trigger] results@[j] matches Err(f) ==> failure_of(batch@[j], f)),
        decreases batch@.len() - i,
    {
        results.push(resolve_item(&batch[i]));
        i += 1;
    }
    let r = collect_results(results);
    proof {
        if r is Err {
            let f = r->Err_0;
            assert(results@[f.index as int] matches Err(g) && g == f.failure);
            assert(!extraction_ok(batch@[f.index as int]));
            assert forall|j: int| 0 <= j < f.index implies extraction_ok(#[trigger] batch@[j]) by {
                assert(results@[j] is Ok);
            }
        } else {
            assert forall|i: int| 0 <= i < batch@.len() implies extraction_ok(#[trigger] batch@[i]) by {
                assert(results@[i] is Ok);
            }
        }
    }
    r
}

} // verus!
