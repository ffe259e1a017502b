//! Lists that are worked through from the front until something is refused.
use crate::error;
use crate::error::{Error, ErrorView};
use crate::json;
use crate::json::{Json, JsonView};
use vstd::prelude::*;

verus! {

/// Applies `f` to every item and its index: all results, or the first refusal.
pub open spec fn collect<A, B>(
    items: Seq<A>,
    f: spec_fn(int, A) -> Result<B, ErrorView>,
) -> Result<Seq<B>, ErrorView>
    decreases items.len(),
{
    if items.len() == 0 {
        Ok(Seq::empty())
    } else {
        match collect(items.drop_last(), f) {
            Err(e) => Err(e),
            Ok(done) => match f(items.len() - 1, items.last()) {
                Err(e) => Err(e),
                Ok(value) => Ok(done.push(value)),
            },
        }
    }
}

/// What the first items give decides what one more gives.
pub proof fn lemma_collect_step<A, B>(
    items: Seq<A>,
    f: spec_fn(int, A) -> Result<B, ErrorView>,
    i: int,
)
    requires
        0 <= i < items.len(),
    ensures
        collect(items.take(i + 1), f) == match collect(items.take(i), f) {
            Err(e) => Err(e),
            Ok(done) => match f(i, items[i]) {
                Err(e) => Err(e),
                Ok(value) => Ok(done.push(value)),
            },
        },
{
    assert(items.take(i + 1).drop_last() =~= items.take(i));
}

/// A refusal among the first items is the refusal of the whole list.
pub proof fn lemma_collect_refused<A, B>(
    items: Seq<A>,
    f: spec_fn(int, A) -> Result<B, ErrorView>,
    i: int,
)
    requires
        0 <= i <= items.len(),
        collect(items.take(i), f) is Err,
    ensures
        collect(items, f) == collect(items.take(i), f),
    decreases items.len() - i,
{
    if i == items.len() {
        assert(items.take(i) =~= items);
    } else {
        lemma_collect_step(items, f, i);
        lemma_collect_refused(items, f, i + 1);
    }
}

/// The length and the members of a list that nothing was refused in.
pub proof fn lemma_collect_ok<A, B>(items: Seq<A>, f: spec_fn(int, A) -> Result<B, ErrorView>)
    ensures
        collect(items, f) matches Ok(out) ==> out.len() == items.len() && forall|i: int|
            0 <= i < items.len() ==> f(i, items[i]) == Ok::<B, ErrorView>(#[trigger] out[i]),
    decreases items.len(),
{
    if items.len() > 0 {
        lemma_collect_ok(items.drop_last(), f);
    }
}

/// An outcome that is a list of documents, by what they say.
pub open spec fn shown_list(result: Result<Vec<Json>, Error>) -> Result<Seq<JsonView>, ErrorView> {
    match result {
        Ok(items) => Ok(json::views(items@)),
        Err(e) => Err(e@),
    }
}

/// Writes every item as a document, up to the first refusal.
pub fn collect_json<A, F: Fn(usize, &A) -> Result<Json, Error>>(
    items: &Vec<A>,
    f: F,
    model: Ghost<spec_fn(int, A) -> Result<JsonView, ErrorView>>,
) -> (result: Result<Vec<Json>, Error>)
    requires
        forall|i: usize, a: &A| 0 <= i < items@.len() && items@[i as int] == *a ==> #[trigger] call_requires(f, (i, a)),
        forall|i: usize, a: &A, out: Result<Json, Error>| #[trigger]
            call_ensures(f, (i, a), out) ==> error::shown(out) == model@(i as int, *a),
    ensures
        shown_list(result) == collect(items@, model@),
{
    let mut done: Vec<Json> = Vec::new();
    let mut i: usize = 0;
    assert(json::views(done@) =~= Seq::<JsonView>::empty());
    while i < items.len()
        invariant
            i <= items@.len(),
            forall|i: usize, a: &A| 0 <= i < items@.len() && items@[i as int] == *a ==> #[trigger] call_requires(f, (i, a)),
            forall|i: usize, a: &A, out: Result<Json, Error>| #[trigger]
                call_ensures(f, (i, a), out) ==> error::shown(out) == model@(i as int, *a),
            collect(items@.take(i as int), model@) == Ok::<Seq<JsonView>, ErrorView>(
                json::views(done@),
            ),
        decreases items@.len() - i,
    {
        proof {
            lemma_collect_step(items@, model@, i as int);
        }
        let ghost before = json::views(done@);
        match f(i, &items[i]) {
            Ok(value) => {
                done.push(value);
                assert(json::views(done@) =~= before.push(value@));
            },
            Err(e) => {
                proof {
                    lemma_collect_refused(items@, model@, i + 1);
                }
                return Err(e);
            },
        }
        i += 1;
    }
    assert(items@.take(items@.len() as int) =~= items@);
    Ok(done)
}

/// Applies `f` to every item and its index and joins the lists that it gives,
/// up to the first refusal.
pub open spec fn gather<A, B>(
    items: Seq<A>,
    f: spec_fn(int, A) -> Result<Seq<B>, ErrorView>,
) -> Result<Seq<B>, ErrorView>
    decreases items.len(),
{
    if items.len() == 0 {
        Ok(Seq::empty())
    } else {
        match gather(items.drop_last(), f) {
            Err(e) => Err(e),
            Ok(done) => match f(items.len() - 1, items.last()) {
                Err(e) => Err(e),
                Ok(more) => Ok(done + more),
            },
        }
    }
}

/// What the first items give decides what one more gives.
pub proof fn lemma_gather_step<A, B>(
    items: Seq<A>,
    f: spec_fn(int, A) -> Result<Seq<B>, ErrorView>,
    i: int,
)
    requires
        0 <= i < items.len(),
    ensures
        gather(items.take(i + 1), f) == match gather(items.take(i), f) {
            Err(e) => Err(e),
            Ok(done) => match f(i, items[i]) {
                Err(e) => Err(e),
                Ok(more) => Ok(done + more),
            },
        },
{
    assert(items.take(i + 1).drop_last() =~= items.take(i));
}

/// A refusal among the first items is the refusal of the whole list.
pub proof fn lemma_gather_refused<A, B>(
    items: Seq<A>,
    f: spec_fn(int, A) -> Result<Seq<B>, ErrorView>,
    i: int,
)
    requires
        0 <= i <= items.len(),
        gather(items.take(i), f) is Err,
    ensures
        gather(items, f) == gather(items.take(i), f),
    decreases items.len() - i,
{
    if i == items.len() {
        assert(items.take(i) =~= items);
    } else {
        lemma_gather_step(items, f, i);
        lemma_gather_refused(items, f, i + 1);
    }
}

/// Writes every item as documents and joins them, up to the first refusal.
pub fn gather_json<A, F: Fn(usize, &A) -> Result<Vec<Json>, Error>>(
    items: &Vec<A>,
    f: F,
    model: Ghost<spec_fn(int, A) -> Result<Seq<JsonView>, ErrorView>>,
) -> (result: Result<Vec<Json>, Error>)
    requires
        forall|i: usize, a: &A|
            0 <= i < items@.len() && items@[i as int] == *a ==> #[trigger] call_requires(f, (i, a)),
        forall|i: usize, a: &A, out: Result<Vec<Json>, Error>| #[trigger]
            call_ensures(f, (i, a), out) ==> shown_list(out) == model@(i as int, *a),
    ensures
        shown_list(result) == gather(items@, model@),
{
    let mut done: Vec<Json> = Vec::new();
    let mut i: usize = 0;
    assert(json::views(done@) =~= Seq::<JsonView>::empty());
    while i < items.len()
        invariant
            i <= items@.len(),
            forall|i: usize, a: &A|
                0 <= i < items@.len() && items@[i as int] == *a ==> #[trigger] call_requires(
                    f,
                    (i, a),
                ),
            forall|i: usize, a: &A, out: Result<Vec<Json>, Error>| #[trigger]
                call_ensures(f, (i, a), out) ==> shown_list(out) == model@(i as int, *a),
            gather(items@.take(i as int), model@) == Ok::<Seq<JsonView>, ErrorView>(
                json::views(done@),
            ),
        decreases items@.len() - i,
    {
        proof {
            lemma_gather_step(items@, model@, i as int);
        }
        let ghost before = json::views(done@);
        match f(i, &items[i]) {
            Ok(more) => {
                let ghost added = json::views(more@);
                let mut more = more;
                done.append(&mut more);
                assert(json::views(done@) =~= before + added);
            },
            Err(e) => {
                proof {
                    lemma_gather_refused(items@, model@, i + 1);
                }
                return Err(e);
            },
        }
        i += 1;
    }
    assert(items@.take(items@.len() as int) =~= items@);
    Ok(done)
}

} // verus!
