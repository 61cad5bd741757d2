//! Fixed shapes for responses: every ECU's payload of one known length, and a
//! known number of ECUs.

use vstd::prelude::*;
use crate::error::{wrong_count, wrong_length, Error, ErrorView};

verus! {

/// The payloads of a list of responses, each as a byte sequence.
pub open spec fn rows(responses: Seq<Vec<u8>>) -> Seq<Seq<u8>> {
    responses.map_values(|r: Vec<u8>| r@)
}

/// The payloads of a list of fixed-length responses, each as a byte sequence.
pub open spec fn array_rows<const L: usize>(responses: Seq<[u8; L]>) -> Seq<Seq<u8>> {
    responses.map_values(|r: [u8; L]| r@)
}

/// All or nothing: `f` applied to each item in order. The whole is the first
/// failure if any item fails, and otherwise the results in the items' order.
pub open spec fn try_map<A, B>(items: Seq<A>, f: spec_fn(A) -> Result<B, ErrorView>) -> Result<
    Seq<B>,
    ErrorView,
>
    decreases items.len(),
{
    if items.len() == 0 {
        Ok(Seq::empty())
    } else {
        match try_map(items.drop_last(), f) {
            Err(e) => Err(e),
            Ok(done) => match f(items.last()) {
                Ok(b) => Ok(done.push(b)),
                Err(e) => Err(e),
            },
        }
    }
}

/// `try_map` succeeds exactly when `f` succeeds on every item, and then holds
/// one result per item, in the items' order.
pub proof fn lemma_try_map_ok<A, B>(items: Seq<A>, f: spec_fn(A) -> Result<B, ErrorView>)
    ensures
        try_map(items, f) is Ok <==> forall|i: int| 0 <= i < items.len() ==> f(#[trigger] items[i]) is Ok,
        try_map(items, f) matches Ok(out) ==> out.len() == items.len() && forall|i: int|
            0 <= i < items.len() ==> f(#[trigger] items[i]) == Ok::<B, ErrorView>(out[i]),
    decreases items.len(),
{
    if items.len() > 0 {
        let front = items.drop_last();
        lemma_try_map_ok(front, f);
        if try_map(items, f) is Ok {
            assert forall|i: int| 0 <= i < items.len() implies f(#[trigger] items[i]) is Ok by {
                if i < front.len() {
                    assert(front[i] == items[i]);
                }
            }
        }
        if let Ok(out) = try_map(items, f) {
            assert forall|i: int| 0 <= i < items.len() implies f(#[trigger] items[i]) == Ok::<
                B,
                ErrorView,
            >(out[i]) by {
                if i < front.len() {
                    assert(front[i] == items[i]);
                }
            }
        }
    }
}

/// When `try_map` fails, its error is that of the first item on which `f`
/// fails.
pub proof fn lemma_try_map_err<A, B>(items: Seq<A>, f: spec_fn(A) -> Result<B, ErrorView>) -> (at:
    int)
    requires
        try_map(items, f) is Err,
    ensures
        0 <= at < items.len(),
        f(items[at]) is Err,
        try_map(items, f)->Err_0 == f(items[at])->Err_0,
        forall|j: int| 0 <= j < at ==> f(#[trigger] items[j]) is Ok,
    decreases items.len(),
{
    let front = items.drop_last();
    if try_map(front, f) is Err {
        let at = lemma_try_map_err(front, f);
        assert forall|j: int| 0 <= j < at implies f(#[trigger] items[j]) is Ok by {
            assert(front[j] == items[j]);
        }
        at
    } else {
        lemma_try_map_ok(front, f);
        assert forall|j: int| 0 <= j < front.len() implies f(#[trigger] items[j]) is Ok by {
            assert(front[j] == items[j]);
        }
        items.len() - 1
    }
}

/// A failure among the first `k` items is the failure of the whole.
pub proof fn lemma_try_map_err_stays<A, B>(
    items: Seq<A>,
    f: spec_fn(A) -> Result<B, ErrorView>,
    k: int,
)
    requires
        0 <= k <= items.len(),
        try_map(items.take(k), f) is Err,
    ensures
        try_map(items, f) == try_map(items.take(k), f),
    decreases items.len() - k,
{
    if k < items.len() {
        assert(items.take(k + 1).drop_last() == items.take(k));
        lemma_try_map_err_stays(items, f, k + 1);
    } else {
        assert(items.take(k) == items);
    }
}

/// One step of `try_map`: the first `k + 1` items, from the first `k`.
pub proof fn lemma_try_map_step<A, B>(
    items: Seq<A>,
    f: spec_fn(A) -> Result<B, ErrorView>,
    k: int,
)
    requires
        0 <= k < items.len(),
    ensures
        try_map(items.take(k + 1), f) == match try_map(items.take(k), f) {
            Err(e) => Err(e),
            Ok(done) => match f(items[k]) {
                Ok(b) => Ok(done.push(b)),
                Err(e) => Err(e),
            },
        },
{
    assert(items.take(k + 1).drop_last() == items.take(k));
}

/// A payload that must be `len` bytes long: itself, or the error that names
/// the length it has.
pub open spec fn sized(payload: Seq<u8>, len: usize) -> Result<Seq<u8>, ErrorView> {
    if payload.len() == len {
        Ok(payload)
    } else {
        Err(wrong_length(len, payload.len() as usize))
    }
}

/// Responses whose payloads must all be `len` bytes long: themselves, or the
/// error for the first payload of another length.
pub open spec fn all_sized(payloads: Seq<Seq<u8>>, len: usize) -> Result<Seq<Seq<u8>>, ErrorView> {
    try_map(payloads, |p: Seq<u8>| sized(p, len))
}

/// Responses of which there must be `count`: themselves, or the error that
/// names how many there are.
pub open spec fn counted(payloads: Seq<Seq<u8>>, count: usize) -> Result<Seq<Seq<u8>>, ErrorView> {
    if payloads.len() == count {
        Ok(payloads)
    } else {
        Err(wrong_count(count, payloads.len() as usize))
    }
}

/// Responses that must be `count` payloads of `len` bytes each. A payload of
/// the wrong length is reported before a wrong number of responses.
pub open spec fn shaped(payloads: Seq<Seq<u8>>, count: usize, len: usize) -> Result<
    Seq<Seq<u8>>,
    ErrorView,
> {
    match all_sized(payloads, len) {
        Err(e) => Err(e),
        Ok(sized) => counted(sized, count),
    }
}

/// Whether `r` is what the length check gives for the payloads: the same
/// payloads as arrays, or the error for the first of another length.
pub open spec fn is_sized_of<const L: usize>(
    payloads: Seq<Seq<u8>>,
    r: Result<Vec<[u8; L]>, Error>,
) -> bool {
    match r {
        Ok(fixed) => all_sized(payloads, L) == Ok::<Seq<Seq<u8>>, ErrorView>(array_rows(fixed@)),
        Err(e) => all_sized(payloads, L) == Err::<Seq<Seq<u8>>, ErrorView>(e@),
    }
}

/// Whether `r` is what the count check gives for the payloads: the same
/// payloads as an array, or the error that names their number.
pub open spec fn is_counted_of<const N: usize, const L: usize>(
    payloads: Seq<Seq<u8>>,
    r: Result<[[u8; L]; N], Error>,
) -> bool {
    match r {
        Ok(fixed) => counted(payloads, N) == Ok::<Seq<Seq<u8>>, ErrorView>(array_rows(fixed@)),
        Err(e) => counted(payloads, N) == Err::<Seq<Seq<u8>>, ErrorView>(e@),
    }
}

/// Whether `r` is what the length check and then the count check give for the
/// payloads.
pub open spec fn is_shaped_of<const N: usize, const L: usize>(
    payloads: Seq<Seq<u8>>,
    r: Result<[[u8; L]; N], Error>,
) -> bool {
    match r {
        Ok(fixed) => shaped(payloads, N, L) == Ok::<Seq<Seq<u8>>, ErrorView>(array_rows(fixed@)),
        Err(e) => shaped(payloads, N, L) == Err::<Seq<Seq<u8>>, ErrorView>(e@),
    }
}

/// The length check passes exactly when every payload is `len` bytes long, and
/// then changes nothing. When it fails, it names the length of the first
/// payload that is not `len` bytes long.
pub proof fn lemma_all_sized(payloads: Seq<Seq<u8>>, len: usize)
    ensures
        all_sized(payloads, len) is Ok <==> forall|i: int|
            0 <= i < payloads.len() ==> (#[trigger] payloads[i]).len() == len,
        all_sized(payloads, len) is Ok ==> all_sized(payloads, len) == Ok::<Seq<Seq<u8>>, ErrorView>(
            payloads,
        ),
        forall|k: int|
            0 <= k < payloads.len() && (#[trigger] payloads[k]).len() != len && (forall|j: int|
                0 <= j < k ==> (#[trigger] payloads[j]).len() == len) ==> all_sized(payloads, len)
                == Err::<Seq<Seq<u8>>, ErrorView>(wrong_length(len, payloads[k].len() as usize)),
{
    let f = |p: Seq<u8>| sized(p, len);
    lemma_try_map_ok(payloads, f);
    if let Ok(out) = all_sized(payloads, len) {
        assert(out =~= payloads);
    }
    assert forall|k: int|
        0 <= k < payloads.len() && (#[trigger] payloads[k]).len() != len && (forall|j: int|
            0 <= j < k ==> (#[trigger] payloads[j]).len() == len) implies all_sized(payloads, len)
        == Err::<Seq<Seq<u8>>, ErrorView>(wrong_length(len, payloads[k].len() as usize)) by {
        lemma_try_map_err(payloads, f);
    }
}

/// Where every payload is `len` bytes long, the shape check passes exactly
/// when there are `count` payloads, and then changes nothing. Otherwise it
/// names the number of payloads that there are.
pub proof fn lemma_shaped(payloads: Seq<Seq<u8>>, count: usize, len: usize)
    requires
        forall|i: int| 0 <= i < payloads.len() ==> (#[trigger] payloads[i]).len() == len,
    ensures
        payloads.len() == count ==> shaped(payloads, count, len) == Ok::<Seq<Seq<u8>>, ErrorView>(
            payloads,
        ),
        payloads.len() != count ==> shaped(payloads, count, len) == Err::<Seq<Seq<u8>>, ErrorView>(
            wrong_count(count, payloads.len() as usize),
        ),
{
    lemma_all_sized(payloads, len);
}

/// A payload of the wrong length is reported whatever the number of
/// payloads is.
pub proof fn lemma_shaped_length_first(payloads: Seq<Seq<u8>>, count: usize, len: usize)
    requires
        all_sized(payloads, len) is Err,
    ensures
        shaped(payloads, count, len) == all_sized(payloads, len),
{
}

/// `payload` as an array, if it is exactly `L` bytes long.
pub(crate) fn to_array<const L: usize>(payload: &Vec<u8>) -> (r: Option<[u8; L]>)
    ensures
        r is Some <==> payload@.len() == L,
        r matches Some(a) ==> a@ == payload@,
{
    if payload.len() != L {
        None
    } else {
        let mut a: [u8; L] = [0u8; L];
        let mut i: usize = 0;
        while i < L
            invariant
                i <= L,
                payload@.len() == L,
                forall|j: int| 0 <= j < i ==> a@[j] == payload@[j],
            decreases L - i,
        {
            a[i] = payload[i];
            i = i + 1;
        }
        Some(a)
    }
}

/// Converts each ECU's payload to an array of `L` bytes.
///
/// Fails on the first payload that is not `L` bytes long, with the length it
/// has.
pub fn responses_with_length<const L: usize>(responses: &Vec<Vec<u8>>) -> (r: Result<
    Vec<[u8; L]>,
    Error,
>)
    ensures
        is_sized_of(rows(responses@), r),
{
    let ghost payloads = rows(responses@);
    let ghost f = |p: Seq<u8>| sized(p, L);
    let mut fixed: Vec<[u8; L]> = Vec::new();
    let mut i: usize = 0;
    assert(array_rows(fixed@) == Seq::<Seq<u8>>::empty());
    while i < responses.len()
        invariant
            i <= responses.len(),
            payloads == rows(responses@),
            f == |p: Seq<u8>| sized(p, L),
            try_map(payloads.take(i as int), f) == Ok::<Seq<Seq<u8>>, ErrorView>(array_rows(fixed@)),
        decreases responses.len() - i,
    {
        proof {
            lemma_try_map_step(payloads, f, i as int);
        }
        match to_array::<L>(&responses[i]) {
            Some(a) => {
                let ghost before = fixed@;
                fixed.push(a);
                assert(array_rows(fixed@) == array_rows(before).push(a@));
            },
            None => {
                proof {
                    lemma_try_map_err_stays(payloads, f, i + 1);
                }
                return Err(Error::IncorrectResponseLength("length", L, responses[i].len()));
            },
        }
        i = i + 1;
    }
    assert(payloads.take(i as int) == payloads);
    Ok(fixed)
}

/// Converts the list of responses to an array of `N` responses.
///
/// Fails when the number of responses is not `N`.
pub fn responses_with_count<const N: usize, const L: usize>(responses: &Vec<[u8; L]>) -> (r: Result<
    [[u8; L]; N],
    Error,
>)
    ensures
        is_counted_of(array_rows(responses@), r),
{
    if responses.len() != N {
        return Err(Error::IncorrectResponseLength("count", N, responses.len()));
    }
    let mut fixed: [[u8; L]; N] = [[0u8; L]; N];
    let mut i: usize = 0;
    while i < N
        invariant
            i <= N,
            responses@.len() == N,
            forall|j: int| 0 <= j < i ==> fixed@[j] == responses@[j],
        decreases N - i,
    {
        fixed[i] = responses[i];
        i = i + 1;
    }
    assert(fixed@ =~= responses@);
    Ok(fixed)
}

/// Converts the responses to an array of `N` payloads of `L` bytes each.
///
/// Fails on the first payload that is not `L` bytes long; failing that, when
/// the number of responses is not `N`.
pub fn responses_with_shape<const N: usize, const L: usize>(responses: &Vec<Vec<u8>>) -> (r: Result<
    [[u8; L]; N],
    Error,
>)
    ensures
        is_shaped_of(rows(responses@), r),
{
    match responses_with_length::<L>(responses) {
        Ok(sized) => responses_with_count::<N, L>(&sized),
        Err(e) => Err(e),
    }
}

} // verus!
