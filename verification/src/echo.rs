//! The header of an answer: the request that the vehicle echoes in front of
//! the payload.

use vstd::prelude::*;
use vstd::string::StringExecFns;
use crate::error::{Error, ErrorView};
use crate::shape::{lemma_try_map_err_stays, lemma_try_map_step, rows, try_map};
use crate::text::{byte_list, push_byte_list, starts_with};

verus! {

/// The bytes that lead every answer to a request: the mode, and the PID where
/// the request has one.
pub open spec fn header_of(mode: u8, pid: Option<u8>) -> Seq<u8> {
    match pid {
        Some(pid) => seq![mode, pid],
        None => seq![mode],
    }
}

/// The payload of one answer: what follows the header, where the answer
/// begins with it.
pub open spec fn payload_of(answer: Seq<u8>, header: Seq<u8>) -> Result<Seq<u8>, ErrorView> {
    if starts_with(answer, header) {
        Ok(answer.skip(header.len() as int))
    } else {
        Err(
            ErrorView::Other(
                "response "@ + byte_list(answer) + " does not begin with "@ + byte_list(header),
            ),
        )
    }
}

/// The payloads of all answers, or the error for the first answer that does
/// not begin with the header.
pub open spec fn payloads_of(answers: Seq<Seq<u8>>, header: Seq<u8>) -> Result<
    Seq<Seq<u8>>,
    ErrorView,
> {
    try_map(answers, |a: Seq<u8>| payload_of(a, header))
}

/// Whether `answer` begins with `header`.
fn begins_with(answer: &Vec<u8>, header: &Vec<u8>) -> (b: bool)
    ensures
        b == starts_with(answer@, header@),
{
    if answer.len() < header.len() {
        return false;
    }
    let mut i: usize = 0;
    while i < header.len()
        invariant
            i <= header.len() <= answer.len(),
            forall|j: int| 0 <= j < i ==> answer@[j] == header@[j],
        decreases header.len() - i,
    {
        if answer[i] != header[i] {
            return false;
        }
        i = i + 1;
    }
    assert(answer@.subrange(0, header@.len() as int) =~= header@);
    true
}

/// Checks that one answer begins with `header` and returns what follows it.
pub fn strip_header_of(answer: &Vec<u8>, header: &Vec<u8>) -> (r: Result<Vec<u8>, Error>)
    ensures
        match r {
            Ok(payload) => payload_of(answer@, header@) == Ok::<Seq<u8>, ErrorView>(payload@),
            Err(e) => payload_of(answer@, header@) == Err::<Seq<u8>, ErrorView>(e@),
        },
{
    if begins_with(answer, header) {
        let mut payload: Vec<u8> = Vec::new();
        let mut i: usize = header.len();
        while i < answer.len()
            invariant
                header.len() <= i <= answer.len(),
                payload@ == answer@.subrange(header@.len() as int, i as int),
            decreases answer.len() - i,
        {
            payload.push(answer[i]);
            i = i + 1;
        }
        Ok(payload)
    } else {
        let mut message = String::from_str("response ");
        push_byte_list(&mut message, answer);
        message.append(" does not begin with ");
        push_byte_list(&mut message, header);
        Err(Error::Other(message))
    }
}

/// Checks that every answer begins with `header` and returns the payloads
/// that follow it, in the answers' order.
///
/// Fails with the error of the first answer that does not begin with the
/// header.
pub fn strip_header(answers: &Vec<Vec<u8>>, header: &Vec<u8>) -> (r: Result<Vec<Vec<u8>>, Error>)
    ensures
        match r {
            Ok(payloads) => payloads_of(rows(answers@), header@) == Ok::<Seq<Seq<u8>>, ErrorView>(
                rows(payloads@),
            ),
            Err(e) => payloads_of(rows(answers@), header@) == Err::<Seq<Seq<u8>>, ErrorView>(e@),
        },
{
    let ghost all = rows(answers@);
    let ghost f = |a: Seq<u8>| payload_of(a, header@);
    let mut payloads: Vec<Vec<u8>> = Vec::new();
    let mut i: usize = 0;
    assert(rows(payloads@) == Seq::<Seq<u8>>::empty());
    while i < answers.len()
        invariant
            i <= answers.len(),
            all == rows(answers@),
            f == |a: Seq<u8>| payload_of(a, header@),
            try_map(all.take(i as int), f) == Ok::<Seq<Seq<u8>>, ErrorView>(rows(payloads@)),
        decreases answers.len() - i,
    {
        proof {
            lemma_try_map_step(all, f, i as int);
        }
        match strip_header_of(&answers[i], header) {
            Ok(payload) => {
                let ghost before = payloads@;
                let ghost added = payload@;
                payloads.push(payload);
                assert(rows(payloads@) == rows(before).push(added));
            },
            Err(e) => {
                proof {
                    lemma_try_map_err_stays(all, f, i + 1);
                }
                return Err(e);
            },
        }
        i = i + 1;
    }
    assert(all.take(i as int) == all);
    Ok(payloads)
}

/// Checks that every answer begins with the echo of the request, the mode and
/// the PID where there is one, and returns the payloads that follow it.
pub fn strip_echo(answers: &Vec<Vec<u8>>, mode: u8, pid: Option<u8>) -> (r: Result<
    Vec<Vec<u8>>,
    Error,
>)
    ensures
        match r {
            Ok(payloads) => payloads_of(rows(answers@), header_of(mode, pid)) == Ok::<
                Seq<Seq<u8>>,
                ErrorView,
            >(rows(payloads@)),
            Err(e) => payloads_of(rows(answers@), header_of(mode, pid)) == Err::<
                Seq<Seq<u8>>,
                ErrorView,
            >(e@),
        },
{
    let mut header: Vec<u8> = Vec::new();
    header.push(mode);
    match pid {
        Some(pid) => {
            header.push(pid);
        },
        None => {},
    }
    assert(header@ == header_of(mode, pid));
    strip_header(answers, &header)
}

} // verus!
