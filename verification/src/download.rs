//! The bounded download: only HTTP 200 is accepted, and the body is
//! accumulated chunk by chunk under a hard size cap, aborting mid-stream the
//! moment the cumulative size would pass it.
use vstd::prelude::*;

verus! {

use crate::DOWNLOAD_SIZE_LIMIT;
use crate::model::NetworkError;
use crate::codec::dec_chars;

/// The reason text reported for a rejected HTTP status: the status's
/// canonical reason where the transport knows one.
pub open spec fn download_error_desc(reason: Option<Seq<char>>) -> Seq<char> {
    match reason {
        Some(r) => r,
        None => "Unknown HTTP error"@,
    }
}

pub open spec fn opt_str_view(o: Option<&str>) -> Option<Seq<char>> {
    match o {
        Some(s) => Some(s@),
        None => None,
    }
}

/// Accepts exactly status 200; any other status is a download failure
/// carrying the canonical reason, or a generic text where none is known.
pub fn status_check(code: u16, canonical_reason: Option<&str>) -> (r: Result<(), NetworkError>)
    ensures
        code == 200 <==> r is Ok,
        code != 200 ==> (r matches Err(e) && e matches NetworkError::DownloadError(m) && m@
            == download_error_desc(opt_str_view(canonical_reason))),
{
    if code == 200 {
        Ok(())
    } else {
        match canonical_reason {
            Some(reason) => Err(NetworkError::DownloadError(reason.to_owned())),
            None => Err(NetworkError::DownloadError("Unknown HTTP error".to_owned())),
        }
    }
}

/// A body being accumulated under the download size cap.
pub struct BoundedFetch {
    data: Vec<u8>,
}

impl View for BoundedFetch {
    type V = Seq<u8>;

    closed spec fn view(&self) -> Seq<u8> {
        self.data@
    }
}

impl BoundedFetch {
    /// The accumulated body never passes the cap.
    pub open spec fn wf(&self) -> bool {
        self@.len() <= DOWNLOAD_SIZE_LIMIT
    }

    pub fn new() -> (r: Self)
        ensures
            r@ == Seq::<u8>::empty(),
            r.wf(),
    {
        let r = BoundedFetch { data: Vec::new() };
        proof {
            assert(r@ =~= Seq::<u8>::empty());
        }
        r
    }

    pub fn len(&self) -> (n: usize)
        ensures
            n == self@.len(),
    {
        self.data.len()
    }

    /// Appends one received chunk, unless that would take the body past the
    /// cap: then nothing is appended and the failure carries the cumulative
    /// byte count at the abort.
    pub fn push_chunk(&mut self, chunk: &[u8]) -> (r: Result<(), NetworkError>)
        requires
            old(self).wf(),
            old(self)@.len() + chunk@.len() <= usize::MAX,
        ensures
            final(self).wf(),
            old(self)@.len() + chunk@.len() <= DOWNLOAD_SIZE_LIMIT ==> r is Ok && final(self)@
                == old(self)@ + chunk@,
            old(self)@.len() + chunk@.len() > DOWNLOAD_SIZE_LIMIT ==> final(self)@ == old(self)@,
            old(self)@.len() + chunk@.len() > DOWNLOAD_SIZE_LIMIT ==> (r matches Err(e)
                && e matches NetworkError::DownloadSizeLimitReached(n) && n == old(self)@.len()
                + chunk@.len()),
    {
        if chunk.len() > DOWNLOAD_SIZE_LIMIT - self.data.len() {
            Err(NetworkError::DownloadSizeLimitReached(self.data.len() + chunk.len()))
        } else {
            self.data.extend_from_slice(chunk);
            proof {
                assert(self@ =~= old(self)@ + chunk@);
            }
            Ok(())
        }
    }

    /// Hands the accumulated body out.
    pub fn into_body(self) -> (r: Vec<u8>)
        ensures
            r@ == self@,
    {
        self.data
    }
}

/// The cumulative size of a sequence of body chunks.
pub open spec fn total_len(chunks: Seq<Seq<u8>>) -> nat
    decreases chunks.len(),
{
    if chunks.len() == 0 {
        0
    } else {
        chunks[0].len() + total_len(chunks.skip(1))
    }
}

/// What accumulating `chunks` onto `acc` under the cap yields: the full body,
/// or the cumulative byte count at the abort.
pub open spec fn accumulate_chunks(acc: Seq<u8>, chunks: Seq<Seq<u8>>) -> Result<Seq<u8>, nat>
    decreases chunks.len(),
{
    if chunks.len() == 0 {
        Ok(acc)
    } else if acc.len() + chunks[0].len() > DOWNLOAD_SIZE_LIMIT {
        Err((acc.len() + chunks[0].len()) as nat)
    } else {
        accumulate_chunks(acc + chunks[0], chunks.skip(1))
    }
}

/// What a whole fetch yields: the body on status 200 within the cap, else
/// the failure description.
pub open spec fn fetch_model(status: u16, reason: Option<Seq<char>>, chunks: Seq<Seq<u8>>) -> Result<
    Seq<u8>,
    Seq<char>,
> {
    if status != 200 {
        Err("DownloadError: "@ + download_error_desc(reason))
    } else {
        match accumulate_chunks(Seq::empty(), chunks) {
            Ok(body) => Ok(body),
            Err(n) => Err("DownloadSizeLimitReached: "@ + dec_chars(n)),
        }
    }
}

/// Whether an executed fetch outcome matches the model: same body, or a
/// failure with the modelled description.
pub open spec fn fetch_matches(r: Result<Vec<u8>, NetworkError>, m: Result<Seq<u8>, Seq<char>>) -> bool {
    match r {
        Ok(v) => m matches Ok(s) && v@ == s,
        Err(e) => m matches Err(d) && e.describe_spec() == d,
    }
}

/// Runs a whole fetch over the chunks the transport delivered, enforcing the
/// status rule and the size cap exactly as the model says.
pub fn run_fetch(status: u16, canonical_reason: Option<&str>, chunks: &Vec<Vec<u8>>) -> (r: Result<
    Vec<u8>,
    NetworkError,
>)
    requires
        forall|i: int|
            0 <= i < chunks@.len() ==> #[trigger] chunks@[i]@.len() <= usize::MAX
                - DOWNLOAD_SIZE_LIMIT,
    ensures
        fetch_matches(
            r,
            fetch_model(
                status,
                opt_str_view(canonical_reason),
                Seq::new(chunks@.len(), |i: int| chunks@[i]@),
            ),
        ),
{
    let ghost model_chunks = Seq::new(chunks@.len(), |i: int| chunks@[i]@);
    match status_check(status, canonical_reason) {
        Err(e) => Err(e),
        Ok(()) => {
            let mut fetch = BoundedFetch::new();
            let mut i: usize = 0;
            proof {
                assert(model_chunks.skip(0) =~= model_chunks);
            }
            while i < chunks.len()
                invariant
                    0 <= i <= chunks@.len(),
                    status == 200,
                    fetch.wf(),
                    model_chunks == Seq::new(chunks@.len(), |j: int| chunks@[j]@),
                    forall|j: int|
                        0 <= j < chunks@.len() ==> #[trigger] chunks@[j]@.len() <= usize::MAX
                            - DOWNLOAD_SIZE_LIMIT,
                    accumulate_chunks(Seq::empty(), model_chunks) == accumulate_chunks(
                        fetch@,
                        model_chunks.skip(i as int),
                    ),
                decreases chunks@.len() - i,
            {
                let chunk: &Vec<u8> = &chunks[i];
                proof {
                    assert(model_chunks.skip(i as int)[0] == chunks@[i as int]@);
                    assert(model_chunks.skip(i as int).skip(1) =~= model_chunks.skip(i + 1));
                }
                let ghost pre = fetch@;
                match fetch.push_chunk(chunk.as_slice()) {
                    Ok(()) => {},
                    Err(e) => {
                        proof {
                            assert(accumulate_chunks(pre, model_chunks.skip(i as int))
                                matches Err(n) && n == pre.len() + chunk@.len());
                        }
                        return Err(e);
                    },
                }
                i = i + 1;
            }
            proof {
                assert(model_chunks.skip(chunks@.len() as int) =~= Seq::<Seq<u8>>::empty());
            }
            Ok(fetch.into_body())
        },
    }
}

/// A fetch whose chunks cumulatively pass the cap never yields a body: the
/// accumulation aborts at some point where the cumulative count has passed
/// the cap, and that count is what the failure reports.
pub proof fn lemma_accumulate_aborts_over_limit(acc: Seq<u8>, chunks: Seq<Seq<u8>>)
    requires
        acc.len() <= DOWNLOAD_SIZE_LIMIT,
        acc.len() + total_len(chunks) > DOWNLOAD_SIZE_LIMIT,
    ensures
        accumulate_chunks(acc, chunks) matches Err(n) && n > DOWNLOAD_SIZE_LIMIT,
    decreases chunks.len(),
{
    if chunks.len() == 0 {
        assert(false);
    } else if acc.len() + chunks[0].len() > DOWNLOAD_SIZE_LIMIT {
    } else {
        lemma_accumulate_aborts_over_limit(acc + chunks[0], chunks.skip(1));
    }
}

/// A fetch whose chunks stay within the cap yields exactly their
/// concatenation as the body.
pub proof fn lemma_accumulate_within_limit(acc: Seq<u8>, chunks: Seq<Seq<u8>>)
    requires
        acc.len() + total_len(chunks) <= DOWNLOAD_SIZE_LIMIT,
    ensures
        accumulate_chunks(acc, chunks) == Ok::<Seq<u8>, nat>(acc + chunks.flatten()),
    decreases chunks.len(),
{
    if chunks.len() == 0 {
        assert(chunks.flatten() =~= Seq::<u8>::empty());
        assert(acc + chunks.flatten() =~= acc);
    } else {
        lemma_accumulate_within_limit(acc + chunks[0], chunks.skip(1));
        assert(chunks.skip(1) =~= chunks.drop_first());
        assert(chunks.flatten() == chunks[0] + chunks.drop_first().flatten());
        assert(acc + chunks[0] + chunks.drop_first().flatten() =~= acc + chunks.flatten());
    }
}

} // verus!
