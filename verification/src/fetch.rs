//! Bounded band fetcher: a byte-capped accumulator that a download loop
//! feeds chunk by chunk, the success test on the response status, and the
//! deterministic fallback buffer used when a download fails.
//!
//! The network itself stays outside the library; a driver reads chunks
//! from the response body and offers each to the accumulator until the
//! stream ends or the accumulator declines more.

use vstd::prelude::*;
use crate::errors::OracleError;

verus! {

/// The number of bytes of `chunk_len` that an accumulator holding
/// `held` bytes under `cap` accepts: the whole chunk, or just enough
/// to reach the cap.
pub open spec fn accepted_len(held: int, cap: int, chunk_len: int) -> int
    recommends
        0 <= held <= cap,
        0 <= chunk_len,
{
    if chunk_len <= cap - held {
        chunk_len
    } else {
        cap - held
    }
}

/// Accumulates downloaded bytes up to a hard cap. However long the
/// upstream stream is, the accumulator never holds more than `byte_cap`
/// bytes.
#[derive(Debug)]
pub struct BandAccumulator {
    pub data: Vec<u8>,
    pub byte_cap: usize,
}

impl BandAccumulator {
    /// The cap is respected.
    pub open spec fn wf(&self) -> bool {
        self.data@.len() <= self.byte_cap
    }

    /// An empty accumulator with the given cap.
    pub fn new(byte_cap: usize) -> (r: BandAccumulator)
        ensures
            r.wf(),
            r.data@ == Seq::<u8>::empty(),
            r.byte_cap == byte_cap,
    {
        BandAccumulator { data: Vec::new(), byte_cap }
    }

    /// Appends `chunk` to the accumulated bytes, truncated so that the
    /// cap is never exceeded, and says whether the accumulator accepts
    /// more. The cap binds even against a well-behaved upstream: a chunk
    /// reaching past it is cut at the cap exactly.
    pub fn push_chunk(&mut self, chunk: &[u8]) -> (more: bool)
        requires
            old(self).wf(),
        ensures
            final(self).wf(),
            final(self).byte_cap == old(self).byte_cap,
            final(self).data@ == old(self).data@ + chunk@.subrange(
                0,
                accepted_len(
                    old(self).data@.len() as int,
                    old(self).byte_cap as int,
                    chunk@.len() as int,
                ),
            ),
            more <==> final(self).data@.len() < old(self).byte_cap,
    {
        let ghost accepted = accepted_len(
            old(self).data@.len() as int,
            self.byte_cap as int,
            chunk@.len() as int,
        );
        let mut i: usize = 0;
        while i < chunk.len() && self.data.len() < self.byte_cap
            invariant
                self.byte_cap == old(self).byte_cap,
                0 <= i <= chunk@.len(),
                accepted == accepted_len(
                    old(self).data@.len() as int,
                    old(self).byte_cap as int,
                    chunk@.len() as int,
                ),
                i <= accepted,
                self.data@.len() == old(self).data@.len() + i,
                self.data@.len() <= self.byte_cap,
                self.data@ == old(self).data@ + chunk@.subrange(0, i as int),
            decreases chunk@.len() - i,
        {
            self.data.push(chunk[i]);
            proof {
                assert(self.data@ == old(self).data@ + chunk@.subrange(0, i + 1)) by {
                    assert(chunk@.subrange(0, i + 1) == chunk@.subrange(0, i as int).push(
                        chunk@[i as int],
                    ));
                }
            }
            i = i + 1;
        }
        proof {
            assert(i == accepted);
        }
        self.data.len() < self.byte_cap
    }

    /// Hands the accumulated bytes out.
    pub fn into_data(self) -> (r: Vec<u8>)
        ensures
            r@ == self.data@,
    {
        self.data
    }
}

/// Whether a band download status counts as success: any 2xx status, or
/// 206 Partial Content answering a range request.
pub open spec fn fetch_status_is_success(status: int) -> bool {
    (200 <= status < 300) || status == 206
}

/// Tests a band download's HTTP status: 2xx and 206 succeed, any other
/// status is a `FetchError` carrying it.
pub fn check_fetch_status(status: u16) -> (r: Result<(), OracleError>)
    ensures
        r is Ok <==> fetch_status_is_success(status as int),
        r is Err ==> r == Err::<(), OracleError>(OracleError::FetchError(status)),
{
    if (200 <= status && status < 300) || status == 206 {
        Ok(())
    } else {
        Err(OracleError::FetchError(status))
    }
}

/// Tests the search endpoint's HTTP status: any 2xx succeeds, any other
/// status is a `SearchApiError` carrying it.
pub fn check_search_status(status: u16) -> (r: Result<(), OracleError>)
    ensures
        r is Ok <==> 200 <= status < 300,
        r is Err ==> r == Err::<(), OracleError>(OracleError::SearchApiError(status)),
{
    if 200 <= status && status < 300 {
        Ok(())
    } else {
        Err(OracleError::SearchApiError(status))
    }
}

/// The byte at position `i` of the deterministic fallback pattern.
pub open spec fn sample_byte_spec(i: int) -> u8 {
    (i % 256) as u8
}

/// The deterministic fallback buffer: a non-network byte pattern of
/// exactly `len` bytes, substituted for a band whose download failed.
/// It never fails, whatever the length asked for.
pub fn fallback_buffer(len: usize) -> (r: Vec<u8>)
    ensures
        r@.len() == len,
        forall|i: int| 0 <= i < len ==> r@[i] == sample_byte_spec(i),
{
    let mut data: Vec<u8> = Vec::new();
    let mut i: usize = 0;
    while i < len
        invariant
            0 <= i <= len,
            data@.len() == i,
            forall|j: int| 0 <= j < i ==> data@[j] == sample_byte_spec(j),
        decreases len - i,
    {
        data.push((i % 256) as u8);
        i = i + 1;
    }
    data
}

/// The single documented recovery: a failed band download is substituted
/// with the deterministic fallback buffer when the configuration allows
/// it, and propagated otherwise; a successful download passes through
/// unchanged.
pub fn band_or_fallback<E>(
    fetched: Result<Vec<u8>, E>,
    fallback_on_failure: bool,
    fallback_cap: usize,
) -> (r: Result<Vec<u8>, E>)
    ensures
        fetched is Ok ==> r == fetched,
        fetched is Err && !fallback_on_failure ==> r == fetched,
        fetched is Err && fallback_on_failure ==> (r matches Ok(d) && d@.len() == fallback_cap
            && (forall|i: int| 0 <= i < fallback_cap ==> d@[i] == sample_byte_spec(i))),
{
    match fetched {
        Ok(data) => Ok(data),
        Err(e) => {
            if fallback_on_failure {
                Ok(fallback_buffer(fallback_cap))
            } else {
                Err(e)
            }
        },
    }
}

} // verus!
