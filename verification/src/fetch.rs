//! Origin fetcher: retrieval of the original object's bytes, bounded by a
//! hard size ceiling, with validation of the declared content length.
use vstd::prelude::*;

verus! {

/// Hard ceiling on the number of bytes retrieved from the origin, whatever
/// length the response metadata declares.
pub const FETCH_CAP: usize = 10_000_000;

/// Ways a retrieval can fail; all of them abort the invocation.
#[derive(Clone, Copy, Debug, PartialEq, Eq, Structural)]
pub enum FetchError {
    /// The response carried no content-length metadata.
    MissingLength,
    /// The content-length metadata is not a decimal number that fits.
    InvalidLength,
    /// The source ended before the declared (capped) length was read.
    TruncatedRead,
    /// The network request itself failed.
    Transport,
}

/// Capability port for retrieving the raw bytes behind a locator. The platform
/// adapter implements it over a real HTTP client; tests implement it with
/// scripted fakes. Every implementation is bound to the fetch ceiling.
pub trait GetFile {
    fn get_file(&self, url: String) -> (r: Result<Vec<u8>, FetchError>)
        ensures
            r is Ok ==> r->Ok_0@.len() <= FETCH_CAP as nat,
    ;
}

pub open spec fn spec_is_digit(b: u8) -> bool {
    48 <= b && b <= 57
}

pub open spec fn spec_digit_val(b: u8) -> nat {
    if spec_is_digit(b) {
        (b - 48) as nat
    } else {
        0
    }
}

pub open spec fn spec_all_digits(s: Seq<u8>) -> bool {
    forall|i: int| 0 <= i < s.len() ==> spec_is_digit(#[trigger] s[i])
}

/// The number written in decimal by the digit bytes of `s`.
pub open spec fn spec_dec_value(s: Seq<u8>) -> nat
    decreases s.len(),
{
    if s.len() == 0 {
        0
    } else {
        spec_dec_value(s.drop_last()) * 10 + spec_digit_val(s.last())
    }
}

/// What a content-length header means: a nonempty run of decimal digits whose
/// value fits in `usize`; anything else is unusable.
pub open spec fn spec_parse_len(s: Seq<u8>) -> Option<usize> {
    if s.len() > 0 && spec_all_digits(s) && spec_dec_value(s) <= usize::MAX as nat {
        Some(spec_dec_value(s) as usize)
    } else {
        None
    }
}

proof fn lemma_dec_value_prefix(s: Seq<u8>, i: int)
    requires
        0 <= i <= s.len(),
    ensures
        spec_dec_value(s.take(i)) <= spec_dec_value(s),
    decreases s.len(),
{
    if i < s.len() {
        assert(s.drop_last().take(i) =~= s.take(i));
        lemma_dec_value_prefix(s.drop_last(), i);
    } else {
        assert(s.take(i) =~= s);
    }
}

/// Reads a decimal content-length value, exactly when the bytes are a nonempty
/// digit run whose value fits in `usize`.
pub fn parse_content_length(s: &[u8]) -> (r: Option<usize>)
    ensures
        r == spec_parse_len(s@),
{
    if s.len() == 0 {
        return None;
    }
    let limit: usize = usize::MAX / 10;
    let rem: usize = usize::MAX % 10;
    let mut acc: usize = 0;
    let mut i: usize = 0;
    while i < s.len()
        invariant
            0 <= i <= s@.len(),
            s@.len() > 0,
            spec_all_digits(s@.take(i as int)),
            acc as nat == spec_dec_value(s@.take(i as int)),
            limit == usize::MAX / 10,
            rem == usize::MAX % 10,
        decreases s@.len() - i,
    {
        let b = s[i];
        if b < 48 || b > 57 {
            assert(!spec_is_digit(s@[i as int]));
            return None;
        }
        let d: usize = (b - 48) as usize;
        proof {
            assert(s@.take(i + 1).drop_last() =~= s@.take(i as int));
            assert(s@.take(i + 1).last() == s@[i as int]);
        }
        if acc > limit || (acc == limit && d > rem) {
            proof {
                assert(spec_dec_value(s@.take(i + 1)) == acc as nat * 10 + d as nat);
                assert(acc as nat * 10 + d as nat > usize::MAX as nat);
                lemma_dec_value_prefix(s@, i + 1);
                assert(spec_dec_value(s@) > usize::MAX as nat);
            }
            return None;
        }
        acc = acc * 10 + d;
        i = i + 1;
    }
    proof {
        assert(s@.take(i as int) =~= s@);
    }
    Some(acc)
}

/// The length actually read from a source of `source_len` available bytes:
/// everything, up to the ceiling.
pub open spec fn spec_capped_len(source_len: nat) -> int {
    if source_len <= FETCH_CAP as nat {
        source_len as int
    } else {
        FETCH_CAP as int
    }
}

/// The whole fetch decision. `header` is the content-length metadata as it
/// arrived (absent when the response carried none); `source` is the byte
/// stream the origin can deliver. Missing or unusable metadata is an error; a
/// source that ends before the declared length (capped at the ceiling) is a
/// truncated read; otherwise the result is the source itself, cut at the
/// ceiling.
pub open spec fn spec_fetch(header: Option<Seq<u8>>, source: Seq<u8>) -> Result<
    Seq<u8>,
    FetchError,
> {
    match header {
        None => Err(FetchError::MissingLength),
        Some(h) => match spec_parse_len(h) {
            None => Err(FetchError::InvalidLength),
            Some(declared) => {
                let expected: int = if declared as int <= FETCH_CAP as int {
                    declared as int
                } else {
                    FETCH_CAP as int
                };
                if source.len() < expected {
                    Err(FetchError::TruncatedRead)
                } else {
                    Ok(source.take(spec_capped_len(source.len())))
                }
            },
        },
    }
}

/// The first `n` bytes of `source`, or all of it when it is shorter.
pub fn take_prefix(source: Vec<u8>, n: usize) -> (r: Vec<u8>)
    ensures
        r@ == source@.take(
            if source@.len() <= n as nat {
                source@.len() as int
            } else {
                n as int
            },
        ),
{
    let mut out = source;
    if out.len() > n {
        out.truncate(n);
    }
    proof {
        assert(out@ =~= source@.take(
            if source@.len() <= n as nat {
                source@.len() as int
            } else {
                n as int
            },
        ));
    }
    out
}

/// The verified core of the fetcher: validates the length metadata and
/// returns the source bytes cut at the ceiling, exactly as `spec_fetch` says.
pub fn fetch_body(header: Option<Vec<u8>>, source: Vec<u8>) -> (r: Result<Vec<u8>, FetchError>)
    ensures
        r is Ok <==> spec_fetch(header.deep_view(), source@) is Ok,
        r is Ok ==> r->Ok_0@ == spec_fetch(header.deep_view(), source@)->Ok_0,
        r is Err ==> r->Err_0 == spec_fetch(header.deep_view(), source@)->Err_0,
{
    let h = match header {
        None => {
            return Err(FetchError::MissingLength);
        },
        Some(h) => h,
    };
    proof {
        assert(h.deep_view() =~= h@);
    }
    let declared = match parse_content_length(h.as_slice()) {
        None => {
            return Err(FetchError::InvalidLength);
        },
        Some(v) => v,
    };
    let expected: usize = if declared <= FETCH_CAP {
        declared
    } else {
        FETCH_CAP
    };
    if source.len() < expected {
        return Err(FetchError::TruncatedRead);
    }
    Ok(take_prefix(source, FETCH_CAP))
}

/// Fetch cap law: when the length metadata is usable and the source holds more
/// than the ceiling, the fetch succeeds with exactly the first `FETCH_CAP`
/// bytes, never more.
pub proof fn lemma_fetch_cap(header: Seq<u8>, source: Seq<u8>)
    requires
        spec_parse_len(header) is Some,
        source.len() > FETCH_CAP as nat,
    ensures
        spec_fetch(Some(header), source) is Ok,
        spec_fetch(Some(header), source)->Ok_0 == source.take(FETCH_CAP as int),
        spec_fetch(Some(header), source)->Ok_0.len() == FETCH_CAP as nat,
{
}

/// Fetch fidelity law: when the metadata declares exactly the source's size
/// and that size is within the ceiling, the fetch succeeds with exactly the
/// source's bytes.
pub proof fn lemma_fetch_fidelity(header: Seq<u8>, source: Seq<u8>)
    requires
        spec_parse_len(header) matches Some(declared) && declared as nat == source.len(),
        source.len() <= FETCH_CAP as nat,
    ensures
        spec_fetch(Some(header), source) is Ok,
        spec_fetch(Some(header), source)->Ok_0 == source,
{
    assert(source.take(spec_capped_len(source.len())) =~= source);
}

} // verus!
