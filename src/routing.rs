use vstd::prelude::*;
use crate::error::SiteError;
use crate::text::joined;

verus! {

/// How a call to the routing cache failed, as the cache reports it.
#[derive(PartialEq, Eq, Structural, Clone, Copy, Debug)]
pub enum CacheFailure {
    /// The version tag given with a conditional write no longer matched.
    VersionMismatch,
    /// The cache could not be reached or refused the call for another reason.
    Unavailable,
}

/// A change to the routing cache, before its version tag is known.
pub enum CacheMutation {
    Put { key: String, value: String },
    Remove { key: String },
}

/// A conditional call to the routing cache, with the version tag it is bound to.
pub enum CacheCall {
    Put { key: String, value: String, if_match: String },
    Remove { key: String, if_match: String },
}

/// The call that a mutation becomes once the version tag has been read.
pub open spec fn bound_call(m: CacheMutation, tag: Seq<char>, c: CacheCall) -> bool {
    match (m, c) {
        (CacheMutation::Put { key, value }, CacheCall::Put { key: k, value: v, if_match }) => k@
            == key@ && v@ == value@ && if_match@ == tag,
        (CacheMutation::Remove { key }, CacheCall::Remove { key: k, if_match }) => k@ == key@
            && if_match@ == tag,
        _ => false,
    }
}

/// The error that a failed cache call surfaces as.
pub open spec fn cache_error(f: CacheFailure) -> SiteError {
    match f {
        CacheFailure::VersionMismatch => SiteError::ConcurrentModification,
        CacheFailure::Unavailable => SiteError::Transport,
    }
}

/// Second step of a cache mutation: with the version tag read from the cache, the
/// conditional call to make; without it, a transport error and no call.
pub fn conditional_call(m: CacheMutation, tag: Result<String, CacheFailure>) -> (r: Result<
    CacheCall,
    SiteError,
>)
    ensures
        tag is Err ==> r == Err::<CacheCall, SiteError>(SiteError::Transport),
        tag matches Ok(t) ==> (r matches Ok(c) && bound_call(m, t@, c)),
{
    let t = match tag {
        Ok(t) => t,
        Err(_) => return Err(SiteError::Transport),
    };
    match m {
        CacheMutation::Put { key, value } => Ok(CacheCall::Put { key, value, if_match: t }),
        CacheMutation::Remove { key } => Ok(CacheCall::Remove { key, if_match: t }),
    }
}

/// Last step of a cache mutation: what the conditional call's result means to the caller.
/// Nothing is retried.
pub fn mutation_outcome(r: Result<(), CacheFailure>) -> (o: Result<(), SiteError>)
    ensures
        r is Ok ==> o is Ok,
        r matches Err(f) ==> o == Err::<(), SiteError>(cache_error(f)),
{
    match r {
        Ok(()) => Ok(()),
        Err(CacheFailure::VersionMismatch) => Err(SiteError::ConcurrentModification),
        Err(CacheFailure::Unavailable) => Err(SiteError::Transport),
    }
}

/// The character of a decimal digit.
pub open spec fn digit_char(d: nat) -> char {
    seq!['0', '1', '2', '3', '4', '5', '6', '7', '8', '9'][d as int]
}

/// The decimal digits of a natural number, most significant first.
pub open spec fn decimal_nat(n: nat) -> Seq<char>
    decreases n,
{
    if n < 10 {
        seq![digit_char(n)]
    } else {
        decimal_nat(n / 10).push(digit_char(n % 10))
    }
}

/// The decimal form of an integer, with a leading `-` when it is negative.
pub open spec fn decimal(n: int) -> Seq<char> {
    if n < 0 {
        seq!['-'] + decimal_nat((-n) as nat)
    } else {
        decimal_nat(n as nat)
    }
}

fn digit_text(d: u64) -> (r: &'static str)
    requires
        d < 10,
    ensures
        r@ == seq![digit_char(d as nat)],
{
    proof {
        reveal_strlit("0");
        reveal_strlit("1");
        reveal_strlit("2");
        reveal_strlit("3");
        reveal_strlit("4");
        reveal_strlit("5");
        reveal_strlit("6");
        reveal_strlit("7");
        reveal_strlit("8");
        reveal_strlit("9");
    }
    let r = if d == 0 {
        "0"
    } else if d == 1 {
        "1"
    } else if d == 2 {
        "2"
    } else if d == 3 {
        "3"
    } else if d == 4 {
        "4"
    } else if d == 5 {
        "5"
    } else if d == 6 {
        "6"
    } else if d == 7 {
        "7"
    } else if d == 8 {
        "8"
    } else {
        "9"
    };
    assert(r@ =~= seq![digit_char(d as nat)]);
    r
}

fn append_decimal(s: &mut String, n: u64)
    ensures
        final(s)@ == old(s)@ + decimal_nat(n as nat),
    decreases n,
{
    if n >= 10 {
        append_decimal(s, n / 10);
    }
    s.append(digit_text(n % 10));
    proof {
        if n >= 10 {
            assert(final(s)@ =~= old(s)@ + decimal_nat(n as nat));
        } else {
            assert(final(s)@ =~= old(s)@ + decimal_nat(n as nat));
        }
    }
}

/// The decimal form of `n`.
pub fn decimal_text(n: i64) -> (r: String)
    ensures
        r@ == decimal(n as int),
{
    proof {
        reveal_strlit("-");
    }
    let mut s = String::new();
    if n < 0 {
        s.append("-");
        let m: u64 = if n == i64::MIN {
            9223372036854775808u64
        } else {
            (-n) as u64
        };
        append_decimal(&mut s, m);
        assert(s@ =~= decimal(n as int));
    } else {
        append_decimal(&mut s, n as u64);
        assert(s@ =~= decimal(n as int));
    }
    s
}

/// The routing token of a site: its id, the separator `=x=`, and a cache-busting stamp.
pub open spec fn routing_token(site_id: Seq<char>, stamp: int) -> Seq<char> {
    site_id + seq!['=', 'x', '='] + decimal(stamp)
}

/// The value that the routing cache holds for a site's host.
pub fn routing_value(site_id: &str, stamp: i64) -> (r: String)
    ensures
        r@ == routing_token(site_id@, stamp as int),
{
    proof {
        reveal_strlit("=x=");
    }
    let mut r = joined(site_id, "=x=");
    let d = decimal_text(stamp);
    r.append(d.as_str());
    assert(r@ =~= routing_token(site_id@, stamp as int));
    r
}

} // verus!
