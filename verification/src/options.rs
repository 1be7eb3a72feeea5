//! Parsing and validation of the port-forward option.
//!
//! The option has the shape `remote-id:local-port:remote-port[:remote-host]`.
//! Validation succeeds exactly when the option has at least three
//! colon-separated fields and both port fields are decimal numbers in
//! `1 ..= 65535`; anything else is `InvalidOptions`, and no session is ever
//! created from a rejected option.  The parser works on bytes, so any byte
//! sequence can be handled; the colon byte never occurs inside a multi-byte
//! UTF-8 character, so splitting on it agrees with splitting the string it
//! came from.

use vstd::prelude::*;
use vstd::slice::{slice_subrange, slice_to_vec};
use vstd::string::StringSliceAdditionalSpecFns;
use crate::errors::ErrorReason;

verus! {

/// The byte that separates the fields of the option: `:`.
pub const FIELD_SEP: u8 = 58;

/// The greatest value a port field may hold.
pub const PORT_MAX: u16 = 65535;

/// An ASCII decimal digit.
pub open spec fn is_digit(b: u8) -> bool {
    48 <= b <= 57
}

/// Every byte of `s` is an ASCII decimal digit.
pub open spec fn all_digits(s: Seq<u8>) -> bool {
    forall|i: int| 0 <= i < s.len() ==> is_digit(#[trigger] s[i])
}

/// The value of `s` read as a decimal numeral (most significant digit first).
pub open spec fn dec_value(s: Seq<u8>) -> int
    decreases s.len(),
{
    if s.len() == 0 {
        0
    } else {
        dec_value(s.drop_last()) * 10 + (s.last() - 48)
    }
}

/// A field denotes a port: a nonempty digit string whose value lies in
/// `1 ..= 65535`.
pub open spec fn valid_port(s: Seq<u8>) -> bool {
    s.len() > 0 && all_digits(s) && 1 <= dec_value(s) <= PORT_MAX
}

/// A digit string never has a negative value.
proof fn lemma_dec_value_nonneg(s: Seq<u8>)
    requires
        all_digits(s),
    ensures
        dec_value(s) >= 0,
    decreases s.len(),
{
    if s.len() > 0 {
        assert(all_digits(s.drop_last()));
        lemma_dec_value_nonneg(s.drop_last());
    }
}

/// Extending a digit string to the right never shrinks its value.
proof fn lemma_dec_value_grows(s: Seq<u8>, k: int)
    requires
        all_digits(s),
        0 <= k <= s.len(),
    ensures
        dec_value(s) >= dec_value(s.take(k)),
    decreases s.len() - k,
{
    if k < s.len() {
        assert(s.take(k + 1).drop_last() =~= s.take(k));
        assert(s.take(k + 1).last() == s[k]);
        assert(all_digits(s.take(k)));
        lemma_dec_value_nonneg(s.take(k));
        assert(dec_value(s.take(k + 1)) >= dec_value(s.take(k)));
        lemma_dec_value_grows(s, k + 1);
        assert(s.take(s.len() as int) =~= s);
    } else {
        assert(s.take(k) =~= s);
    }
}

/// Reads a port field.  Returns the port exactly when the field is a
/// decimal numeral for a value in `1 ..= 65535`.
pub fn parse_port(field: &[u8]) -> (r: Option<u16>)
    ensures
        r is Some <==> valid_port(field@),
        r is Some ==> r->0 == dec_value(field@),
{
    let n = field.len();
    let mut acc: u32 = 0;
    let mut i: usize = 0;
    while i < n
        invariant
            n == field@.len(),
            0 <= i <= n,
            all_digits(field@.take(i as int)),
            acc == dec_value(field@.take(i as int)),
            acc <= PORT_MAX,
        decreases n - i,
    {
        let b = field[i];
        if b < 48 || b > 57 {
            assert(!all_digits(field@)) by {
                assert(!is_digit(field@[i as int]));
            }
            return None;
        }
        let next: u32 = acc * 10 + (b - 48) as u32;
        proof {
            assert(field@.take(i + 1).drop_last() =~= field@.take(i as int));
            assert(field@.take(i + 1).last() == field@[i as int]);
        }
        if next > PORT_MAX as u32 {
            proof {
                if all_digits(field@) {
                    lemma_dec_value_grows(field@, i + 1);
                    assert(field@.take(field@.len() as int) =~= field@);
                }
            }
            return None;
        }
        acc = next;
        i = i + 1;
    }
    proof {
        assert(field@.take(n as int) =~= field@);
    }
    if acc == 0 {
        None
    } else {
        Some(acc as u16)
    }
}

/// The index of the first field separator in `s`, or `s.len()` if there is
/// none.
pub open spec fn first_sep(s: Seq<u8>) -> nat
    decreases s.len(),
{
    if s.len() == 0 {
        0
    } else if s[0] == FIELD_SEP {
        0
    } else {
        1 + first_sep(s.skip(1))
    }
}

/// `first_sep` is the only index with that character: no separator before
/// `k`, and a separator at `k` or `k == s.len()`, pin it down.
proof fn lemma_first_sep_is(s: Seq<u8>, k: int)
    requires
        0 <= k <= s.len(),
        forall|j: int| 0 <= j < k ==> #[trigger] s[j] != FIELD_SEP,
        k < s.len() ==> s[k] == FIELD_SEP,
    ensures
        first_sep(s) == k,
    decreases s.len(),
{
    if s.len() == 0 {
    } else if s[0] == FIELD_SEP {
        assert(k == 0);
    } else {
        assert(k >= 1);
        assert forall|j: int| 0 <= j < k - 1 implies #[trigger] s.skip(1)[j] != FIELD_SEP by {
            assert(s.skip(1)[j] == s[j + 1]);
        }
        assert(k - 1 < s.skip(1).len() ==> s.skip(1)[k - 1] == s[k]);
        lemma_first_sep_is(s.skip(1), k - 1);
    }
}

/// The fields of `s`: the segments between the separators, in order.  A
/// sequence with no separator is one field; each separator ends a field,
/// so trailing separators yield a final empty field.
pub open spec fn split_fields(s: Seq<u8>) -> Seq<Seq<u8>>
    decreases s.len(),
{
    let k = first_sep(s) as int;
    if k < s.len() {
        seq![s.take(k)] + split_fields(s.skip(k + 1))
    } else {
        seq![s]
    }
}

/// The views of a vector of byte vectors.
pub open spec fn views_of(parts: Seq<Vec<u8>>) -> Seq<Seq<u8>> {
    parts.map_values(|p: Vec<u8>| p@)
}

/// Splits `s` at every separator byte.  The result is exactly
/// `split_fields(s@)`.
pub fn split_fields_exec(s: &[u8]) -> (parts: Vec<Vec<u8>>)
    ensures
        views_of(parts@) == split_fields(s@),
{
    let n = s.len();
    let mut parts: Vec<Vec<u8>> = Vec::new();
    let mut start: usize = 0;
    let mut i: usize = 0;
    proof {
        assert(s@.skip(0) =~= s@);
        assert(views_of(parts@) =~= Seq::<Seq<u8>>::empty());
    }
    while i < n
        invariant
            n == s@.len(),
            0 <= start <= i <= n,
            forall|j: int| start <= j < i ==> #[trigger] s@[j] != FIELD_SEP,
            split_fields(s@) =~= views_of(parts@) + split_fields(s@.skip(start as int)),
        decreases n - i,
    {
        if s[i] == FIELD_SEP {
            let field = slice_subrange(s, start, i);
            let owned = slice_to_vec(field);
            proof {
                let rest = s@.skip(start as int);
                assert forall|j: int| 0 <= j < i - start implies #[trigger] rest[j] != FIELD_SEP by {
                    assert(rest[j] == s@[start + j]);
                }
                assert(rest[i - start] == s@[i as int]);
                lemma_first_sep_is(rest, i - start);
                assert(rest.take(i - start) =~= s@.subrange(start as int, i as int));
                assert(rest.skip(i - start + 1) =~= s@.skip(i + 1));
                assert(split_fields(rest) == seq![s@.subrange(start as int, i as int)]
                    + split_fields(s@.skip(i + 1)));
                assert(views_of(parts@.push(owned)) =~= views_of(parts@).push(owned@));
            }
            parts.push(owned);
            start = i + 1;
        }
        i = i + 1;
    }
    let last_field = slice_subrange(s, start, n);
    let owned = slice_to_vec(last_field);
    proof {
        let rest = s@.skip(start as int);
        assert forall|j: int| 0 <= j < rest.len() implies #[trigger] rest[j] != FIELD_SEP by {
            assert(rest[j] == s@[start + j]);
        }
        lemma_first_sep_is(rest, rest.len() as int);
        assert(rest =~= s@.subrange(start as int, n as int));
        assert(split_fields(rest) == seq![rest]);
        assert(views_of(parts@.push(owned)) =~= views_of(parts@).push(owned@));
    }
    parts.push(owned);
    proof {
        assert(views_of(parts@) =~= split_fields(s@));
    }
    parts
}

/// The bytes of the default remote host, `localhost`.
pub open spec fn default_host() -> Seq<u8> {
    "localhost".spec_bytes()
}

/// The default remote host as owned bytes.
pub fn default_host_bytes() -> (r: Vec<u8>)
    ensures
        r@ == default_host(),
{
    let s: &[u8] = "localhost".as_bytes();
    slice_to_vec(s)
}

/// A validated port-forward request: which peer to reach, which local port
/// to listen on, and which host and port to forward to on the far side.
/// Immutable once built.
#[derive(Clone, Debug, PartialEq, Eq)]
pub struct PortForwardSpec {
    /// The opaque identifier the target peer registered with the
    /// rendezvous service.
    pub peer_id: Vec<u8>,
    /// The local port to listen on.
    pub local_port: u16,
    /// The port to connect to on the remote side.
    pub remote_port: u16,
    /// The host the remote peer connects to; `localhost` when the option
    /// does not name one.
    pub remote_host: Vec<u8>,
}

impl PortForwardSpec {
    /// A well-formed request: both ports are nonzero.
    pub open spec fn wf(self) -> bool {
        self.local_port >= 1 && self.remote_port >= 1
    }
}

/// The option parses: at least three fields, and the second and third are
/// ports.
pub open spec fn option_ok(s: Seq<u8>) -> bool {
    let parts = split_fields(s);
    parts.len() >= 3 && valid_port(parts[1]) && valid_port(parts[2])
}

/// Parses and validates a port-forward option.  Succeeds exactly when the
/// option has at least three fields and both port fields are decimal
/// numerals in `1 ..= 65535`; everything else is `InvalidOptions`.  Extra
/// fields after the remote host are ignored, as a lenient reader of the
/// option format would.
pub fn parse_port_forward(opt: &[u8]) -> (r: Result<PortForwardSpec, ErrorReason>)
    ensures
        r is Ok <==> option_ok(opt@),
        r is Err ==> r->Err_0 == ErrorReason::InvalidOptions,
        r is Ok ==> {
            let parts = split_fields(opt@);
            &&& r->Ok_0.peer_id@ == parts[0]
            &&& r->Ok_0.local_port == dec_value(parts[1])
            &&& r->Ok_0.remote_port == dec_value(parts[2])
            &&& r->Ok_0.remote_host@ == if parts.len() > 3 {
                parts[3]
            } else {
                default_host()
            }
            &&& r->Ok_0.wf()
        },
{
    let mut parts = split_fields_exec(opt);
    if parts.len() < 3 {
        return Err(ErrorReason::InvalidOptions);
    }
    let local_port = match parse_port(parts[1].as_slice()) {
        Some(p) => p,
        None => {
            return Err(ErrorReason::InvalidOptions);
        },
    };
    let remote_port = match parse_port(parts[2].as_slice()) {
        Some(p) => p,
        None => {
            return Err(ErrorReason::InvalidOptions);
        },
    };
    let remote_host = if parts.len() > 3 {
        parts[3].clone()
    } else {
        default_host_bytes()
    };
    let peer_id = parts.remove(0);
    Ok(PortForwardSpec { peer_id, local_port, remote_port, remote_host })
}

} // verus!
