//! Extraction of an event's payload from the raw frame that carried it.
use vstd::prelude::*;
use vstd::string::StringSliceAdditionalSpecFns;
use vstd::utf8::*;

use crate::{WampError, WampResult};

verus! {

/// The number of opening minus closing delimiters in `b[from..to]`.
pub open spec fn balance(b: Seq<u8>, l: char, r: char, from: int, to: int) -> int
    decreases to - from,
{
    if to <= from {
        0
    } else {
        balance(b, l, r, from, to - 1) + if b[to - 1] as char == l {
            1int
        } else if b[to - 1] as char == r {
            -1int
        } else {
            0int
        }
    }
}

/// `f` is the position of the first opening delimiter of `b`.
pub open spec fn first_open(b: Seq<u8>, l: char, f: int) -> bool {
    &&& 0 <= f < b.len()
    &&& b[f] as char == l
    &&& forall|k: int| 0 <= k < f ==> b[k] as char != l
}

/// The closing delimiter at `j` closes the region opened at `f`.
pub open spec fn closes(b: Seq<u8>, l: char, r: char, f: int, j: int) -> bool {
    &&& f < j < b.len()
    &&& b[j] as char == r
    &&& balance(b, l, r, f, j) == 1
}

/// `b[f..=j]` is the first balanced delimited region of `b`: it opens at the
/// first opening delimiter and ends at the first closing delimiter that
/// balances it.
pub open spec fn span_at(b: Seq<u8>, l: char, r: char, f: int, j: int) -> bool {
    &&& first_open(b, l, f)
    &&& closes(b, l, r, f, j)
    &&& forall|k: int| f < k < j ==> !closes(b, l, r, f, k)
}

/// The first balanced delimited region of `b`, as the positions of its two
/// delimiters; `None` where `b` has no opening delimiter or the first one is
/// never balanced.
pub open spec fn brace_span(b: Seq<u8>, l: char, r: char) -> Option<(int, int)> {
    if exists|f: int, j: int| span_at(b, l, r, f, j) {
        Some(choose|p: (int, int)| span_at(b, l, r, p.0, p.1))
    } else {
        None
    }
}

proof fn lemma_span_unique(b: Seq<u8>, l: char, r: char, f: int, j: int, f2: int, j2: int)
    requires
        span_at(b, l, r, f, j),
        span_at(b, l, r, f2, j2),
    ensures
        f == f2 && j == j2,
{
    if f < f2 {
        assert(b[f] as char == l);
    } else if f2 < f {
        assert(b[f2] as char == l);
    }
    if j < j2 {
        assert(closes(b, l, r, f, j));
    } else if j2 < j {
        assert(closes(b, l, r, f2, j2));
    }
}

proof fn lemma_span_is_chosen(b: Seq<u8>, l: char, r: char, f: int, j: int)
    requires
        span_at(b, l, r, f, j),
    ensures
        brace_span(b, l, r) == Some((f, j)),
{
    assert(exists|f: int, j: int| span_at(b, l, r, f, j));
    let p = choose|p: (int, int)| span_at(b, l, r, p.0, p.1);
    assert(span_at(b, l, r, (f, j).0, (f, j).1));
    lemma_span_unique(b, l, r, f, j, p.0, p.1);
}

impl Payload {
    /// The positions of the first balanced region of `raw` delimited by
    /// `braces`: its first opening delimiter, and the closing one that
    /// balances it. Positions count bytes.
    pub fn capture_braces(raw: &str, braces: (char, char)) -> (res: Option<(usize, usize)>)
        requires
            braces.0 != braces.1,
            (braces.0 as int) < 128,
            (braces.1 as int) < 128,
        ensures
            match res {
                Some((f, j)) => brace_span(
                    raw.spec_bytes(),
                    braces.0,
                    braces.1,
                ) == Some((f as int, j as int)),
                None => brace_span(raw.spec_bytes(), braces.0, braces.1) is None,
            },
    {
        let b = raw.as_bytes();
        let ghost s = raw.spec_bytes();
        let l = braces.0;
        let r = braces.1;
        let mut first: usize = 0;
        let mut found = false;
        let mut depth: usize = 0;
        let mut i: usize = 0;
        while i < b.len()
            invariant
                b@ == s,
                s == raw.spec_bytes(),
                l == braces.0,
                r == braces.1,
                l != r,
                0 <= i <= s.len(),
                !found ==> forall|k: int| 0 <= k < i ==> s[k] as char != l,
                found ==> first_open(s, l, first as int),
                found ==> first < i,
                found ==> depth as int == balance(s, l, r, first as int, i as int),
                found ==> 1 <= depth <= i - first,
                found ==> forall|k: int| first < k < i ==> !closes(s, l, r, first as int, k),
            decreases s.len() - i,
        {
            let c = b[i] as char;
            if c == l {
                if !found {
                    first = i;
                    found = true;
                    depth = 1;
                    assert(balance(s, l, r, first as int, first as int) == 0);
                } else {
                    depth = depth + 1;
                }
            } else if c == r {
                if found {
                    if depth == 1 {
                        assert(span_at(s, l, r, first as int, i as int));
                        proof {
                            lemma_span_is_chosen(s, l, r, first as int, i as int);
                        }
                        return Some((first, i));
                    } else {
                        depth = depth - 1;
                    }
                }
            }
            i = i + 1;
        }
        proof {
            if exists|f: int, j: int| span_at(s, l, r, f, j) {
                let (f, j) = choose|f: int, j: int| span_at(s, l, r, f, j);
                if found {
                    lemma_first_open_unique(s, l, f, first as int);
                    assert(!closes(s, l, r, first as int, j));
                }
            }
        }
        None
    }
}

proof fn lemma_first_open_unique(b: Seq<u8>, l: char, f: int, g: int)
    requires
        first_open(b, l, f),
        first_open(b, l, g),
    ensures
        f == g,
{
    if f < g {
        assert(b[f] as char == l);
    } else if g < f {
        assert(b[g] as char == l);
    }
}

/// The payload received with an event: its positional and keyword arguments
/// as encoded text, decoded only when a callback asks for them.
#[derive(Debug)]
pub struct Payload {
    args: String,
    kwargs: Option<String>,
}

impl Payload {
    /// The bytes of the positional arguments.
    pub closed spec fn spec_args(&self) -> Seq<u8> {
        encode_utf8(self.args@)
    }

    /// The bytes of the keyword arguments, where the event carried any.
    pub closed spec fn spec_kwargs(&self) -> Option<Seq<u8>> {
        match self.kwargs {
            Some(k) => Some(encode_utf8(k@)),
            None => None,
        }
    }

    /// Parses the positional and keyword arguments of a frame that is known
    /// to carry a payload: the positional arguments are the first balanced
    /// `[...]` after the first balanced `{...}`, the keyword arguments the
    /// first balanced `{...}` from there on, where there is one.
    pub fn from_str(raw: &str) -> (r: WampResult<Payload>)
        ensures
            match payload_parts(raw.spec_bytes()) {
                None => r == Err::<Payload, WampError>(WampError::ProtocolError),
                Some((a, k)) => r is Ok && r->Ok_0.spec_args() == a && r->Ok_0.spec_kwargs()
                    == k,
            },
    {
        let ghost b = raw.spec_bytes();
        proof {
            lemma_valid(raw);
        }
        match Self::capture_braces(raw, ('{', '}')) {
            None => Err(WampError::ProtocolError),
            Some((_, end)) => {
                proof {
                    lemma_span_spec(b, '{', '}');
                    lemma_boundary_after_ascii(b, end as int);
                    vstd::utf8::is_char_boundary_start_end_of_seq(b);
                }
                let n = raw.as_bytes().len();
                let next = byte_slice(raw, end + 1, n);
                let ghost nb = next.spec_bytes();
                proof {
                    lemma_valid(next);
                }
                match Self::capture_braces(next, ('[', ']')) {
                    None => Err(WampError::ProtocolError),
                    Some((al, ar)) => {
                        proof {
                            lemma_span_spec(nb, '[', ']');
                            lemma_boundary_at_ascii(nb, al as int);
                            lemma_boundary_at_ascii(nb, ar as int);
                            lemma_boundary_after_ascii(nb, ar as int);
                            vstd::utf8::is_char_boundary_start_end_of_seq(nb);
                        }
                        let args = byte_slice(next, al, ar + 1).to_owned();
                        let kw_next = byte_slice(next, ar, next.as_bytes().len());
                        let ghost kb = kw_next.spec_bytes();
                        proof {
                            lemma_valid(kw_next);
                        }
                        let kwargs = match Self::capture_braces(kw_next, ('{', '}')) {
                            Some((kl, kr)) => {
                                proof {
                                    lemma_span_spec(kb, '{', '}');
                                    lemma_boundary_at_ascii(kb, kl as int);
                                    lemma_boundary_after_ascii(kb, kr as int);
                                }
                                Some(byte_slice(kw_next, kl, kr + 1).to_owned())
                            },
                            None => None,
                        };
                        Ok(Payload { args, kwargs })
                    },
                }
            },
        }
    }
}

impl Payload {
    /// Whether the event carried positional arguments.
    pub fn has_args(&self) -> (r: bool)
        ensures
            r == (self.spec_args().len() > 0),
    {
        self.args.as_str().as_bytes().len() > 0
    }

    /// Whether the event carried keyword arguments.
    pub fn has_kwargs(&self) -> (r: bool)
        ensures
            r == self.spec_kwargs() is Some,
    {
        self.kwargs.is_some()
    }

    /// The encoded positional arguments.
    pub fn args_text(&self) -> (r: &str)
        ensures
            r.spec_bytes() == self.spec_args(),
    {
        self.args.as_str()
    }

    /// The encoded keyword arguments; a decode error where the event carried
    /// none, so that no caller decodes defaulted values out of nothing.
    pub fn kwargs_text(&self) -> (r: WampResult<&str>)
        ensures
            match self.spec_kwargs() {
                Some(k) => r is Ok && r->Ok_0.spec_bytes() == k,
                None => r == Err::<&str, WampError>(WampError::DecodeError),
            },
    {
        match &self.kwargs {
            Some(k) => Ok(k.as_str()),
            None => Err(WampError::DecodeError),
        }
    }
}

/// The positional and keyword argument bytes of a frame, as `from_str`
/// finds them; `None` where the frame has no balanced `{...}` followed by a
/// balanced `[...]`.
pub open spec fn payload_parts(b: Seq<u8>) -> Option<(Seq<u8>, Option<Seq<u8>>)> {
    match brace_span(b, '{', '}') {
        None => None,
        Some((_, e)) => {
            let next = b.subrange(e + 1, b.len() as int);
            match brace_span(next, '[', ']') {
                None => None,
                Some((al, ar)) => {
                    let kw_next = next.subrange(ar, next.len() as int);
                    let kwargs = match brace_span(kw_next, '{', '}') {
                        Some((kl, kr)) => Some(kw_next.subrange(kl, kr + 1)),
                        None => None,
                    };
                    Some((next.subrange(al, ar + 1), kwargs))
                },
            }
        },
    }
}

proof fn lemma_valid(s: &str)
    ensures
        valid_utf8(s.spec_bytes()),
{
    encode_utf8_valid_utf8(s@);
}

proof fn lemma_span_spec(b: Seq<u8>, l: char, r: char)
    ensures
        match brace_span(b, l, r) {
            Some((f, j)) => span_at(b, l, r, f, j) && b[f] as char == l && b[j] as char == r
                && 0 <= f < j < b.len(),
            None => true,
        },
{
    if exists|f: int, j: int| span_at(b, l, r, f, j) {
        let (f, j) = choose|f: int, j: int| span_at(b, l, r, f, j);
        lemma_span_is_chosen(b, l, r, f, j);
    }
}

proof fn lemma_boundary_at_ascii(b: Seq<u8>, k: int)
    requires
        valid_utf8(b),
        0 <= k < b.len(),
        b[k] < 128,
    ensures
        is_char_boundary(b, k),
{
    is_char_boundary_iff_not_is_continuation_byte(b, k);
}

proof fn lemma_boundary_after_ascii(b: Seq<u8>, k: int)
    requires
        valid_utf8(b),
        0 <= k < b.len(),
        b[k] < 128,
    ensures
        is_char_boundary(b, k + 1),
{
    if k + 1 == b.len() {
        is_char_boundary_start_end_of_seq(b);
    } else {
        lemma_boundary_at_ascii(b, k);
        valid_utf8_split(b, k);
        let y = b.subrange(k, b.len() as int);
        assert(valid_utf8(y));
        assert(y[0] == b[k]);
        assert(length_of_first_scalar(y) == 1);
        reveal_with_fuel(is_char_boundary, 2);
        assert(is_char_boundary(y, 1));
        is_char_boundary_iff_not_is_continuation_byte(y, 1);
        assert(y[1] == b[k + 1]);
        is_char_boundary_iff_not_is_continuation_byte(b, k + 1);
    }
}

/// The part of `s` between two byte positions that fall on character
/// boundaries.
fn byte_slice(s: &str, from: usize, to: usize) -> (r: &str)
    requires
        from <= to <= s.spec_bytes().len(),
        is_char_boundary(s.spec_bytes(), from as int),
        is_char_boundary(s.spec_bytes(), to as int),
    ensures
        r.spec_bytes() == s.spec_bytes().subrange(from as int, to as int),
{
    let ghost b = s.spec_bytes();
    proof {
        lemma_valid(s);
    }
    let (_, rest) = s.split_at(from);
    let ghost rb = rest.spec_bytes();
    proof {
        valid_utf8_split(b, from as int);
        if to as int == b.len() {
            is_char_boundary_start_end_of_seq(rb);
        } else {
            is_char_boundary_iff_not_is_continuation_byte(b, to as int);
            assert(rb[to - from] == b[to as int]);
            is_char_boundary_iff_not_is_continuation_byte(rb, to - from);
        }
    }
    let (mid, _) = rest.split_at(to - from);
    assert(mid.spec_bytes() =~= b.subrange(from as int, to as int));
    mid
}

} // verus!
