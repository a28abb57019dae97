//! Typed header values and the parsers that produce them.
//!
//! A binding pairs a header name with a [`Parser`], a pure function from the
//! decoded header text to a typed [`Value`]. Three parsers cover the target
//! field types: the identity on text (which never fails), an unsigned decimal
//! integer, and a parser that rejects everything (for fields whose type
//! accepts no header at all).

use vstd::prelude::*;
use vstd::string::StrSliceExecFns;

verus! {

/// How one field's header text is turned into a typed value.
#[derive(Debug, Clone, Copy, PartialEq, Eq, Structural)]
pub enum Parser {
    /// Take the decoded text itself; never fails.
    Text,
    /// An unsigned decimal integer: one or more ASCII digits, nothing else,
    /// whose value fits in a `u64`.
    Uint,
    /// Reject every input.
    Never,
}

/// A typed value extracted from one header.
#[derive(Debug, Clone, PartialEq, Eq)]
pub enum Value {
    Text(String),
    Uint(u64),
}

/// The mathematical shadow of [`Value`].
pub enum ValueSpec {
    Text(Seq<char>),
    Uint(u64),
}

impl View for Value {
    type V = ValueSpec;

    open spec fn view(&self) -> ValueSpec {
        match self {
            Value::Text(s) => ValueSpec::Text(s@),
            Value::Uint(n) => ValueSpec::Uint(*n),
        }
    }
}

/// Whether `c` is an ASCII decimal digit.
pub open spec fn is_digit_char(c: char) -> bool {
    '0' <= c && c <= '9'
}

/// The numeric value of a digit character.
pub open spec fn digit_val(c: char) -> int {
    (c as u32) - ('0' as u32)
}

/// The number a sequence of digit characters denotes, read left to right.
pub open spec fn digits_val(s: Seq<char>) -> int
    decreases s.len(),
{
    if s.len() == 0 {
        0
    } else {
        digits_val(s.drop_last()) * 10 + digit_val(s.last())
    }
}

/// Whether `s` is accepted by the unsigned-integer parser: non-empty, all
/// digits, and its value fits in a `u64`.
pub open spec fn is_uint_text(s: Seq<char>) -> bool {
    s.len() > 0 && (forall|i: int| 0 <= i < s.len() ==> is_digit_char(#[trigger] s[i]))
        && digits_val(s) <= u64::MAX
}

/// What each parser returns on a given decoded text: `Some` of the typed
/// value where the text is accepted, `None` where it is rejected.
pub open spec fn spec_parse(p: Parser, s: Seq<char>) -> Option<ValueSpec> {
    match p {
        Parser::Text => Some(ValueSpec::Text(s)),
        Parser::Uint => if is_uint_text(s) {
            Some(ValueSpec::Uint(digits_val(s) as u64))
        } else {
            None
        },
        Parser::Never => None,
    }
}

/// The value of a digit string never goes down when digits are appended.
proof fn lemma_digits_val_nonneg(s: Seq<char>)
    requires
        forall|i: int| 0 <= i < s.len() ==> is_digit_char(#[trigger] s[i]),
    ensures
        digits_val(s) >= 0,
    decreases s.len(),
{
    if s.len() > 0 {
        lemma_digits_val_nonneg(s.drop_last());
    }
}

/// A prefix of an all-digit string denotes no more than the whole string.
proof fn lemma_digits_val_prefix(s: Seq<char>, k: int)
    requires
        forall|i: int| 0 <= i < s.len() ==> is_digit_char(#[trigger] s[i]),
        0 <= k <= s.len(),
    ensures
        digits_val(s.take(k)) <= digits_val(s),
    decreases s.len() - k,
{
    if k < s.len() {
        lemma_digits_val_prefix(s, k + 1);
        let t = s.take(k + 1);
        assert(t.drop_last() =~= s.take(k));
        lemma_digits_val_nonneg(s.take(k));
        assert(digits_val(t) == digits_val(s.take(k)) * 10 + digit_val(t.last()));
        assert(digits_val(s.take(k)) * 10 >= digits_val(s.take(k))) by {
            lemma_digits_val_nonneg(s.take(k));
        }
    } else {
        assert(s.take(k) =~= s);
    }
}

/// Apply a parser to decoded header text, exactly as [`spec_parse`] says.
pub fn parse_value(p: Parser, s: &str) -> (r: Option<Value>)
    ensures
        match r {
            Some(v) => spec_parse(p, s@) == Some(v@),
            None => spec_parse(p, s@) is None,
        },
{
    match p {
        Parser::Text => Some(Value::Text(s.to_owned())),
        Parser::Uint => match parse_uint(s) {
            Some(n) => Some(Value::Uint(n)),
            None => None,
        },
        Parser::Never => None,
    }
}

/// Parse an unsigned decimal integer: `Some` exactly on the texts that
/// [`is_uint_text`] accepts, returning the denoted number.
pub fn parse_uint(s: &str) -> (r: Option<u64>)
    ensures
        match r {
            Some(v) => is_uint_text(s@) && v == digits_val(s@),
            None => !is_uint_text(s@),
        },
{
    let n = s.unicode_len();
    if n == 0 {
        return None;
    }
    let mut acc: u64 = 0;
    let mut i: usize = 0;
    while i < n
        invariant
            0 < n == s@.len(),
            0 <= i <= n,
            forall|j: int| 0 <= j < i ==> is_digit_char(#[trigger] s@[j]),
            acc == digits_val(s@.take(i as int)),
        decreases n - i,
    {
        let c = s.get_char(i);
        if c < '0' || c > '9' {
            return None;
        }
        let d: u64 = (c as u32 - '0' as u32) as u64;
        let ghost pre = s@.take(i as int);
        let ghost ext = s@.take(i as int + 1);
        proof {
            assert(ext.drop_last() =~= pre);
            assert(ext.last() == s@[i as int]);
        }
        let wide = match acc.checked_mul(10) {
            Some(w) => w.checked_add(d),
            None => None,
        };
        match wide {
            Some(w) => {
                acc = w;
            },
            None => {
                proof {
                    assert(digits_val(ext) == digits_val(pre) * 10 + digit_val(ext.last()));
                    assert(digits_val(ext) > u64::MAX);
                    if forall|j: int| 0 <= j < s@.len() ==> is_digit_char(#[trigger] s@[j]) {
                        lemma_digits_val_prefix(s@, i as int + 1);
                    }
                }
                return None;
            },
        }
        i = i + 1;
    }
    proof {
        assert(s@.take(n as int) =~= s@);
    }
    Some(acc)
}

} // verus!
