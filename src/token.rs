use vstd::prelude::*;
use vstd::string::StrSliceExecFns;
use vstd::string::StringExecFns;

use crate::text::{chars_equal, substring};

verus! {

/// What a credential holds, as mathematical values.
pub struct TokenView {
    pub token: Seq<char>,
    pub expires_at: Option<u64>,
    pub sku: Option<Seq<char>>,
    pub proxy_endpoint: Option<Seq<char>>,
    pub tracking_id: Option<Seq<char>>,
}

pub open spec fn opt_view(o: Option<String>) -> Option<Seq<char>> {
    match o {
        Some(s) => Some(s@),
        None => None,
    }
}

/// The durable service credential: an opaque secret and what could be read out
/// of it when it is a structured token.
#[derive(Debug, Clone)]
pub struct CopilotToken {
    pub token: String,
    pub expires_at: Option<u64>,
    pub sku: Option<String>,
    pub proxy_endpoint: Option<String>,
    pub tracking_id: Option<String>,
}

impl View for CopilotToken {
    type V = TokenView;

    open spec fn view(&self) -> TokenView {
        TokenView {
            token: self.token@,
            expires_at: self.expires_at,
            sku: opt_view(self.sku),
            proxy_endpoint: opt_view(self.proxy_endpoint),
            tracking_id: opt_view(self.tracking_id),
        }
    }
}

/// A structured token starts with its tracking id.
pub open spec fn is_structured(s: Seq<char>) -> bool {
    s.len() >= 4 && s.take(4) == seq!['t', 'i', 'd', '=']
}

/// The pieces of `s` between semicolons, as `str::split(';')` yields them:
/// always at least one, possibly empty.
pub open spec fn split_parts(s: Seq<char>) -> Seq<Seq<char>>
    decreases s.len(),
{
    if s.len() == 0 {
        seq![Seq::empty()]
    } else {
        let prev = split_parts(s.drop_last());
        if s.last() == ';' {
            prev.push(Seq::empty())
        } else {
            prev.update(prev.len() - 1, prev.last().push(s.last()))
        }
    }
}

/// `k` is the position of the first `=` in `part`.
pub open spec fn first_eq_at(part: Seq<char>, k: int) -> bool {
    &&& 0 <= k < part.len()
    &&& part[k] == '='
    &&& forall|m: int| 0 <= m < k ==> part[m] != '='
}

/// An unsigned decimal as `u64::from_str` accepts it: an optional `+`, then
/// one or more ASCII digits whose value fits in 64 bits.
pub open spec fn digits_value(s: Seq<char>) -> nat
    decreases s.len(),
{
    if s.len() == 0 {
        0
    } else {
        (digits_value(s.drop_last()) * 10 + (s.last() as int - '0' as int)) as nat
    }
}

pub open spec fn all_digits(s: Seq<char>) -> bool {
    forall|i: int| 0 <= i < s.len() ==> '0' <= #[trigger] s[i] <= '9'
}

pub open spec fn parse_u64_spec(s: Seq<char>) -> Option<u64> {
    let d = if s.len() > 1 && s[0] == '+' { s.drop_first() } else { s };
    if d.len() > 0 && all_digits(d) && digits_value(d) <= u64::MAX {
        Some(digits_value(d) as u64)
    } else {
        None
    }
}

/// What one `key=value` piece does to the credential; pieces without `=` and
/// unknown keys do nothing, and an `exp` that is not a number is ignored.
pub open spec fn apply_part(t: TokenView, part: Seq<char>) -> TokenView {
    if exists|k: int| first_eq_at(part, k) {
        let k = choose|k: int| first_eq_at(part, k);
        let key = part.take(k);
        let value = part.skip(k + 1);
        if key == "exp"@ {
            match parse_u64_spec(value) {
                Some(n) => TokenView { expires_at: Some(n), ..t },
                None => t,
            }
        } else if key == "sku"@ {
            TokenView { sku: Some(value), ..t }
        } else if key == "proxy-ep"@ {
            TokenView { proxy_endpoint: Some(value), ..t }
        } else if key == "tid"@ {
            TokenView { tracking_id: Some(value), ..t }
        } else {
            t
        }
    } else {
        t
    }
}

/// The pieces applied in order, so that a later piece overrides an earlier one.
pub open spec fn apply_parts(t: TokenView, parts: Seq<Seq<char>>) -> TokenView
    decreases parts.len(),
{
    if parts.len() == 0 {
        t
    } else {
        apply_part(apply_parts(t, parts.drop_last()), parts.last())
    }
}

/// The credential read out of a raw secret.
pub open spec fn raw_token_view(s: Seq<char>) -> TokenView {
    let base = TokenView {
        token: s,
        expires_at: None,
        sku: None,
        proxy_endpoint: None,
        tracking_id: None,
    };
    if is_structured(s) {
        apply_parts(base, split_parts(s))
    } else {
        base
    }
}

/// Expired means: an expiry is set and it is not after `now`.
pub open spec fn expired_at(t: TokenView, now: u64) -> bool {
    match t.expires_at {
        Some(e) => now >= e,
        None => false,
    }
}

/// Whole minutes left before expiry, zero once expired; `None` without expiry.
pub open spec fn minutes_left_at(t: TokenView, now: u64) -> Option<u64> {
    match t.expires_at {
        Some(e) => if e > now {
            Some(((e - now) / 60) as u64)
        } else {
            Some(0)
        },
        None => None,
    }
}

/// Relies on `u64::from_str`: an optional `+` then ASCII digits, the value
/// fitting in 64 bits; anything else is an error.
#[verifier::external_body]
fn parse_u64(s: &str) -> (r: Option<u64>)
    ensures
        r == parse_u64_spec(s@),
{
    s.parse::<u64>().ok()
}

/// Relies on `SystemTime::now` and its distance from the Unix epoch, in whole
/// seconds (zero for a clock set before the epoch). Nothing is known of the
/// value it returns.
#[verifier::external_body]
fn unix_now_secs() -> (r: u64) {
    std::time::SystemTime::now().duration_since(std::time::UNIX_EPOCH).unwrap_or_default().as_secs()
}

proof fn lemma_apply_parts_push(t: TokenView, parts: Seq<Seq<char>>, p: Seq<char>)
    ensures
        apply_parts(t, parts.push(p)) == apply_part(apply_parts(t, parts), p),
{
    assert(parts.push(p).drop_last() =~= parts);
}

/// Inside a piece that has no semicolon, `split_parts` grows its last piece.
proof fn lemma_split_inside(s: Seq<char>, start: int, i: int)
    requires
        0 <= start <= i <= s.len(),
        split_parts(s.take(start)).last() == Seq::<char>::empty(),
        forall|m: int| start <= m < i ==> s[m] != ';',
    ensures
        split_parts(s.take(i)) == split_parts(s.take(start)).drop_last().push(
            s.subrange(start, i),
        ),
    decreases i - start,
{
    if i == start {
        let p = split_parts(s.take(start));
        assert(p.len() >= 1) by {
            lemma_split_nonempty(s.take(start));
        }
        assert(s.subrange(start, i) =~= Seq::<char>::empty());
        assert(p.drop_last().push(s.subrange(start, i)) =~= p);
    } else {
        lemma_split_inside(s, start, i - 1);
        assert(s.take(i).drop_last() =~= s.take(i - 1));
        assert(s.subrange(start, i - 1).push(s[i - 1]) =~= s.subrange(start, i));
        lemma_split_nonempty(s.take(i - 1));
    }
}

proof fn lemma_split_nonempty(s: Seq<char>)
    ensures
        split_parts(s).len() >= 1,
    decreases s.len(),
{
    if s.len() > 0 {
        lemma_split_nonempty(s.drop_last());
    }
}

impl CopilotToken {
    /// Reads a raw secret into a credential. A secret that starts with
    /// `tid=` is split at semicolons into `key=value` pieces, and `exp`,
    /// `sku`, `proxy-ep` and `tid` fill the matching fields; any other secret
    /// leaves them empty.
    pub fn from_raw_token(raw_token: &str) -> (r: CopilotToken)
        ensures
            r@ == raw_token_view(raw_token@),
    {
        let n = raw_token.unicode_len();
        let mut token = CopilotToken {
            token: String::from_str(raw_token),
            expires_at: None,
            sku: None,
            proxy_endpoint: None,
            tracking_id: None,
        };
        let ghost s = raw_token@;
        if !(n >= 4 && chars_equal(raw_token, 0, 4, "tid=")) {
            proof {
                reveal_strlit("tid=");
                assert("tid="@ =~= seq!['t', 'i', 'd', '=']);
                assert(s.len() >= 4 ==> s.subrange(0, 4) == s.take(4));
            }
            return token;
        }
        proof {
            reveal_strlit("tid=");
            assert("tid="@ =~= seq!['t', 'i', 'd', '=']);
            assert(s.subrange(0, 4) == s.take(4));
        }
        let ghost base = token@;
        let mut start: usize = 0;
        let mut i: usize = 0;
        proof {
            assert(s.take(0) =~= Seq::<char>::empty());
            assert(split_parts(s.take(0)).drop_last() =~= Seq::<Seq<char>>::empty());
        }
        while i < n
            invariant
                n == s.len(),
                s == raw_token@,
                start <= i <= n,
                start == 0 || s[start - 1] == ';',
                split_parts(s.take(start as int)).last() == Seq::<char>::empty(),
                forall|m: int| start <= m < i ==> s[m] != ';',
                token@ == apply_parts(base, split_parts(s.take(start as int)).drop_last()),
            decreases n - i,
        {
            if raw_token.get_char(i) == ';' {
                proof {
                    lemma_split_inside(s, start as int, i as int);
                    assert(s.take(i + 1).drop_last() =~= s.take(i as int));
                    let done = split_parts(s.take(start as int)).drop_last();
                    let part = s.subrange(start as int, i as int);
                    lemma_apply_parts_push(base, done, part);
                    assert(split_parts(s.take(i + 1)).drop_last() =~= done.push(part));
                }
                token = Self::apply_piece(token, raw_token, start, i);
                start = i + 1;
            }
            i += 1;
        }
        proof {
            lemma_split_inside(s, start as int, n as int);
            assert(s.take(n as int) =~= s);
            let done = split_parts(s.take(start as int)).drop_last();
            lemma_apply_parts_push(base, done, s.subrange(start as int, n as int));
        }
        token = Self::apply_piece(token, raw_token, start, n);
        token
    }

    /// Applies the piece `raw[from..to]` to `token`.
    fn apply_piece(token: CopilotToken, raw: &str, from: usize, to: usize) -> (r: CopilotToken)
        requires
            from <= to <= raw@.len(),
        ensures
            r@ == apply_part(token@, raw@.subrange(from as int, to as int)),
    {
        let ghost part = raw@.subrange(from as int, to as int);
        let mut k: usize = from;
        while k < to && raw.get_char(k) != '='
            invariant
                from <= k <= to <= raw@.len(),
                part == raw@.subrange(from as int, to as int),
                forall|m: int| 0 <= m < k - from ==> part[m] != '=',
            decreases to - k,
        {
            k += 1;
        }
        if k == to {
            assert(!exists|j: int| first_eq_at(part, j));
            return token;
        }
        let ghost kk = (k - from) as int;
        assert(first_eq_at(part, kk));
        proof {
            let c = choose|j: int| first_eq_at(part, j);
            assert(c == kk) by {
                if c < kk {
                    assert(part[c] != '=');
                } else if c > kk {
                    assert(part[kk] != '=');
                }
            }
            assert(part.take(kk) =~= raw@.subrange(from as int, k as int));
            assert(part.skip(kk + 1) =~= raw@.subrange(k + 1, to as int));
        }
        let mut token = token;
        if chars_equal(raw, from, k, "exp") {
            let value = raw.substring_char(k + 1, to);
            match parse_u64(value) {
                Some(e) => {
                    token.expires_at = Some(e);
                },
                None => {},
            }
        } else if chars_equal(raw, from, k, "sku") {
            token.sku = Some(substring(raw, k + 1, to));
        } else if chars_equal(raw, from, k, "proxy-ep") {
            token.proxy_endpoint = Some(substring(raw, k + 1, to));
        } else if chars_equal(raw, from, k, "tid") {
            token.tracking_id = Some(substring(raw, k + 1, to));
        }
        token
    }

    /// Whether the credential has expired at `now` (seconds since the epoch).
    pub fn is_expired_at(&self, now: u64) -> (r: bool)
        ensures
            r == expired_at(self@, now),
    {
        match self.expires_at {
            Some(e) => now >= e,
            None => false,
        }
    }

    /// Whether the credential has expired by the system clock. A credential
    /// without an expiry never expires.
    pub fn is_expired(&self) -> (r: bool)
        ensures
            self.expires_at is None ==> !r,
            exists|now: u64| r == expired_at(self@, now),
    {
        let now = unix_now_secs();
        self.is_expired_at(now)
    }

    /// Whole minutes left at `now` before the credential expires.
    pub fn expires_in_minutes_at(&self, now: u64) -> (r: Option<u64>)
        ensures
            r == minutes_left_at(self@, now),
    {
        match self.expires_at {
            Some(e) => if e > now {
                Some((e - now) / 60)
            } else {
                Some(0)
            },
            None => None,
        }
    }

    /// Whole minutes left by the system clock before the credential expires;
    /// `None` for a credential without an expiry.
    pub fn expires_in_minutes(&self) -> (r: Option<u64>)
        ensures
            (r is None) == (self.expires_at is None),
            exists|now: u64| r == minutes_left_at(self@, now),
    {
        let now = unix_now_secs();
        self.expires_in_minutes_at(now)
    }
}

} // verus!
