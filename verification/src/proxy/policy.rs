//! The limits a deployment runs under: which times to live are accepted,
//! how far redirects are followed and which response headers are held back.

use vstd::prelude::*;
use vstd::string::StringExecFns;

verus! {

/// The shortest time to live accepted unless configured otherwise, in seconds.
pub const MIN_TTL: u64 = 60;

/// The longest time to live accepted unless configured otherwise, in seconds.
pub const MAX_TTL: u64 = 3600;

/// The number of redirects followed unless configured otherwise.
pub const MAX_REDIRECTS: u8 = 10;

/// The names of the headers held back unless configured otherwise. The
/// forwarding layer frames and encodes the body anew, so the upstream's
/// statements about length and encoding would be wrong.
pub open spec fn default_ignored_headers() -> Seq<Seq<char>> {
    seq!["content-length"@, "content-encoding"@]
}

/// The character that stands for the digit `d`.
pub open spec fn digit_char(d: nat) -> char {
    if d == 0 {
        '0'
    } else if d == 1 {
        '1'
    } else if d == 2 {
        '2'
    } else if d == 3 {
        '3'
    } else if d == 4 {
        '4'
    } else if d == 5 {
        '5'
    } else if d == 6 {
        '6'
    } else if d == 7 {
        '7'
    } else if d == 8 {
        '8'
    } else {
        '9'
    }
}

/// The decimal numeral of `n`, without leading zeros.
pub open spec fn decimal(n: nat) -> Seq<char>
    decreases n,
{
    if n < 10 {
        seq![digit_char(n)]
    } else {
        decimal(n / 10).push(digit_char(n % 10))
    }
}

/// What a caller is told whose time to live lies outside `[min_ttl, max_ttl]`.
pub open spec fn ttl_range_message(min_ttl: nat, max_ttl: nat) -> Seq<char> {
    "ttl should be between "@ + decimal(min_ttl) + " and "@ + decimal(max_ttl)
}

fn digit_str(d: u64) -> (s: &'static str)
    requires
        d < 10,
    ensures
        s@ == seq![digit_char(d as nat)],
{
    proof {
        reveal_strlit("0");
        reveal_strlit("1");
        reveal_strlit("2");
        reveal_strlit("3");
        reveal_strlit("4");
        reveal_strlit("5");
        reveal_strlit("6");
        reveal_strlit("7");
        reveal_strlit("8");
        reveal_strlit("9");
    }
    if d == 0 {
        "0"
    } else if d == 1 {
        "1"
    } else if d == 2 {
        "2"
    } else if d == 3 {
        "3"
    } else if d == 4 {
        "4"
    } else if d == 5 {
        "5"
    } else if d == 6 {
        "6"
    } else if d == 7 {
        "7"
    } else if d == 8 {
        "8"
    } else {
        "9"
    }
}

/// Writes `n` as a decimal numeral.
pub fn decimal_string(n: u64) -> (numeral: String)
    ensures
        numeral@ == decimal(n as nat),
    decreases n,
{
    if n < 10 {
        digit_str(n).to_owned()
    } else {
        let mut numeral = decimal_string(n / 10);
        numeral.append(digit_str(n % 10));
        numeral
    }
}

/// The limits registration and forwarding are held to.
#[derive(Debug, Clone, PartialEq, Eq)]
pub struct Policy {
    /// The shortest accepted time to live, in seconds.
    pub min_ttl: u64,
    /// The longest accepted time to live, in seconds.
    pub max_ttl: u64,
    /// How many redirects the outbound client follows before it gives up.
    pub max_redirects: u8,
    /// The names of the response headers that are not passed on.
    pub ignored_headers: Vec<String>,
}

/// Whether a time to live of `ttl` seconds lies within `[min_ttl, max_ttl]`.
pub open spec fn ttl_allowed(min_ttl: nat, max_ttl: nat, ttl: nat) -> bool {
    min_ttl <= ttl <= max_ttl
}

impl Policy {
    /// The names of the headers that are not passed on, as sequences of
    /// characters.
    pub open spec fn ignored(&self) -> Seq<Seq<char>> {
        self.ignored_headers.deep_view()
    }

    /// Whether this policy accepts a time to live of `ttl` seconds.
    pub open spec fn allows(&self, ttl: u64) -> bool {
        ttl_allowed(self.min_ttl as nat, self.max_ttl as nat, ttl as nat)
    }

    /// Decides whether a time to live of `ttl` seconds is accepted.
    pub fn accepts_ttl(&self, ttl: u64) -> (accepted: bool)
        ensures
            accepted == self.allows(ttl),
    {
        self.min_ttl <= ttl && ttl <= self.max_ttl
    }

    /// What a caller is told whose time to live this policy does not accept.
    pub fn ttl_message(&self) -> (message: String)
        ensures
            message@ == ttl_range_message(self.min_ttl as nat, self.max_ttl as nat),
    {
        let mut message = "ttl should be between ".to_owned();
        message.append(decimal_string(self.min_ttl).as_str());
        message.append(" and ");
        message.append(decimal_string(self.max_ttl).as_str());
        message
    }

    /// The number of seconds between two sweeps of the store: the shortest
    /// accepted time to live, so that no entry outlives its deadline by
    /// more than it was allowed to live at the least.
    pub fn sweep_interval(&self) -> (seconds: u64)
        ensures
            seconds == self.min_ttl,
    {
        self.min_ttl
    }
}

impl Default for Policy {
    /// Times to live from one minute to one hour, ten redirects, and the
    /// headers on length and encoding held back.
    fn default() -> (policy: Policy)
        ensures
            policy.min_ttl == MIN_TTL,
            policy.max_ttl == MAX_TTL,
            policy.max_redirects == MAX_REDIRECTS,
            policy.ignored() == default_ignored_headers(),
    {
        let mut ignored_headers: Vec<String> = Vec::new();
        ignored_headers.push("content-length".to_owned());
        ignored_headers.push("content-encoding".to_owned());
        Policy {
            min_ttl: MIN_TTL,
            max_ttl: MAX_TTL,
            max_redirects: MAX_REDIRECTS,
            ignored_headers,
        }
    }
}

} // verus!
