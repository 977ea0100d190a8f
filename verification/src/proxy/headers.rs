//! Response headers and the rule that decides which of them are passed on.
//!
//! Header names are compared without regard to ASCII case, as HTTP asks.

use vstd::prelude::*;
use vstd::std_specs::iter::IteratorSpec;

verus! {

broadcast use vstd::string::group_string_axioms;

/// One header line of a response: its name and its raw value.
#[derive(Debug, Clone, PartialEq, Eq)]
pub struct Header {
    pub name: String,
    pub value: Vec<u8>,
}

/// The mathematical value of a [`Header`].
pub struct HeaderView {
    pub name: Seq<char>,
    pub value: Seq<u8>,
}

impl View for Header {
    type V = HeaderView;

    open spec fn view(&self) -> HeaderView {
        HeaderView { name: self.name@, value: self.value@ }
    }
}

impl DeepView for Header {
    type V = HeaderView;

    open spec fn deep_view(&self) -> HeaderView {
        self@
    }
}

/// The code point of `c` with the upper-case ASCII letters folded onto the
/// lower-case ones; every other character keeps its code point.
pub open spec fn fold_ascii_case(c: char) -> u32 {
    if 'A' <= c && c <= 'Z' {
        (c as u32 + 32) as u32
    } else {
        c as u32
    }
}

/// Whether two header names are the same name: equal in length and,
/// position by position, equal up to ASCII case.
pub open spec fn same_name(a: Seq<char>, b: Seq<char>) -> bool {
    &&& a.len() == b.len()
    &&& forall|i: int| 0 <= i < a.len() ==> fold_ascii_case(#[trigger] a[i]) == fold_ascii_case(b[i])
}

fn fold_case(c: char) -> (folded: u32)
    ensures
        folded == fold_ascii_case(c),
{
    let code = c as u32;
    if 65 <= code && code <= 90 {
        code + 32
    } else {
        code
    }
}

/// Decides whether `a` and `b` are the same header name.
pub fn names_match(a: &str, b: &str) -> (same: bool)
    ensures
        same == same_name(a@, b@),
{
    let mut left = a.chars();
    let mut right = b.chars();
    let ghost done: int = 0;
    loop
        invariant
            0 <= done <= a@.len(),
            done <= b@.len(),
            left.remaining() == a@.skip(done),
            right.remaining() == b@.skip(done),
            left.obeys_prophetic_iter_laws(),
            right.obeys_prophetic_iter_laws(),
            left.decrease() is Some,
            forall|i: int| 0 <= i < done ==> fold_ascii_case(#[trigger] a@[i]) == fold_ascii_case(b@[i]),
        decreases left.decrease()->0,
    {
        let x = left.next();
        let y = right.next();
        match (x, y) {
            (None, None) => {
                return true;
            },
            (Some(p), Some(q)) => {
                if fold_case(p) != fold_case(q) {
                    return false;
                }
                proof {
                    done = done + 1;
                }
            },
            _ => {
                return false;
            },
        }
    }
}

/// Whether a header called `name` is held back: some entry of `ignored` is
/// the same name.
pub open spec fn is_ignored(name: Seq<char>, ignored: Seq<Seq<char>>) -> bool {
    exists|i: int| 0 <= i < ignored.len() && same_name(name, #[trigger] ignored[i])
}

/// The headers that are passed on: those of `headers` whose name is not
/// held back, in the order they came in.
pub open spec fn passed_on(headers: Seq<HeaderView>, ignored: Seq<Seq<char>>) -> Seq<HeaderView> {
    headers.filter(|h: HeaderView| !is_ignored(h.name, ignored))
}

/// Decides whether a header called `name` is held back.
pub fn is_ignored_header(name: &str, ignored: &Vec<String>) -> (held_back: bool)
    ensures
        held_back == is_ignored(name@, ignored.deep_view()),
{
    let mut i: usize = 0;
    while i < ignored.len()
        invariant
            i <= ignored.len(),
            forall|j: int| 0 <= j < i ==> !same_name(name@, #[trigger] ignored.deep_view()[j]),
        decreases ignored.len() - i,
    {
        if names_match(name, ignored[i].as_str()) {
            assert(same_name(name@, ignored.deep_view()[i as int]));
            return true;
        }
        i += 1;
    }
    false
}

/// Drops the headers that are held back and keeps the others in order.
pub fn filter_headers(headers: Vec<Header>, ignored: &Vec<String>) -> (kept: Vec<Header>)
    ensures
        kept.deep_view() == passed_on(headers.deep_view(), ignored.deep_view()),
{
    let ghost all = headers.deep_view();
    let ghost keep = |h: HeaderView| !is_ignored(h.name, ignored.deep_view());
    let ghost seen: int = 0;
    let mut kept: Vec<Header> = Vec::new();
    proof {
        reveal(Seq::filter);
    }
    for header in it: headers
        invariant
            it.seq() == headers@,
            all == headers.deep_view(),
            seen == it.index(),
            keep == |h: HeaderView| !is_ignored(h.name, ignored.deep_view()),
            kept.deep_view() == all.take(seen).filter(keep),
    {
        proof {
            reveal(Seq::filter);
            assert(all.take(seen + 1).drop_last() =~= all.take(seen));
        }
        let held_back = is_ignored_header(header.name.as_str(), ignored);
        if !held_back {
            kept.push(header);
        }
        proof {
            seen = seen + 1;
        }
    }
    proof {
        assert(all.take(seen) =~= all);
    }
    kept
}

} // verus!
