//! The serial ports: which of them to offer first.

use vstd::prelude::*;

verus! {

/// What `str::to_lowercase` makes of a text.
pub uninterp spec fn lowercase_of(text: Seq<char>) -> Seq<char>;

/// `str::to_lowercase`: the lowercase equivalent of a text, as Unicode maps
/// it. The result depends on the text alone.
#[verifier::external_body]
fn to_lowercase(text: &str) -> (lower: String)
    ensures
        lower@ == lowercase_of(text@),
{
    text.to_lowercase()
}

/// Whether a text holds another one as a run of consecutive characters.
pub open spec fn holds_text(text: Seq<char>, part: Seq<char>) -> bool {
    exists|i: int|
        0 <= i && i + part.len() <= text.len() && #[trigger] text.subrange(i, i + part.len())
            == part
}

/// `str::contains` with a text as the pattern: whether the pattern occurs
/// in the text.
#[verifier::external_body]
fn contains(text: &str, part: &str) -> (found: bool)
    ensures
        found == holds_text(text@, part@),
{
    text.contains(part)
}

/// Whether a port may be the motor's: its name, in lowercase, speaks
/// neither of a debug port nor of bluetooth.
pub open spec fn is_candidate(name: Seq<char>) -> bool {
    !holds_text(lowercase_of(name), "debug"@) && !holds_text(lowercase_of(name), "bluetooth"@)
}

/// Whether a port may be the motor's.
pub fn port_is_candidate(name: &str) -> (candidate: bool)
    ensures
        candidate == is_candidate(name@),
{
    let lower = to_lowercase(name);
    !contains(lower.as_str(), "debug") && !contains(lower.as_str(), "bluetooth")
}

/// The names of a list that are candidates, or those that are not, in
/// their old order.
pub open spec fn ports_where(names: Seq<Seq<char>>, candidate: bool) -> Seq<Seq<char>>
    decreases names.len(),
{
    if names.len() == 0 {
        Seq::empty()
    } else if is_candidate(names.last()) == candidate {
        ports_where(names.drop_last(), candidate).push(names.last())
    } else {
        ports_where(names.drop_last(), candidate)
    }
}

/// The text of every name of a list.
pub open spec fn texts(names: Seq<String>) -> Seq<Seq<char>> {
    names.map_values(|name: String| name@)
}

/// Orders the serial ports for the operator: the candidates first, the
/// debug and bluetooth ports after them, each group in the order in which
/// the system listed it.
pub fn get_available_ports(ports: Vec<String>) -> (ordered: Vec<String>)
    ensures
        texts(ordered@) == ports_where(texts(ports@), true) + ports_where(texts(ports@), false),
{
    let mut first: Vec<String> = Vec::new();
    let mut others: Vec<String> = Vec::new();
    let mut i: usize = 0;
    assert(texts(first@) =~= ports_where(texts(ports@).take(0), true));
    assert(texts(others@) =~= ports_where(texts(ports@).take(0), false));
    while i < ports.len()
        invariant
            i <= ports.len(),
            texts(first@) == ports_where(texts(ports@).take(i as int), true),
            texts(others@) == ports_where(texts(ports@).take(i as int), false),
        decreases ports.len() - i,
    {
        let name: String = ports[i].clone();
        proof {
            let upto = texts(ports@).take(i + 1);
            assert(upto.drop_last() =~= texts(ports@).take(i as int));
            assert(upto.last() == name@);
        }
        let ghost f0 = texts(first@);
        let ghost o0 = texts(others@);
        if port_is_candidate(name.as_str()) {
            first.push(name);
            assert(texts(first@) =~= f0.push(name@));
        } else {
            others.push(name);
            assert(texts(others@) =~= o0.push(name@));
        }
        i = i + 1;
    }
    proof {
        assert(texts(ports@).take(i as int) =~= texts(ports@));
    }
    let ghost f1 = texts(first@);
    let mut k: usize = 0;
    while k < others.len()
        invariant
            k <= others.len(),
            texts(first@) == f1 + texts(others@).take(k as int),
        decreases others.len() - k,
    {
        let name: String = others[k].clone();
        let ghost before = texts(first@);
        first.push(name);
        proof {
            assert(texts(first@) =~= before.push(name@));
            assert(texts(others@).take(k + 1) =~= texts(others@).take(k as int).push(name@));
        }
        k = k + 1;
    }
    proof {
        assert(texts(others@).take(k as int) =~= texts(others@));
    }
    first
}

} // verus!
