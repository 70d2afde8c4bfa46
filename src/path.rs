use vstd::prelude::*;
use crate::value::IndexKey;

verus! {

/// One step of a path: a named field, or an index that is a name or a
/// position.
#[derive(Clone, Debug, PartialEq, Eq)]
pub enum Step {
    Field(String),
    Index(IndexKey),
}

impl Step {
    /// The key that this step looks up: a field is looked up by its name.
    pub open spec fn key(self) -> IndexKey {
        match self {
            Step::Field(name) => IndexKey::ByName(name),
            Step::Index(k) => k,
        }
    }
}

pub open spec fn digit_char(d: int) -> char {
    if d == 0 {
        '0'
    } else if d == 1 {
        '1'
    } else if d == 2 {
        '2'
    } else if d == 3 {
        '3'
    } else if d == 4 {
        '4'
    } else if d == 5 {
        '5'
    } else if d == 6 {
        '6'
    } else if d == 7 {
        '7'
    } else if d == 8 {
        '8'
    } else {
        '9'
    }
}

/// The decimal digits of `n`, most significant first, without leading zeros.
pub open spec fn decimal(n: nat) -> Seq<char>
    decreases n,
{
    if n < 10 {
        seq![digit_char(n as int)]
    } else {
        decimal(n / 10).push(digit_char((n % 10) as int))
    }
}

/// How a step is written: `.name`, `["name"]` or `[n]`.
pub open spec fn step_text(s: Step) -> Seq<char> {
    match s {
        Step::Field(name) => seq!['.'] + name@,
        Step::Index(IndexKey::ByName(name)) => seq!['[', '"'] + name@ + seq!['"', ']'],
        Step::Index(IndexKey::ByPosition(i)) => seq!['['] + decimal(i as nat) + seq![']'],
    }
}

/// How a path is written: its steps' texts one after another.
pub open spec fn path_text(p: Seq<Step>) -> Seq<char>
    decreases p.len(),
{
    if p.len() == 0 {
        Seq::empty()
    } else {
        path_text(p.drop_last()) + step_text(p.last())
    }
}

fn digit_str(d: usize) -> (r: &'static str)
    requires
        d < 10,
    ensures
        r@ == seq![digit_char(d as int)],
{
    proof {
        reveal_strlit("0");
        reveal_strlit("1");
        reveal_strlit("2");
        reveal_strlit("3");
        reveal_strlit("4");
        reveal_strlit("5");
        reveal_strlit("6");
        reveal_strlit("7");
        reveal_strlit("8");
        reveal_strlit("9");
    }
    if d == 0 {
        "0"
    } else if d == 1 {
        "1"
    } else if d == 2 {
        "2"
    } else if d == 3 {
        "3"
    } else if d == 4 {
        "4"
    } else if d == 5 {
        "5"
    } else if d == 6 {
        "6"
    } else if d == 7 {
        "7"
    } else if d == 8 {
        "8"
    } else {
        "9"
    }
}

fn push_decimal(out: &mut String, n: usize)
    ensures
        final(out)@ == old(out)@ + decimal(n as nat),
    decreases n,
{
    if n >= 10 {
        push_decimal(out, n / 10);
    }
    out.append(digit_str(n % 10));
    assert(final(out)@ =~= old(out)@ + decimal(n as nat));
}

fn push_step(out: &mut String, s: &Step)
    ensures
        final(out)@ == old(out)@ + step_text(*s),
{
    match s {
        Step::Field(name) => {
            out.append(".");
            out.append(name.as_str());
        },
        Step::Index(IndexKey::ByName(name)) => {
            out.append("[\"");
            out.append(name.as_str());
            out.append("\"]");
        },
        Step::Index(IndexKey::ByPosition(i)) => {
            out.append("[");
            push_decimal(out, *i);
            out.append("]");
        },
    }
    proof {
        reveal_strlit(".");
        reveal_strlit("[\"");
        reveal_strlit("\"]");
        reveal_strlit("[");
        reveal_strlit("]");
    }
    assert(final(out)@ =~= old(out)@ + step_text(*s));
}

/// The text of the first `n` steps of `p`.
pub fn path_prefix_text(p: &[Step], n: usize) -> (r: String)
    requires
        n <= p@.len(),
    ensures
        r@ == path_text(p@.take(n as int)),
{
    let mut out = String::new();
    let mut i: usize = 0;
    assert(p@.take(0) =~= Seq::<Step>::empty());
    while i < n
        invariant
            i <= n <= p@.len(),
            out@ == path_text(p@.take(i as int)),
        decreases n - i,
    {
        push_step(&mut out, &p[i]);
        assert(p@.take(i + 1).drop_last() =~= p@.take(i as int));
        i = i + 1;
    }
    out
}

} // verus!
