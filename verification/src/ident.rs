//! Identifiers that differ: a source hands out one identifier after the other,
//! and no two identifiers of one source are the same.

use crate::common::{generate_id, generated};
use vstd::prelude::*;
use vstd::string::StringExecFns;

verus! {

/// The character of a decimal digit.
pub open spec fn digit(d: nat) -> char {
    ((d + 48) as u8) as char
}

/// The decimal numeral of `n`, without leading zeros.
pub open spec fn decimal(n: nat) -> Seq<char>
    decreases n,
{
    if n < 10 {
        seq![digit(n)]
    } else {
        decimal(n / 10).push(digit(n % 10))
    }
}

/// That many `+` signs.
pub open spec fn marks(turns: nat) -> Seq<char> {
    Seq::new(turns, |i: int| '+')
}

/// Where a source stands: the text that all its identifiers begin with, how
/// often its counter has run through, and the counter.
pub struct IdState {
    pub base: Seq<char>,
    pub turns: nat,
    pub count: nat,
}

/// The identifier that a source hands out where it stands: the base, a `+`
/// for every turn of the counter, a `-`, and the counter as a decimal numeral.
pub open spec fn id_text(state: IdState) -> Seq<char> {
    state.base + marks(state.turns) + seq!['-'] + decimal(state.count)
}

/// Where a source stands after it has handed out an identifier: the counter
/// is one further, or at its greatest value begins again on the next turn.
pub open spec fn advanced(state: IdState) -> IdState {
    if state.count < u64::MAX {
        IdState { count: state.count + 1, ..state }
    } else {
        IdState { turns: state.turns + 1, count: 0, ..state }
    }
}

/// Whether a source that stood at `earlier` can come to stand at `later`: the
/// base is the same, and the turns and the counter are further on.
pub open spec fn follows(earlier: IdState, later: IdState) -> bool {
    earlier.base == later.base && (earlier.turns < later.turns || (earlier.turns == later.turns
        && earlier.count < later.count))
}

/// A decimal numeral has a digit, and two where the number is ten or more.
pub proof fn lemma_decimal_len(n: nat)
    ensures
        decimal(n).len() >= 1,
        n >= 10 ==> decimal(n).len() >= 2,
    decreases n,
{
    if n >= 10 {
        lemma_decimal_len(n / 10);
    }
}

/// Two numbers with the same decimal numeral are the same number.
pub proof fn lemma_decimal_injective(m: nat, n: nat)
    requires
        decimal(m) == decimal(n),
    ensures
        m == n,
    decreases m,
{
    lemma_decimal_len(m);
    lemma_decimal_len(n);
    if m < 10 && n < 10 {
        assert(decimal(m)[0] == digit(m));
        assert(decimal(n)[0] == digit(n));
        assert(digit(m) as u8 == m + 48);
        assert(digit(n) as u8 == n + 48);
    } else if m >= 10 && n >= 10 {
        let dm = decimal(m / 10);
        let dn = decimal(n / 10);
        assert(decimal(m).drop_last() =~= dm);
        assert(decimal(n).drop_last() =~= dn);
        assert(decimal(m).last() == digit(m % 10));
        assert(decimal(n).last() == digit(n % 10));
        assert(digit(m % 10) as u8 == m % 10 + 48);
        assert(digit(n % 10) as u8 == n % 10 + 48);
        lemma_decimal_injective(m / 10, n / 10);
    } else {
        assert(decimal(m).len() != decimal(n).len());
    }
}

/// No two identifiers of one source are the same: where a source has gone on
/// from one stand to a later one, the identifiers of the two stands differ.
pub proof fn law_identifiers_of_one_source_differ(earlier: IdState, later: IdState)
    requires
        follows(earlier, later),
    ensures
        id_text(earlier) != id_text(later),
{
    let x = id_text(earlier);
    let y = id_text(later);
    let b = earlier.base.len() as int;
    if earlier.turns == later.turns {
        let k = b + earlier.turns + 1;
        assert(x.subrange(k, x.len() as int) =~= decimal(earlier.count));
        assert(y.subrange(k, y.len() as int) =~= decimal(later.count));
        if x == y {
            lemma_decimal_injective(earlier.count, later.count);
        }
    } else {
        let k = b + earlier.turns;
        lemma_decimal_len(earlier.count);
        lemma_decimal_len(later.count);
        assert(x[k] == '-');
        assert(y[k] == marks(later.turns)[earlier.turns as int]);
        assert(y[k] == '+');
    }
}

/// Going on by one step is going on, and going on twice is going on.
pub proof fn law_sources_only_go_on(first: IdState, second: IdState, third: IdState)
    ensures
        follows(first, advanced(first)),
        follows(first, second) && follows(second, third) ==> follows(first, third),
{
}

/// Where a source stands after it has handed out `n` identifiers.
pub open spec fn advanced_by(state: IdState, n: nat) -> IdState
    decreases n,
{
    if n == 0 {
        state
    } else {
        advanced(advanced_by(state, (n - 1) as nat))
    }
}

/// An identifier is never handed out again: whatever a source hands out after
/// an identifier, however much later, is not that identifier.
pub proof fn law_no_identifier_comes_again(state: IdState, n: nat)
    requires
        n >= 1,
    ensures
        follows(state, advanced_by(state, n)),
        id_text(advanced_by(state, n)) != id_text(state),
    decreases n,
{
    let before = advanced_by(state, (n - 1) as nat);
    assert(advanced_by(state, n) == advanced(before));
    if n > 1 {
        law_no_identifier_comes_again(state, (n - 1) as nat);
        law_sources_only_go_on(state, before, advanced(before));
    } else {
        assert(before == state);
        law_sources_only_go_on(state, state, state);
    }
    law_identifiers_of_one_source_differ(state, advanced_by(state, n));
}

/// A source of identifiers. It is held by whoever needs identifiers that
/// differ, and hands out one after the other.
#[derive(Debug)]
pub struct IdSource {
    base: String,
    turns: String,
    count: u64,
}

impl View for IdSource {
    type V = IdState;

    closed spec fn view(&self) -> IdState {
        IdState { base: self.base@, turns: self.turns@.len(), count: self.count as nat }
    }
}

/// The character of the decimal digit `d`.
fn digit_char(d: u8) -> (r: char)
    requires
        d < 10,
    ensures
        r == digit(d as nat),
{
    (d + 48) as char
}

/// The decimal numeral of `n`.
pub fn decimal_of(n: u64) -> (r: Vec<char>)
    ensures
        r@ == decimal(n as nat),
    decreases n,
{
    if n < 10 {
        let mut r: Vec<char> = Vec::new();
        r.push(digit_char(n as u8));
        proof {
            assert(r@ =~= seq![digit(n as nat)]);
        }
        r
    } else {
        let mut r = decimal_of(n / 10);
        r.push(digit_char((n % 10) as u8));
        r
    }
}

impl IdSource {
    #[verifier::type_invariant]
    spec fn well_formed(&self) -> bool {
        self.turns@ == marks(self.turns@.len())
    }

    /// A source whose identifiers begin with `base`.
    pub fn with_base(base: String) -> (r: Self)
        ensures
            r@ == (IdState { base: base@, turns: 0, count: 0 }),
    {
        let turns = String::new();
        proof {
            assert(turns@ =~= marks(0));
        }
        IdSource { base, turns, count: 0 }
    }

    /// A source whose identifiers begin with the reading of the clock.
    pub fn new() -> (r: Self)
        ensures
            generated(r@.base),
            r@.turns == 0,
            r@.count == 0,
    {
        Self::with_base(generate_id())
    }

    /// Hands out the identifier of where the source stands, and goes on.
    pub fn next_id(&mut self) -> (id: String)
        ensures
            id@ == id_text(old(self)@),
            final(self)@ == advanced(old(self)@),
    {
        proof {
            use_type_invariant(&*self);
        }
        let mut id = self.base.clone();
        id.append(self.turns.as_str());
        id.push('-');
        let numeral = decimal_of(self.count);
        let mut i: usize = 0;
        let ghost stem = id@;
        while i < numeral.len()
            invariant
                i <= numeral.len(),
                id@ == stem + numeral@.take(i as int),
            decreases numeral.len() - i,
        {
            proof {
                assert(numeral@.take(i + 1) == numeral@.take(i as int).push(numeral@[i as int]));
            }
            id.push(numeral[i]);
            i = i + 1;
        }
        proof {
            assert(numeral@.take(numeral@.len() as int) == numeral@);
            assert(stem =~= self.base@ + marks(self.turns@.len()) + seq!['-']);
        }
        if self.count < u64::MAX {
            self.count = self.count + 1;
        } else {
            let mut turns = String::new();
            proof {
                assert(turns@ =~= marks(0));
            }
            std::mem::swap(&mut turns, &mut self.turns);
            let ghost before = turns@;
            turns.push('+');
            proof {
                assert(turns@ =~= marks(before.len() + 1));
            }
            self.turns = turns;
            self.count = 0;
        }
        id
    }
}

} // verus!
