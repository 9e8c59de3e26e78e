//! The wiring plan of the hash circuit: which column each signal sits in, and
//! which cells the witness fills.
use vstd::prelude::*;

use crate::permutation::supported;
use crate::protocol::Statement;

verus! {

/// The columns of a compiled hash circuit, as indices into the advice, fixed
/// and instance columns in the order the constraint system allocates them.
pub struct MyConfig {
    /// Advice columns of the permutation state.
    pub state: Vec<usize>,
    /// Advice column of the partial S-box.
    pub partial_sbox: usize,
    /// First set of fixed round-constant columns.
    pub rc_a: Vec<usize>,
    /// Second set of fixed round-constant columns.
    pub rc_b: Vec<usize>,
    /// The fixed column that constants are loaded through.
    pub constant: usize,
    /// Advice columns that the message words are loaded into.
    pub input: Vec<usize>,
    /// The instance column that holds the public output.
    pub output: usize,
}

/// `start, start + 1, ..., start + n - 1`.
pub open spec fn columns(start: nat, n: nat) -> Seq<usize> {
    Seq::new(n, |i: int| (start + i) as usize)
}

impl MyConfig {
    /// The layout for a state of `width` elements and a message of `l` words:
    /// state in advice columns `0..width`, partial S-box in advice column
    /// `width`, round constants in fixed columns `0..width` and
    /// `width..2 width`, constants through the first of the second set, the
    /// message in the first `l` state columns, and the output in instance
    /// column 0.
    pub open spec fn is_layout(&self, width: nat, l: nat) -> bool {
        &&& self.state@ == columns(0, width)
        &&& self.partial_sbox == width
        &&& self.rc_a@ == columns(0, width)
        &&& self.rc_b@ == columns(width, width)
        &&& self.constant == width
        &&& self.input@ == columns(0, l)
        &&& self.output == 0
    }
}

fn column_range(start: usize, n: usize) -> (r: Vec<usize>)
    requires
        start + n <= usize::MAX,
    ensures
        r@ == columns(start as nat, n as nat),
{
    let mut r: Vec<usize> = Vec::new();
    let mut i: usize = 0;
    while i < n
        invariant
            i <= n,
            start + n <= usize::MAX,
            r@ == columns(start as nat, i as nat),
        decreases n - i,
    {
        r.push(start + i);
        i = i + 1;
        assert(r@ =~= columns(start as nat, i as nat));
    }
    r
}

/// One cell filled during synthesis.
#[derive(Debug, Clone, Copy)]
pub struct Assignment {
    pub column: usize,
    pub row: usize,
    /// The word that goes in, or `None` where the witness is not known (as in
    /// key generation).
    pub value: Option<[u64; 4]>,
}

/// A hash circuit for a message of a fixed number of words, with or without
/// its witness.
pub struct HashCircuit {
    pub message: Option<Vec<[u64; 4]>>,
    pub output: Option<[u8; 32]>,
}

impl HashCircuit {
    /// The circuit that proves a statement.
    pub fn from_statement(statement: &Statement) -> (r: HashCircuit)
        ensures
            r.message is Some && r.message->Some_0@ == statement.message@,
            r.output == Some(statement.output),
    {
        let mut message: Vec<[u64; 4]> = Vec::new();
        let mut i: usize = 0;
        while i < statement.message.len()
            invariant
                i <= statement.message@.len(),
                message@ == statement.message@.subrange(0, i as int),
            decreases statement.message@.len() - i,
        {
            message.push(statement.message[i]);
            i = i + 1;
            assert(message@ =~= statement.message@.subrange(0, i as int));
        }
        assert(statement.message@.subrange(0, i as int) =~= statement.message@);
        HashCircuit { message: Some(message), output: Some(statement.output) }
    }

    /// The same circuit with every witness value unknown, for key generation.
    pub fn without_witnesses(&self) -> (r: HashCircuit)
        ensures
            r.message is None,
            r.output is None,
    {
        HashCircuit { message: None, output: None }
    }

    /// Lays out the columns for a supported (`width`, `rate`) and a message of
    /// `l <= rate` words; `None` for any other choice.
    pub fn configure(width: usize, rate: usize, l: usize) -> (r: Option<MyConfig>)
        ensures
            r is Some <==> supported(width as nat, rate as nat) && l <= rate,
            r is Some ==> r->Some_0.is_layout(width as nat, l as nat),
    {
        let ok = (width == 3 && rate == 2) || (width == 9 && rate == 8) || (width == 12 && rate
            == 11);
        if !ok || l > rate {
            return None;
        }
        let state = column_range(0, width);
        let rc_a = column_range(0, width);
        let rc_b = column_range(width, width);
        let input = column_range(0, l);
        Some(
            MyConfig {
                state,
                partial_sbox: width,
                rc_a,
                rc_b,
                constant: width,
                input,
                output: 0,
            },
        )
    }

    /// The cells that load the message: word `i` goes in row 0 of the `i`-th
    /// input column, in index order.
    pub fn synthesize(&self, config: &MyConfig) -> (r: Vec<Assignment>)
        requires
            self.message is Some ==> self.message->Some_0@.len() == config.input@.len(),
        ensures
            r@.len() == config.input@.len(),
            forall|i: int|
                0 <= i < r@.len() ==> #[trigger] r@[i] == (Assignment {
                    column: config.input@[i],
                    row: 0,
                    value: match self.message {
                        Some(m) => Some(m@[i]),
                        None => None,
                    },
                }),
    {
        let mut r: Vec<Assignment> = Vec::new();
        let mut i: usize = 0;
        while i < config.input.len()
            invariant
                i <= config.input@.len(),
                self.message is Some ==> self.message->Some_0@.len() == config.input@.len(),
                r@.len() == i,
                forall|j: int|
                    0 <= j < i ==> #[trigger] r@[j] == (Assignment {
                        column: config.input@[j],
                        row: 0,
                        value: match self.message {
                            Some(m) => Some(m@[j]),
                            None => None,
                        },
                    }),
            decreases config.input@.len() - i,
        {
            let value = match &self.message {
                Some(m) => Some(m[i]),
                None => None,
            };
            r.push(Assignment { column: config.input[i], row: 0, value });
            i = i + 1;
        }
        r
    }

    /// The one public cell: row 0 of the output column, which the digest is
    /// constrained to equal.
    pub fn public_cell(config: &MyConfig) -> (r: (usize, usize))
        ensures
            r == (config.output, 0usize),
    {
        (config.output, 0)
    }
}

} // verus!
