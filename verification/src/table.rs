//! An immutable table of records: an ordered backing array in source-file
//! order plus a token-keyed hash index for point lookup. Duplicate tokens
//! are not rejected; a later row overwrites an earlier one in the index.

use std::collections::HashMap;
use vstd::prelude::*;

use crate::token::Token;

verus! {

broadcast use vstd::std_specs::hash::group_hash_axioms;

/// Everything a table stores keys on its token.
pub trait AsRefToken: Sized {
    spec fn spec_token(&self) -> Token;

    fn as_ref_token(&self) -> (t: Token)
        ensures
            t == self.spec_token(),
    ;
}

/// Some row of `rows` carries token `t`.
pub open spec fn has_token<T: AsRefToken>(rows: Seq<T>, t: Token) -> bool {
    exists|i: int| 0 <= i < rows.len() && #[trigger] rows[i].spec_token() == t
}

/// Position `i` holds the last row of `rows` carrying token `t`.
pub open spec fn points_to_last<T: AsRefToken>(rows: Seq<T>, t: Token, i: usize) -> bool {
    &&& i < rows.len()
    &&& rows[i as int].spec_token() == t
    &&& forall|j: int| i < j < rows.len() ==> #[trigger] rows[j].spec_token() != t
}

/// The record a point lookup returns: the last row carrying the token, or
/// nothing when no row does.
pub open spec fn lookup_rows<T: AsRefToken>(rows: Seq<T>, t: Token) -> Option<T>
    decreases rows.len(),
{
    if rows.len() == 0 {
        None
    } else if rows.last().spec_token() == t {
        Some(rows.last())
    } else {
        lookup_rows(rows.drop_last(), t)
    }
}

/// A lookup finds a record exactly when some row carries the token.
pub proof fn lemma_lookup_some_iff_has<T: AsRefToken>(rows: Seq<T>, t: Token)
    ensures
        lookup_rows(rows, t) is Some <==> has_token(rows, t),
    decreases rows.len(),
{
    if rows.len() > 0 {
        lemma_lookup_some_iff_has(rows.drop_last(), t);
        if rows.last().spec_token() == t {
            assert(rows[rows.len() - 1].spec_token() == t);
        } else if has_token(rows, t) {
            let i = choose|i: int| 0 <= i < rows.len() && #[trigger] rows[i].spec_token() == t;
            if i < rows.len() - 1 {
                assert(rows.drop_last()[i].spec_token() == t);
            }
        }
    }
}

/// The record a lookup returns carries the token it was asked for.
pub proof fn lemma_lookup_token<T: AsRefToken>(rows: Seq<T>, t: Token)
    ensures
        lookup_rows(rows, t) matches Some(rec) ==> rec.spec_token() == t,
    decreases rows.len(),
{
    if rows.len() > 0 && rows.last().spec_token() != t {
        lemma_lookup_token(rows.drop_last(), t);
    }
}

/// A lookup returns the row at the last position carrying the token.
pub proof fn lemma_lookup_at_last<T: AsRefToken>(rows: Seq<T>, t: Token, i: usize)
    requires
        points_to_last(rows, t, i),
    ensures
        lookup_rows(rows, t) == Some(rows[i as int]),
    decreases rows.len(),
{
    if i + 1 == rows.len() {
        assert(rows.last() == rows[i as int]);
    } else {
        assert(rows[rows.len() - 1].spec_token() != t);
        assert(points_to_last(rows.drop_last(), t, i));
        lemma_lookup_at_last(rows.drop_last(), t, i);
    }
}

/// A table of records of one kind: the rows in source order, and a hash
/// index from token to the position of the last row carrying it.
pub struct Table<T> {
    pub data: Vec<T>,
    pub index: HashMap<Token, usize>,
}

impl<T: AsRefToken> Table<T> {
    /// The rows, in source-file order.
    pub open spec fn rows(self) -> Seq<T> {
        self.data@
    }

    /// The index is exactly the token-to-last-position map of the rows.
    pub open spec fn wf(self) -> bool {
        &&& forall|t: Token| self.index@.contains_key(t) <==> has_token(self.rows(), t)
        &&& forall|t: Token| self.index@.contains_key(t) ==> points_to_last(
            self.rows(),
            t,
            #[trigger] self.index@[t],
        )
    }

    fn build_index(data: &Vec<T>) -> (index: HashMap<Token, usize>)
        ensures
            forall|t: Token| index@.contains_key(t) <==> has_token(data@, t),
            forall|t: Token| index@.contains_key(t) ==> points_to_last(
                data@,
                t,
                #[trigger] index@[t],
            ),
    {
        let mut index: HashMap<Token, usize> = HashMap::new();
        let n = data.len();
        let mut i: usize = 0;
        while i < n
            invariant
                i <= n,
                n == data@.len(),
                forall|t: Token| index@.contains_key(t) <==> has_token(data@.take(i as int), t),
                forall|t: Token| index@.contains_key(t) ==> points_to_last(
                    data@.take(i as int),
                    t,
                    #[trigger] index@[t],
                ),
            decreases n - i,
        {
            let tok = data[i].as_ref_token();
            index.insert(tok, i);
            proof {
                let prev = data@.take(i as int);
                let cur = data@.take(i + 1);
                assert(cur =~= prev.push(data@[i as int]));
                assert forall|t: Token| index@.contains_key(t) implies has_token(cur, t) by {
                    if t == tok {
                        assert(cur[i as int].spec_token() == t);
                    } else {
                        let k = choose|k: int|
                            0 <= k < prev.len() && #[trigger] prev[k].spec_token() == t;
                        assert(cur[k].spec_token() == t);
                    }
                }
                assert forall|t: Token| has_token(cur, t) implies index@.contains_key(t) by {
                    let k = choose|k: int| 0 <= k < cur.len() && #[trigger] cur[k].spec_token() == t;
                    if k == i {
                        assert(t == tok);
                    } else {
                        assert(prev[k].spec_token() == t);
                    }
                }
                assert forall|t: Token| index@.contains_key(t) implies points_to_last(
                    cur,
                    t,
                    index@[t],
                ) by {
                    if t == tok {
                        assert(cur[i as int].spec_token() == t);
                    } else {
                        let p = index@[t];
                        assert(points_to_last(prev, t, p));
                        assert(cur[p as int].spec_token() == t);
                        assert forall|j: int| p < j < cur.len() implies #[trigger] cur[j].spec_token()
                            != t by {
                            if j < i {
                                assert(prev[j].spec_token() != t);
                            } else {
                                assert(cur[j].spec_token() == tok);
                            }
                        }
                    }
                }
            }
            i = i + 1;
        }
        proof {
            assert(data@.take(n as int) =~= data@);
        }
        index
    }

    /// Builds the table: the backing array keeps the input order; the index
    /// maps every token that occurs to its last position.
    pub fn new(data: Vec<T>) -> (r: Self)
        ensures
            r.wf(),
            r.rows() == data@,
    {
        let index = Self::build_index(&data);
        Table { data, index }
    }

    /// Point lookup: the last row carrying the token, or nothing.
    pub fn get(&self, token: Token) -> (r: Option<&T>)
        requires
            self.wf(),
        ensures
            match r {
                Some(rec) => lookup_rows(self.rows(), token) == Some(*rec),
                None => !has_token(self.rows(), token),
            },
    {
        match self.index.get(&token) {
            Some(i) => {
                let pos = *i;
                proof {
                    assert(self.index@.contains_key(token) && self.index@[token] == pos);
                    lemma_lookup_at_last(self.rows(), token, pos);
                }
                Some(&self.data[pos])
            },
            None => {
                proof {
                    assert(!self.index@.contains_key(token));
                }
                None
            },
        }
    }

    /// Number of rows.
    pub fn len(&self) -> (n: usize)
        ensures
            n == self.rows().len(),
    {
        self.data.len()
    }

    /// The row at a position, in source-file order.
    pub fn at(&self, i: usize) -> (r: &T)
        requires
            i < self.rows().len(),
        ensures
            *r == self.rows()[i as int],
    {
        &self.data[i]
    }
}

} // verus!
