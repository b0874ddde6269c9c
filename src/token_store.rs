//! The token pool: three independent FIFO queues of short-lived anti-bot
//! credentials, one per token kind.

use std::collections::VecDeque;
use vstd::prelude::*;

verus! {

broadcast use vstd::seq_lib::group_to_multiset_ensures;

/// The three kinds of rotating credentials that the vendor API asks for.
#[derive(Clone, Copy, Debug, PartialEq, Eq, Structural)]
pub enum TokenKind {
    Ua,
    BxUa,
    BxUmidToken,
}

/// The name under which a kind is stored in a shared key-value store.
pub open spec fn kind_key(kind: TokenKind) -> Seq<char> {
    match kind {
        TokenKind::Ua => "ua"@,
        TokenKind::BxUa => "bx_ua"@,
        TokenKind::BxUmidToken => "bx_umid_token"@,
    }
}

impl TokenKind {
    /// The storage key of this kind: `ua`, `bx_ua` or `bx_umid_token`.
    pub fn key(&self) -> (r: &'static str)
        ensures
            r@ == kind_key(*self),
    {
        match self {
            TokenKind::Ua => "ua",
            TokenKind::BxUa => "bx_ua",
            TokenKind::BxUmidToken => "bx_umid_token",
        }
    }

    /// All kinds, in the order in which a harvesting cycle extracts them.
    pub fn all() -> (r: Vec<TokenKind>)
        ensures
            r@ == seq![TokenKind::BxUmidToken, TokenKind::BxUa, TokenKind::Ua],
    {
        vec![TokenKind::BxUmidToken, TokenKind::BxUa, TokenKind::Ua]
    }
}

/// The error of a pop on a kind whose queue is empty. Callers treat it as
/// retryable.
#[derive(Clone, Copy, Debug, PartialEq, Eq, Structural)]
pub enum PoolError {
    EmptyPool,
}

/// The abstract content of a pool: one queue of token values per kind,
/// oldest first.
pub struct TokenPool {
    pub ua: Seq<Seq<char>>,
    pub bx_ua: Seq<Seq<char>>,
    pub bx_umid_token: Seq<Seq<char>>,
}

impl TokenPool {
    pub open spec fn empty() -> TokenPool {
        TokenPool { ua: Seq::empty(), bx_ua: Seq::empty(), bx_umid_token: Seq::empty() }
    }

    pub open spec fn queue(self, kind: TokenKind) -> Seq<Seq<char>> {
        match kind {
            TokenKind::Ua => self.ua,
            TokenKind::BxUa => self.bx_ua,
            TokenKind::BxUmidToken => self.bx_umid_token,
        }
    }

    pub open spec fn with_queue(self, kind: TokenKind, q: Seq<Seq<char>>) -> TokenPool {
        match kind {
            TokenKind::Ua => TokenPool { ua: q, ..self },
            TokenKind::BxUa => TokenPool { bx_ua: q, ..self },
            TokenKind::BxUmidToken => TokenPool { bx_umid_token: q, ..self },
        }
    }

    /// The pool after `token` is appended to the tail of `kind`'s queue.
    pub open spec fn push(self, kind: TokenKind, token: Seq<char>) -> TokenPool {
        self.with_queue(kind, self.queue(kind).push(token))
    }

    /// The pool after the head of `kind`'s queue is removed (unchanged when
    /// that queue is empty).
    pub open spec fn pop(self, kind: TokenKind) -> TokenPool {
        if self.queue(kind).len() == 0 {
            self
        } else {
            self.with_queue(kind, self.queue(kind).drop_first())
        }
    }

    /// What a pop of `kind` hands out: the head of its queue, if any.
    pub open spec fn head(self, kind: TokenKind) -> Option<Seq<char>> {
        if self.queue(kind).len() == 0 {
            None
        } else {
            Some(self.queue(kind)[0])
        }
    }
}

/// One atomic operation on the pool, as issued by a producer or a consumer.
pub enum PoolOp {
    Push(TokenKind, Seq<char>),
    Pop(TokenKind),
}

pub open spec fn apply_op(p: TokenPool, op: PoolOp) -> TokenPool {
    match op {
        PoolOp::Push(kind, token) => p.push(kind, token),
        PoolOp::Pop(kind) => p.pop(kind),
    }
}

/// The pool after a sequence of operations, applied in order.
pub open spec fn apply_ops(p: TokenPool, ops: Seq<PoolOp>) -> TokenPool
    decreases ops.len(),
{
    if ops.len() == 0 {
        p
    } else {
        apply_op(apply_ops(p, ops.drop_last()), ops.last())
    }
}

/// The tokens of `kind` that the operations push, in order.
pub open spec fn pushed_of(ops: Seq<PoolOp>, kind: TokenKind) -> Seq<Seq<char>>
    decreases ops.len(),
{
    if ops.len() == 0 {
        Seq::empty()
    } else {
        let rest = pushed_of(ops.drop_last(), kind);
        match ops.last() {
            PoolOp::Push(k, token) => if k == kind {
                rest.push(token)
            } else {
                rest
            },
            PoolOp::Pop(_) => rest,
        }
    }
}

/// The tokens of `kind` that the pops among the operations hand out, in
/// the order in which they are handed out.
pub open spec fn delivered_of(p: TokenPool, ops: Seq<PoolOp>, kind: TokenKind) -> Seq<Seq<char>>
    decreases ops.len(),
{
    if ops.len() == 0 {
        Seq::empty()
    } else {
        let rest = delivered_of(p, ops.drop_last(), kind);
        let before = apply_ops(p, ops.drop_last());
        match ops.last() {
            PoolOp::Pop(k) => if k == kind && before.queue(kind).len() > 0 {
                rest.push(before.queue(kind)[0])
            } else {
                rest
            },
            PoolOp::Push(_, _) => rest,
        }
    }
}

/// Conservation: for every kind, what was handed out followed by what is
/// still queued is exactly what was queued at the start followed by what
/// was pushed.
pub proof fn lemma_tokens_conserved(p: TokenPool, ops: Seq<PoolOp>, kind: TokenKind)
    ensures
        delivered_of(p, ops, kind) + apply_ops(p, ops).queue(kind) == p.queue(kind)
            + pushed_of(ops, kind),
    decreases ops.len(),
{
    if ops.len() == 0 {
        assert(p.queue(kind) + Seq::<Seq<char>>::empty() =~= p.queue(kind));
        assert(Seq::<Seq<char>>::empty() + p.queue(kind) =~= p.queue(kind));
    } else {
        let prev = ops.drop_last();
        lemma_tokens_conserved(p, prev, kind);
        let before = apply_ops(p, prev);
        let d = delivered_of(p, prev, kind);
        let q = before.queue(kind);
        match ops.last() {
            PoolOp::Push(k, token) => {
                if k == kind {
                    assert(d + q.push(token) =~= (d + q).push(token));
                    assert(p.queue(kind) + pushed_of(prev, kind).push(token) =~= (p.queue(kind)
                        + pushed_of(prev, kind)).push(token));
                } else {
                    assert(apply_ops(p, ops).queue(kind) =~= q);
                }
            },
            PoolOp::Pop(k) => {
                if k == kind && q.len() > 0 {
                    assert(d.push(q[0]) + q.drop_first() =~= d + q);
                } else {
                    assert(apply_ops(p, ops).queue(kind) =~= q);
                }
            },
        }
    }
}

/// First in, first out: under any sequence of operations, the tokens of a
/// kind are handed out in the order in which they were queued.
pub proof fn lemma_pop_order_is_push_order(p: TokenPool, ops: Seq<PoolOp>, kind: TokenKind)
    ensures
        delivered_of(p, ops, kind).is_prefix_of(p.queue(kind) + pushed_of(ops, kind)),
{
    lemma_tokens_conserved(p, ops, kind);
    let d = delivered_of(p, ops, kind);
    let all = p.queue(kind) + pushed_of(ops, kind);
    assert(d =~= all.subrange(0, d.len() as int)) by {
        assert forall|i: int| 0 <= i < d.len() implies d[i] == all[i] by {
            assert((d + apply_ops(p, ops).queue(kind))[i] == d[i]);
        }
    }
}

/// At-most-once delivery: starting from an empty pool, under any
/// interleaving of pushes and pops, each token value is handed out no more
/// often than it was pushed, so no pushed token reaches two consumers.
pub proof fn lemma_no_double_delivery(ops: Seq<PoolOp>, kind: TokenKind)
    ensures
        delivered_of(TokenPool::empty(), ops, kind).to_multiset().subset_of(
            pushed_of(ops, kind).to_multiset(),
        ),
{
    let p = TokenPool::empty();
    lemma_tokens_conserved(p, ops, kind);
    let d = delivered_of(p, ops, kind);
    let rest = apply_ops(p, ops).queue(kind);
    assert(p.queue(kind) + pushed_of(ops, kind) =~= pushed_of(ops, kind));
    vstd::seq_lib::lemma_multiset_commutative(d, rest);
}

/// A pool of tokens shared by the harvesting cycle (producer) and the
/// workers (consumers). Exclusive access through `&mut` makes each pop
/// atomic; a process that shares one store among threads wraps it in a lock.
pub struct TokenStore {
    ua: VecDeque<String>,
    bx_ua: VecDeque<String>,
    bx_umid_token: VecDeque<String>,
}

pub open spec fn token_values(q: Seq<String>) -> Seq<Seq<char>> {
    q.map_values(|s: String| s@)
}

impl View for TokenStore {
    type V = TokenPool;

    closed spec fn view(&self) -> TokenPool {
        TokenPool {
            ua: token_values(self.ua@),
            bx_ua: token_values(self.bx_ua@),
            bx_umid_token: token_values(self.bx_umid_token@),
        }
    }
}

impl TokenStore {
    /// An empty store.
    pub fn new() -> (r: TokenStore)
        ensures
            r@ == TokenPool::empty(),
    {
        let r = TokenStore { ua: VecDeque::new(), bx_ua: VecDeque::new(), bx_umid_token: VecDeque::new() };
        assert(r@.ua =~= Seq::<Seq<char>>::empty());
        assert(r@.bx_ua =~= Seq::<Seq<char>>::empty());
        assert(r@.bx_umid_token =~= Seq::<Seq<char>>::empty());
        r
    }

    /// Appends `token` to the tail of `kind`'s queue.
    pub fn push(&mut self, kind: TokenKind, token: String)
        ensures
            final(self)@ == old(self)@.push(kind, token@),
    {
        let ghost t = token@;
        match kind {
            TokenKind::Ua => {
                self.ua.push_back(token);
                assert(token_values(self.ua@) =~= token_values(old(self).ua@).push(t));
            },
            TokenKind::BxUa => {
                self.bx_ua.push_back(token);
                assert(token_values(self.bx_ua@) =~= token_values(old(self).bx_ua@).push(t));
            },
            TokenKind::BxUmidToken => {
                self.bx_umid_token.push_back(token);
                assert(token_values(self.bx_umid_token@) =~= token_values(
                    old(self).bx_umid_token@,
                ).push(t));
            },
        }
    }

    /// Removes and returns the head of `kind`'s queue; `EmptyPool` when the
    /// queue holds nothing.
    pub fn pop(&mut self, kind: TokenKind) -> (r: Result<String, PoolError>)
        ensures
            final(self)@ == old(self)@.pop(kind),
            match r {
                Ok(t) => old(self)@.head(kind) == Some(t@),
                Err(e) => e == PoolError::EmptyPool && old(self)@.head(kind) is None,
            },
    {
        let popped = match kind {
            TokenKind::Ua => self.ua.pop_front(),
            TokenKind::BxUa => self.bx_ua.pop_front(),
            TokenKind::BxUmidToken => self.bx_umid_token.pop_front(),
        };
        assert(token_values(self.ua@) =~= if kind == TokenKind::Ua && old(self).ua@.len() > 0 {
            token_values(old(self).ua@).drop_first()
        } else {
            token_values(old(self).ua@)
        });
        assert(token_values(self.bx_ua@) =~= if kind == TokenKind::BxUa && old(self).bx_ua@.len()
            > 0 {
            token_values(old(self).bx_ua@).drop_first()
        } else {
            token_values(old(self).bx_ua@)
        });
        assert(token_values(self.bx_umid_token@) =~= if kind == TokenKind::BxUmidToken && old(
            self,
        ).bx_umid_token@.len() > 0 {
            token_values(old(self).bx_umid_token@).drop_first()
        } else {
            token_values(old(self).bx_umid_token@)
        });
        match popped {
            Some(t) => Ok(t),
            None => Err(PoolError::EmptyPool),
        }
    }

    /// The number of tokens of `kind` currently queued.
    pub fn depth(&self, kind: TokenKind) -> (r: usize)
        ensures
            r == self@.queue(kind).len(),
    {
        match kind {
            TokenKind::Ua => self.ua.len(),
            TokenKind::BxUa => self.bx_ua.len(),
            TokenKind::BxUmidToken => self.bx_umid_token.len(),
        }
    }
}

/// The tokens of `kind` that a harvested batch holds, in order; entries
/// whose extraction failed hold none.
pub open spec fn harvested_of(batch: Seq<(TokenKind, Option<String>)>, kind: TokenKind) -> Seq<
    Seq<char>,
>
    decreases batch.len(),
{
    if batch.len() == 0 {
        Seq::empty()
    } else {
        let rest = harvested_of(batch.drop_last(), kind);
        match batch.last() {
            (k, Some(t)) => if k == kind {
                rest.push(t@)
            } else {
                rest
            },
            (_, None) => rest,
        }
    }
}

impl TokenStore {
    /// Whether `kind` is to be replenished: its depth is below the
    /// low-water mark.
    pub fn needs_refill(&self, kind: TokenKind, low_water: usize) -> (r: bool)
        ensures
            r == (self@.queue(kind).len() < low_water),
    {
        self.depth(kind) < low_water
    }

    /// Pushes a harvested batch, entry by entry: each extracted token joins
    /// the tail of its kind's queue, and a failed extraction of one kind
    /// does not hold back the tokens of the others.
    pub fn store_harvest(&mut self, batch: &Vec<(TokenKind, Option<String>)>)
        ensures
            forall|kind: TokenKind|
                #[trigger] final(self)@.queue(kind) == old(self)@.queue(kind) + harvested_of(
                    batch@,
                    kind,
                ),
    {
        let mut i: usize = 0;
        while i < batch.len()
            invariant
                i <= batch@.len(),
                forall|kind: TokenKind|
                    #[trigger] self@.queue(kind) == old(self)@.queue(kind) + harvested_of(
                        batch@.subrange(0, i as int),
                        kind,
                    ),
            decreases batch@.len() - i,
        {
            let ghost upto = batch@.subrange(0, i + 1);
            assert(upto.drop_last() =~= batch@.subrange(0, i as int));
            assert(upto.last() == batch@[i as int]);
            let ghost before = self@;
            let kind = batch[i].0;
            match &batch[i].1 {
                Some(t) => {
                    self.push(kind, t.clone());
                    assert(batch@[i as int].1 == Some(*t));
                    assert forall|k: TokenKind| #[trigger] self@.queue(k) == old(self)@.queue(k)
                        + harvested_of(upto, k) by {
                        let prefix = batch@.subrange(0, i as int);
                        assert(harvested_of(upto, k) == if k == kind {
                            harvested_of(prefix, k).push(t@)
                        } else {
                            harvested_of(prefix, k)
                        });
                        assert(before.queue(k) == old(self)@.queue(k) + harvested_of(prefix, k));
                        if k != kind {
                            assert(self@.queue(k) == before.queue(k));
                        } else {
                            assert(old(self)@.queue(k) + harvested_of(upto, k) =~= (old(self)@.queue(k)
                                + harvested_of(batch@.subrange(0, i as int), k)).push(t@));
                        }
                    }
                },
                None => {},
            }
            i = i + 1;
        }
        assert(batch@.subrange(0, batch@.len() as int) =~= batch@);
    }
}

} // verus!
