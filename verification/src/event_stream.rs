//! The event stream: broadcast with subscriptions.
//!
//! Subscribers register and receive a token; publishing an event yields the
//! tokens of every subscription whose level threshold admits it, in
//! subscription order — the handler bodies themselves run outside the
//! engine. Unsubscribing swaps the last entry into the vacated position, so
//! it is constant-time and keeps every other subscription registered.

use vstd::prelude::*;

verus! {

/// One registered subscriber: its token and the least event level it wants.
#[derive(Debug, Clone, Copy, PartialEq, Eq, Structural)]
pub struct Subscription {
    pub token: u64,
    pub min_level: i32,
}

/// Whether some subscription in `s` carries the given token.
pub open spec fn has_token(s: Seq<Subscription>, token: u64) -> bool {
    exists|i: int| 0 <= i < s.len() && s[i].token == token
}

/// A broadcast topic with swap-remove subscriptions.
#[derive(Debug)]
pub struct EventStream {
    pub subscriptions: Vec<Subscription>,
    pub next_token: u64,
}

impl EventStream {
    /// Tokens are handed out once and never reused, so they are distinct.
    pub open spec fn wf(&self) -> bool {
        &&& forall|i: int|
            0 <= i < self.subscriptions@.len() ==> #[trigger] self.subscriptions@[i].token
                < self.next_token
        &&& forall|i: int, j: int|
            0 <= i < j < self.subscriptions@.len() ==> self.subscriptions@[i].token
                != self.subscriptions@[j].token
    }

    /// An empty topic. No token has been handed out yet.
    pub fn new() -> (r: Self)
        ensures
            r.wf(),
            r.subscriptions@ == Seq::<Subscription>::empty(),
            r.next_token == 0,
    {
        EventStream { subscriptions: Vec::new(), next_token: 0 }
    }

    /// Registers a subscriber that takes every event, and returns its
    /// token.
    pub fn subscribe(&mut self) -> (token: u64)
        requires
            old(self).wf(),
            old(self).next_token < u64::MAX,
        ensures
            final(self).wf(),
            final(self).subscriptions@ == old(self).subscriptions@.push(
                Subscription { token, min_level: i32::MIN },
            ),
            token == old(self).next_token,
            !has_token(old(self).subscriptions@, token),
    {
        self.subscribe_with_min_level(i32::MIN)
    }

    /// Registers a subscriber that only takes events at `min_level` or
    /// above, and returns its token.
    pub fn subscribe_with_min_level(&mut self, min_level: i32) -> (token: u64)
        requires
            old(self).wf(),
            old(self).next_token < u64::MAX,
        ensures
            final(self).wf(),
            final(self).subscriptions@ == old(self).subscriptions@.push(
                Subscription { token, min_level },
            ),
            token == old(self).next_token,
            !has_token(old(self).subscriptions@, token),
    {
        let token = self.next_token;
        self.next_token = self.next_token + 1;
        self.subscriptions.push(Subscription { token, min_level });
        token
    }

    /// Whether the subscription behind `token` is still registered.
    pub fn is_active(&self, token: u64) -> (r: bool)
        ensures
            r == has_token(self.subscriptions@, token),
    {
        let mut i: usize = 0;
        while i < self.subscriptions.len()
            invariant
                i <= self.subscriptions@.len(),
                forall|j: int| 0 <= j < i ==> self.subscriptions@[j].token != token,
            decreases self.subscriptions@.len() - i,
        {
            if self.subscriptions[i].token == token {
                return true;
            }
            i = i + 1;
        }
        false
    }

    /// How many subscriptions are registered.
    pub fn length(&self) -> (r: usize)
        ensures
            r == self.subscriptions@.len(),
    {
        self.subscriptions.len()
    }

    /// Removes the subscription behind `token`, swapping the last entry
    /// into its place; every other subscription stays registered.
    pub fn unsubscribe(&mut self, token: u64)
        requires
            old(self).wf(),
        ensures
            final(self).wf(),
            !has_token(final(self).subscriptions@, token),
            forall|t: u64|
                t != token ==> #[trigger] has_token(final(self).subscriptions@, t) == has_token(
                    old(self).subscriptions@,
                    t,
                ),
            final(self).subscriptions@.len() == (if has_token(
                old(self).subscriptions@,
                token,
            ) {
                old(self).subscriptions@.len() as int - 1
            } else {
                old(self).subscriptions@.len() as int
            }),
    {
        let ghost orig = self.subscriptions@;
        let mut i: usize = 0;
        while i < self.subscriptions.len()
            invariant
                i <= self.subscriptions@.len(),
                *self == *old(self),
                old(self).wf(),
                self.subscriptions@ == orig,
                forall|j: int| 0 <= j < i ==> orig[j].token != token,
            decreases self.subscriptions@.len() - i,
        {
            if self.subscriptions[i].token == token {
                self.subscriptions.swap_remove(i);
                proof {
                    let post = self.subscriptions@;
                    assert(post =~= orig.update(i as int, orig.last()).drop_last());
                    assert forall|a: int, b: int|
                        0 <= a < b < post.len() implies post[a].token != post[b].token by {
                        assert(post[a] == if a == i {
                            orig[orig.len() - 1]
                        } else {
                            orig[a]
                        });
                        assert(post[b] == if b == i {
                            orig[orig.len() - 1]
                        } else {
                            orig[b]
                        });
                    }
                    assert forall|t: u64| t != token implies #[trigger] has_token(post, t)
                        == has_token(orig, t) by {
                        if has_token(post, t) {
                            let a = choose|a: int| 0 <= a < post.len() && post[a].token == t;
                            if a == i {
                                assert(orig[orig.len() - 1].token == t);
                            } else {
                                assert(orig[a].token == t);
                            }
                        }
                        if has_token(orig, t) {
                            let a = choose|a: int| 0 <= a < orig.len() && orig[a].token == t;
                            if a == i {
                                assert(orig[i as int].token == token);
                            } else if a == orig.len() - 1 {
                                if (i as int) < post.len() {
                                    assert(post[i as int].token == t);
                                }
                            } else {
                                assert(post[a].token == t);
                            }
                        }
                    }
                    assert forall|a: int|
                        0 <= a < post.len() implies post[a].token != token by {
                        assert(post[a] == if a == i {
                            orig[orig.len() - 1]
                        } else {
                            orig[a]
                        });
                    }
                }
                return ;
            }
            i = i + 1;
        }
    }

    /// Publishes an event at `level`: the tokens of every subscription
    /// whose threshold admits the level, in subscription order. The caller
    /// runs the handlers behind the tokens.
    pub fn publish(&self, level: i32) -> (r: Vec<u64>)
        ensures
            r@ == self.subscriptions@.filter(|s: Subscription| s.min_level <= level).map_values(
                |s: Subscription| s.token,
            ),
    {
        let mut r: Vec<u64> = Vec::new();
        let mut i: usize = 0;
        while i < self.subscriptions.len()
            invariant
                i <= self.subscriptions@.len(),
                r@ == self.subscriptions@.take(i as int).filter(
                    |s: Subscription| s.min_level <= level,
                ).map_values(|s: Subscription| s.token),
            decreases self.subscriptions@.len() - i,
        {
            proof {
                reveal(Seq::filter);
                assert(self.subscriptions@.take(i + 1 as int).drop_last()
                    =~= self.subscriptions@.take(i as int));
            }
            let s = self.subscriptions[i];
            if s.min_level <= level {
                r.push(s.token);
                proof {
                    let pred = |s: Subscription| s.min_level <= level;
                    assert(self.subscriptions@.take(i + 1 as int).filter(pred)
                        =~= self.subscriptions@.take(i as int).filter(pred).push(
                        self.subscriptions@[i as int],
                    ));
                }
            }
            i = i + 1;
        }
        proof {
            assert(self.subscriptions@.take(self.subscriptions@.len() as int)
                =~= self.subscriptions@);
        }
        r
    }

    /// Drops every subscription.
    pub fn clear(&mut self)
        ensures
            final(self).wf(),
            final(self).subscriptions@ == Seq::<Subscription>::empty(),
    {
        self.subscriptions.clear();
    }
}

} // verus!
