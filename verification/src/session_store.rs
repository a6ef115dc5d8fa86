//! The token blacklist: an append-only set keyed by the literal token
//! string. A token's presence means "no longer valid regardless of signature
//! and expiry"; the store is consulted on every authenticated request.
use vstd::prelude::*;

use crate::auth_model::Token;

verus! {

/// The blacklist of revoked session tokens.
pub struct SessionStore {
    revoked: Vec<String>,
}

impl View for SessionStore {
    type V = Set<Seq<char>>;

    /// The set of revoked token strings.
    closed spec fn view(&self) -> Set<Seq<char>> {
        Set::new(
            |t: Seq<char>|
                exists|i: int| 0 <= i < self.revoked@.len() && self.revoked@[i]@ == t,
        )
    }
}

impl SessionStore {
    /// An empty blacklist.
    pub fn new() -> (r: SessionStore)
        ensures
            r@ == Set::<Seq<char>>::empty(),
    {
        let r = SessionStore { revoked: Vec::new() };
        proof {
            assert(r@ =~= Set::<Seq<char>>::empty());
        }
        r
    }

    /// Record a token as revoked. Revoking a token already on the blacklist
    /// is not an error and leaves the recorded set unchanged.
    pub fn revoke(&mut self, token: &Token)
        ensures
            final(self)@ == old(self)@.insert(token@),
    {
        self.revoked.push(token.0.clone());
        proof {
            let pre = old(self).revoked@;
            let post = self.revoked@;
            assert forall|t: Seq<char>| self@.contains(t) implies old(self)@.insert(
                token@,
            ).contains(t) by {
                let i = choose|i: int| 0 <= i < post.len() && post[i]@ == t;
                if i < pre.len() {
                    assert(pre[i]@ == t);
                } else {
                    assert(post[i] == token.0);
                }
            }
            assert forall|t: Seq<char>| old(self)@.insert(token@).contains(t) implies self@.contains(
                t,
            ) by {
                if old(self)@.contains(t) {
                    let i = choose|i: int| 0 <= i < pre.len() && pre[i]@ == t;
                    assert(post[i]@ == t);
                } else {
                    assert(post[pre.len() as int]@ == t);
                }
            }
            assert(self@ =~= old(self)@.insert(token@));
        }
    }

    /// Whether a token has been revoked.
    pub fn is_revoked(&self, token: &Token) -> (r: bool)
        ensures
            r == self@.contains(token@),
    {
        let n = self.revoked.len();
        let mut i: usize = 0;
        while i < n
            invariant
                n == self.revoked@.len(),
                0 <= i <= n,
                forall|j: int| 0 <= j < i ==> self.revoked@[j]@ != token@,
            decreases n - i,
        {
            if self.revoked[i] == token.0 {
                assert(self.revoked@[i as int]@ == token@);
                return true;
            }
            i += 1;
        }
        false
    }
}

/// Law: revoking a token twice leaves the blacklist exactly as revoking it
/// once does, and the token is revoked after either.
pub proof fn lemma_revoke_idempotent(blacklist: Set<Seq<char>>, token: Seq<char>)
    ensures
        blacklist.insert(token).insert(token) == blacklist.insert(token),
        blacklist.insert(token).contains(token),
{
    assert(blacklist.insert(token).insert(token) =~= blacklist.insert(token));
}

} // verus!
