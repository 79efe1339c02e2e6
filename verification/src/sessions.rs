//! The session store: the table of live sessions. It mints a fresh opaque
//! token for each session it creates and deletes sessions by token; deleting
//! an unknown token is a no-op.

use vstd::prelude::*;

use crate::decimal::dec_digits;
use crate::decimal::lemma_dec_digits_injective;
use crate::decimal::lemma_dec_digits_nonempty;

verus! {

/// One live session: its token, the identifier of the user it was created
/// for, and the issue number the token was minted from.
pub struct SessionRecord {
    pub token: String,
    pub user_uuid: String,
    pub issue: u64,
}

/// The token minted for the `n`-th session ever created.
pub open spec fn token_value(n: nat) -> Seq<char> {
    dec_digits(n)
}

/// Whether some record in `sessions` carries this token.
pub open spec fn has_token(sessions: Seq<SessionRecord>, token: Seq<char>) -> bool {
    exists|i: int| 0 <= i < sessions.len() && sessions[i].token@ == token
}

/// Holds of the sessions that a deletion of `token` keeps.
pub open spec fn keeps(token: Seq<char>) -> spec_fn(SessionRecord) -> bool {
    |r: SessionRecord| r.token@ != token
}

/// The table with every session carrying this token removed; all other
/// sessions are kept, in order.
pub open spec fn remove_token(sessions: Seq<SessionRecord>, token: Seq<char>) -> Seq<
    SessionRecord,
> {
    sessions.filter(keeps(token))
}

/// The session table. Tokens are minted from a monotone issue counter, so a
/// fresh token never collides with any token issued before, deleted or not.
pub struct SessionStore {
    records: Vec<SessionRecord>,
    next_issue: u64,
}

impl View for SessionStore {
    type V = Seq<SessionRecord>;

    closed spec fn view(&self) -> Seq<SessionRecord> {
        self.records@
    }
}

impl SessionStore {
    /// How many sessions this store has ever created.
    pub closed spec fn issued(&self) -> nat {
        self.next_issue as nat
    }

    /// Internal invariant: every live session was minted from an issue number
    /// below the counter, and its token is that number's rendering.
    pub closed spec fn wf(&self) -> bool {
        forall|i: int|
            0 <= i < self.records@.len() ==> (#[trigger] self.records@[i]).issue < self.next_issue
                && self.records@[i].token@ == token_value(self.records@[i].issue as nat)
    }

    /// How many sessions this store has ever created, as a machine integer;
    /// lets a caller rule out counter exhaustion before creating a session.
    pub fn issued_count(&self) -> (count: u64)
        ensures
            count as nat == self.issued(),
    {
        self.next_issue
    }

    /// Creates a session bound to the given user identifier and returns its
    /// token, which is non-empty and distinct from every token issued before.
    pub fn create_session(&mut self, user_uuid: &String) -> (token: String)
        requires
            old(self).wf(),
            old(self).issued() < u64::MAX,
        ensures
            final(self).wf(),
            final(self).issued() == old(self).issued() + 1,
            token@ == token_value(old(self).issued()),
            token@.len() >= 1,
            final(self)@.len() == old(self)@.len() + 1,
            final(self)@.drop_last() == old(self)@,
            final(self)@.last().token@ == token@,
            final(self)@.last().user_uuid@ == user_uuid@,
            forall|j: int| 0 <= j < old(self)@.len() ==> old(self)@[j].token@ != token@,
            has_token(final(self)@, token@),
    {
        let issue = self.next_issue;
        let token = crate::decimal::render_decimal(issue);
        let record = SessionRecord { token: token.clone(), user_uuid: user_uuid.clone(), issue };
        self.records.push(record);
        self.next_issue = issue + 1;
        proof {
            lemma_dec_digits_nonempty(issue as nat);
            assert(self.records@.drop_last() =~= old(self).records@);
            assert forall|j: int| 0 <= j < old(self)@.len() implies old(self)@[j].token@
                != token@ by {
                if old(self)@[j].token@ == token@ {
                    lemma_dec_digits_injective(old(self)@[j].issue as nat, issue as nat);
                }
            }
            assert(self@[self@.len() - 1].token@ == token@);
        }
        token
    }

    /// Deletes every session carrying the given token and keeps all others.
    /// An empty, malformed or never-issued token removes nothing; the request
    /// is accepted either way.
    pub fn delete_session(&mut self, session_token: &String)
        requires
            old(self).wf(),
        ensures
            final(self).wf(),
            final(self).issued() == old(self).issued(),
            final(self)@ == remove_token(old(self)@, session_token@),
    {
        let n = self.records.len();
        let mut kept: Vec<SessionRecord> = Vec::new();
        let mut i: usize = 0;
        proof {
            reveal(Seq::filter);
            assert(old(self).records@.take(0).filter(keeps(session_token@)) =~= Seq::<
                SessionRecord,
            >::empty());
        }
        while i < n
            invariant
                0 <= i <= n,
                n == self.records@.len(),
                self.records@ == old(self).records@,
                self.next_issue == old(self).next_issue,
                self.wf(),
                kept@ == old(self).records@.take(i as int).filter(keeps(session_token@)),
                forall|j: int|
                    0 <= j < kept@.len() ==> (#[trigger] kept@[j]).issue < self.next_issue
                        && kept@[j].token@ == token_value(kept@[j].issue as nat),
            decreases n - i,
        {
            let record = &self.records[i];
            if !record.token.eq(session_token) {
                let copy = SessionRecord {
                    token: record.token.clone(),
                    user_uuid: record.user_uuid.clone(),
                    issue: record.issue,
                };
                kept.push(copy);
                proof {
                    reveal(Seq::filter);
                    let prefix = old(self).records@.take(i as int);
                    let extended = old(self).records@.take(i + 1);
                    assert(extended.drop_last() =~= prefix);
                    assert(extended.last() == old(self).records@[i as int]);
                    assert(copy == old(self).records@[i as int]);
                    assert(kept@ == extended.filter(keeps(session_token@)));
                }
            } else {
                proof {
                    reveal(Seq::filter);
                    let prefix = old(self).records@.take(i as int);
                    let extended = old(self).records@.take(i + 1);
                    assert(extended.drop_last() =~= prefix);
                    assert(extended.last() == old(self).records@[i as int]);
                    assert(!keeps(session_token@)(extended.last()));
                    assert(kept@ == extended.filter(keeps(session_token@)));
                }
            }
            i = i + 1;
        }
        proof {
            assert(old(self).records@.take(n as int) =~= old(self).records@);
        }
        self.records = kept;
    }
}

impl Default for SessionStore {
    /// An empty session table that has issued nothing yet.
    fn default() -> (result: Self)
        ensures
            result@ == Seq::<SessionRecord>::empty(),
            result.issued() == 0,
            result.wf(),
    {
        SessionStore { records: Vec::new(), next_issue: 0 }
    }
}

/// Tokens minted from distinct issue numbers never collide, so every
/// successful sign-in hands out a session token of its own.
pub proof fn lemma_distinct_issues_distinct_tokens(n1: nat, n2: nat)
    requires
        n1 != n2,
    ensures
        token_value(n1) != token_value(n2),
{
    if token_value(n1) == token_value(n2) {
        lemma_dec_digits_injective(n1, n2);
    }
}

/// Removing a token is idempotent: deleting the same token a second time
/// finds nothing left to remove and leaves the table as it was.
pub proof fn lemma_remove_token_idempotent(sessions: Seq<SessionRecord>, token: Seq<char>)
    ensures
        remove_token(remove_token(sessions, token), token) == remove_token(sessions, token),
{
    lemma_filter_all_satisfying(sessions.filter(keeps(token)), keeps(token));
    assert(forall|i: int|
        0 <= i < sessions.filter(keeps(token)).len() ==> keeps(token)(
            #[trigger] sessions.filter(keeps(token))[i],
        )) by {
        assert forall|i: int|
            0 <= i < sessions.filter(keeps(token)).len() implies keeps(token)(
            #[trigger] sessions.filter(keeps(token))[i],
        ) by {
            sessions.lemma_filter_pred(keeps(token), i);
        }
    }
}

/// Filtering keeps a sequence whose members all satisfy the predicate intact.
proof fn lemma_filter_all_satisfying(s: Seq<SessionRecord>, pred: spec_fn(SessionRecord) -> bool)
    ensures
        (forall|i: int| 0 <= i < s.len() ==> pred(#[trigger] s[i])) ==> s.filter(pred) == s,
    decreases s.len(),
{
    reveal(Seq::filter);
    if s.len() > 0 {
        lemma_filter_all_satisfying(s.drop_last(), pred);
        if forall|i: int| 0 <= i < s.len() ==> pred(#[trigger] s[i]) {
            assert(forall|i: int|
                0 <= i < s.drop_last().len() ==> pred(#[trigger] s.drop_last()[i]));
            assert(s.filter(pred) =~= s);
        }
    }
}

} // verus!
