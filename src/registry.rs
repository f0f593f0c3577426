//! Bookkeeping of the substreams handed out and of their destruction.

use vstd::prelude::*;

verus! {

/// Where one substream stands, as seen by its multiplexer.
#[derive(Clone, Copy, Debug, PartialEq, Eq, Structural)]
pub enum Entry {
    /// Handed out and not yet destroyed.
    Live,
    /// Destroyed; the multiplexer has not drained the signal yet.
    Signalled,
    /// Destroyed, and the signal was drained.
    Observed,
}

/// Number of entries whose destruction has not been observed yet.
pub open spec fn live_count(s: Seq<Entry>) -> nat
    decreases s.len(),
{
    if s.len() == 0 {
        0
    } else {
        live_count(s.drop_last()) + if s.last() == Entry::Observed { 0nat } else { 1nat }
    }
}

/// Some substream handed out has not been destroyed.
pub open spec fn has_live(s: Seq<Entry>) -> bool {
    exists|i: int| 0 <= i < s.len() && s[i] == Entry::Live
}

/// A new substream is registered under the next token.
pub open spec fn register_model(s: Seq<Entry>) -> Seq<Entry> {
    s.push(Entry::Live)
}

/// A destruction signal counts only for a live token.
pub open spec fn signal_model(s: Seq<Entry>, token: usize) -> Seq<Entry> {
    if token < s.len() && s[token as int] == Entry::Live {
        s.update(token as int, Entry::Signalled)
    } else {
        s
    }
}

/// Draining observes every pending destruction signal.
pub open spec fn drain_model(s: Seq<Entry>) -> Seq<Entry> {
    s.map_values(|e: Entry| if e == Entry::Signalled { Entry::Observed } else { e })
}

pub proof fn lemma_live_count_bound(s: Seq<Entry>)
    ensures
        live_count(s) <= s.len(),
    decreases s.len(),
{
    if s.len() > 0 {
        lemma_live_count_bound(s.drop_last());
    }
}

pub proof fn lemma_live_count_update(s: Seq<Entry>, i: int, e: Entry)
    requires
        0 <= i < s.len(),
    ensures
        live_count(s.update(i, e)) + (if s[i] == Entry::Observed { 0nat } else { 1nat })
            == live_count(s) + (if e == Entry::Observed { 0nat } else { 1nat }),
    decreases s.len(),
{
    let t = s.update(i, e);
    if i == s.len() - 1 {
        assert(t.drop_last() =~= s.drop_last());
    } else {
        assert(t.drop_last() =~= s.drop_last().update(i, e));
        lemma_live_count_update(s.drop_last(), i, e);
    }
}

/// No entry is unobserved exactly when every entry is observed.
pub proof fn lemma_live_count_zero(s: Seq<Entry>)
    ensures
        live_count(s) == 0 <==> forall|i: int| 0 <= i < s.len() ==> s[i] == Entry::Observed,
    decreases s.len(),
{
    if s.len() > 0 {
        lemma_live_count_zero(s.drop_last());
        if live_count(s) == 0 {
            assert forall|i: int| 0 <= i < s.len() implies s[i] == Entry::Observed by {
                if i < s.len() - 1 {
                    assert(s[i] == s.drop_last()[i]);
                }
            }
        }
        if forall|i: int| 0 <= i < s.len() ==> s[i] == Entry::Observed {
            assert forall|i: int| 0 <= i < s.drop_last().len() implies s.drop_last()[i] == Entry::Observed by {
                assert(s[i] == s.drop_last()[i]);
            }
            assert(s.last() == s[s.len() - 1]);
        }
    }
}

/// Tokens of the substreams handed out, each with where it stands.
/// Tokens are indices, issued in order from zero.
pub struct DropRegistry {
    entries: Vec<Entry>,
    outstanding: usize,
}

impl View for DropRegistry {
    type V = Seq<Entry>;

    closed spec fn view(&self) -> Seq<Entry> {
        self.entries@
    }
}

impl DropRegistry {
    pub closed spec fn wf(&self) -> bool {
        self.outstanding == live_count(self.entries@)
    }

    pub fn new() -> (r: Self)
        ensures
            r.wf(),
            r@ == Seq::<Entry>::empty(),
    {
        DropRegistry { entries: Vec::new(), outstanding: 0 }
    }

    /// Number of substreams handed out whose destruction has not been
    /// observed by a drain.
    pub fn len(&self) -> (r: usize)
        requires
            self.wf(),
        ensures
            r == live_count(self@),
    {
        self.outstanding
    }

    /// Registers a new substream and returns its token.
    pub fn register(&mut self) -> (token: usize)
        requires
            old(self).wf(),
            old(self)@.len() < usize::MAX,
        ensures
            final(self).wf(),
            token == old(self)@.len(),
            final(self)@ == register_model(old(self)@),
    {
        proof {
            lemma_live_count_bound(self.entries@);
        }
        let token = self.entries.len();
        self.entries.push(Entry::Live);
        proof {
            assert(self.entries@.drop_last() =~= old(self).entries@);
        }
        self.outstanding = self.outstanding + 1;
        token
    }

    /// Records that the substream of `token` was destroyed. Returns whether
    /// the signal counted: a second signal for one token is ignored.
    pub fn signal(&mut self, token: usize) -> (accepted: bool)
        requires
            old(self).wf(),
        ensures
            final(self).wf(),
            accepted == (token < old(self)@.len() && old(self)@[token as int] == Entry::Live),
            final(self)@ == signal_model(old(self)@, token),
    {
        if token < self.entries.len() && self.entries[token] == Entry::Live {
            proof {
                lemma_live_count_update(self.entries@, token as int, Entry::Signalled);
            }
            self.entries.set(token, Entry::Signalled);
            true
        } else {
            false
        }
    }

    /// Whether some substream handed out has not been destroyed.
    pub fn any_live(&self) -> (r: bool)
        ensures
            r == has_live(self@),
    {
        let n = self.entries.len();
        let mut i: usize = 0;
        while i < n
            invariant
                n == self.entries@.len(),
                i <= n,
                forall|j: int| 0 <= j < i ==> self.entries@[j] != Entry::Live,
            decreases n - i,
        {
            if self.entries[i] == Entry::Live {
                return true;
            }
            i = i + 1;
        }
        false
    }

    /// Observes every pending destruction signal.
    pub fn drain(&mut self)
        requires
            old(self).wf(),
        ensures
            final(self).wf(),
            final(self)@ == drain_model(old(self)@),
    {
        let n = self.entries.len();
        let mut i: usize = 0;
        while i < n
            invariant
                self.wf(),
                n == self.entries@.len(),
                n == old(self)@.len(),
                i <= n,
                forall|j: int| 0 <= j < i ==> self.entries@[j] == drain_model(old(self)@)[j],
                forall|j: int| i <= j < n ==> self.entries@[j] == old(self)@[j],
            decreases n - i,
        {
            if self.entries[i] == Entry::Signalled {
                proof {
                    lemma_live_count_update(self.entries@, i as int, Entry::Observed);
                }
                self.entries.set(i, Entry::Observed);
                self.outstanding = self.outstanding - 1;
            }
            i = i + 1;
        }
        assert(self.entries@ =~= drain_model(old(self)@));
    }
}

} // verus!
