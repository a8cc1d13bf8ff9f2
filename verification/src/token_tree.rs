use vstd::prelude::*;
use crate::cancellation::TrCancellationToken;
use crate::poll::{Poll, TrPoll};

verus! {

/// What becomes of a token whose parent went away without being cancelled.
#[derive(Debug, Clone, Copy, PartialEq, Eq, Structural)]
pub enum OrphanPolicy {
    /// The token counts as cancelled.
    CancelOnOrphan,
    /// The token stays pending.
    PendOnOrphan,
}

/// One token of a hierarchy.
#[derive(Debug, Clone, Copy, PartialEq, Eq, Structural)]
pub struct TokenNode {
    /// The token that this one was derived from, if any.
    pub parent: Option<usize>,
    /// Whether the signal was given to this very token or, for a token that
    /// went away, had reached it by then.
    pub signalled: bool,
    /// Whether the token went away. Such a token takes no signal any more
    /// and hands none on.
    pub gone: bool,
    /// What the token does once its parent went away without being
    /// cancelled.
    pub policy: OrphanPolicy,
}

/// Every parent was made before its child, so no chain of parents returns
/// to where it began.
pub open spec fn parents_first(s: Seq<TokenNode>) -> bool {
    forall|i: int| 0 <= i < s.len() ==> (#[trigger] s[i].parent matches Some(p) ==> p < i)
}

/// Whether token `i` counts as cancelled. A token that went away keeps what
/// it had when it went. Any other counts as cancelled when the signal was
/// given to it, when its parent counts as cancelled, or when its parent went
/// away and the token's policy takes that for a signal.
pub open spec fn cancelled_at(s: Seq<TokenNode>, i: int) -> bool
    decreases i,
{
    if 0 <= i < s.len() {
        s[i].signalled || (!s[i].gone && match s[i].parent {
            Some(p) => p < i && (cancelled_at(s, p as int) || (s[p as int].gone && s[i].policy
                == OrphanPolicy::CancelOnOrphan)),
            None => false,
        })
    } else {
        false
    }
}

/// Whether token `i` can still receive a signal: it is there and did not go
/// away.
pub open spec fn cancellable_at(s: Seq<TokenNode>, i: int) -> bool {
    0 <= i < s.len() && !s[i].gone
}

/// Whether a signal given to token `i` reaches token `j`: `j` is `i`, or `j`
/// is still there and its parent is reached.
pub open spec fn descends(s: Seq<TokenNode>, j: int, i: int) -> bool
    decreases j,
{
    if 0 <= j < s.len() {
        j == i || (!s[j].gone && match s[j].parent {
            Some(p) => p < j && descends(s, p as int, i),
            None => false,
        })
    } else {
        false
    }
}

/// The hierarchy after the signal was given to token `i`. A token that is
/// not there or went away takes none.
pub open spec fn signal(s: Seq<TokenNode>, i: int) -> Seq<TokenNode> {
    if cancellable_at(s, i) {
        s.update(i, TokenNode { signalled: true, ..s[i] })
    } else {
        s
    }
}

/// The hierarchy after token `i` went away. The token keeps for good what it
/// counts as at that moment.
pub open spec fn leave(s: Seq<TokenNode>, i: int) -> Seq<TokenNode> {
    if cancellable_at(s, i) {
        s.update(i, TokenNode { gone: true, signalled: cancelled_at(s, i), ..s[i] })
    } else {
        s
    }
}

/// Whether `t` is `s` with nothing taken back: the same tokens with the same
/// parents and policies, perhaps more of them, every mark that was set still
/// set, and every token that went away since with what it counted as.
pub open spec fn grows(s: Seq<TokenNode>, t: Seq<TokenNode>) -> bool {
    &&& s.len() <= t.len()
    &&& forall|k: int|
        0 <= k < s.len() ==> {
            &&& (#[trigger] t[k]).parent == s[k].parent
            &&& t[k].policy == s[k].policy
            &&& (s[k].signalled ==> t[k].signalled)
            &&& (s[k].gone ==> t[k].gone)
            &&& (t[k].gone && cancelled_at(s, k) ==> t[k].signalled)
        }
}

/// A token that counts as cancelled does so for good: whatever is signalled,
/// goes away or is derived later, it stays cancelled.
pub proof fn lemma_cancelled_for_good(s: Seq<TokenNode>, t: Seq<TokenNode>, j: int)
    requires
        grows(s, t),
        cancelled_at(s, j),
    ensures
        cancelled_at(t, j),
    decreases j,
{
    assert(t[j].parent == s[j].parent);
    if t[j].gone {
        assert(t[j].signalled);
    } else if s[j].signalled {
        assert(t[j].signalled);
    } else {
        let p = s[j].parent->Some_0;
        if cancelled_at(s, p as int) {
            lemma_cancelled_for_good(s, t, p as int);
        } else {
            assert(t[p as int].gone);
        }
    }
}

/// Each step of a hierarchy's life takes nothing back: a signal, a token
/// that goes away, a token that is derived.
pub proof fn lemma_steps_grow(s: Seq<TokenNode>, i: int)
    ensures
        grows(s, signal(s, i)),
        grows(s, leave(s, i)),
        forall|node: TokenNode| grows(s, #[trigger] s.push(node)),
{
    let t = leave(s, i);
    assert forall|k: int| 0 <= k < s.len() implies {
        &&& (#[trigger] t[k]).parent == s[k].parent
        &&& t[k].policy == s[k].policy
        &&& (s[k].signalled ==> t[k].signalled)
        &&& (s[k].gone ==> t[k].gone)
        &&& (t[k].gone && cancelled_at(s, k) ==> t[k].signalled)
    } by {
        if k == i && cancellable_at(s, i) {
            assert(t[k].signalled == cancelled_at(s, i));
        }
    }
}

/// The signal reaches the token it is given to and every token that
/// descends from it.
pub proof fn lemma_signal_reaches_descendants(s: Seq<TokenNode>, i: int, j: int)
    requires
        cancellable_at(s, i),
        descends(s, j, i),
    ensures
        cancelled_at(signal(s, i), j),
    decreases j,
{
    if j != i {
        let p = s[j].parent->Some_0;
        lemma_signal_reaches_descendants(s, i, p as int);
        assert(signal(s, i)[j] == s[j]);
    } else {
        assert(signal(s, i)[i].signalled);
    }
}

/// The signal changes nothing for a token that does not descend from the
/// one it is given to.
pub proof fn lemma_signal_spares_others(s: Seq<TokenNode>, i: int, j: int)
    requires
        !descends(s, j, i),
    ensures
        cancelled_at(signal(s, i), j) == cancelled_at(s, j),
    decreases j,
{
    if 0 <= j < s.len() && cancellable_at(s, i) {
        assert(signal(s, i)[j] == s[j]);
        if !s[j].gone {
            if let Some(p) = s[j].parent {
                if p < j {
                    assert(!descends(s, p as int, i));
                    assert(p != i);
                    assert(signal(s, i)[p as int] == s[p as int]);
                    lemma_signal_spares_others(s, i, p as int);
                }
            }
        }
    }
}

/// Giving the signal a second time changes nothing, and neither does a
/// signal to a token that went away.
pub proof fn lemma_signal_twice_is_once(s: Seq<TokenNode>, i: int)
    ensures
        signal(signal(s, i), i) == signal(s, i),
        !cancellable_at(s, i) ==> signal(s, i) == s,
        signal(leave(s, i), i) == leave(s, i),
{
    assert(signal(signal(s, i), i) =~= signal(s, i));
}

/// A token that went away changes nothing for itself, and once it is gone
/// it stays as it is.
pub proof fn lemma_leave_keeps(s: Seq<TokenNode>, i: int)
    ensures
        cancelled_at(leave(s, i), i) == cancelled_at(s, i),
        !cancellable_at(leave(s, i), i),
        leave(leave(s, i), i) == leave(s, i),
{
}

/// A token made later changes nothing for those that were there.
pub proof fn lemma_push_keeps(s: Seq<TokenNode>, node: TokenNode, j: int)
    requires
        0 <= j < s.len(),
    ensures
        cancelled_at(s.push(node), j) == cancelled_at(s, j),
    decreases j,
{
    let t = s.push(node);
    assert(t[j] == s[j]);
    if let Some(p) = s[j].parent {
        if p < j {
            assert(t[p as int] == s[p as int]);
            lemma_push_keeps(s, node, p as int);
        }
    }
}

/// A hierarchy of cancellation tokens. A token is named by the index that
/// it was given when it was made.
pub struct CancellationTree {
    nodes: Vec<TokenNode>,
}

impl CancellationTree {
    /// The tokens, in the order in which they were made.
    pub closed spec fn view(&self) -> Seq<TokenNode> {
        self.nodes@
    }

    /// The parents come first.
    pub open spec fn wf(&self) -> bool {
        parents_first(self@)
    }

    /// Whether token `id` counts as cancelled.
    pub open spec fn cancelled(&self, id: usize) -> bool {
        cancelled_at(self@, id as int)
    }

    /// Whether token `id` can still receive a signal.
    pub open spec fn cancellable(&self, id: usize) -> bool {
        cancellable_at(self@, id as int)
    }

    pub fn new() -> (tree: Self)
        ensures
            tree.wf(),
            tree@ == Seq::<TokenNode>::empty(),
    {
        CancellationTree { nodes: Vec::new() }
    }

    /// The number of tokens made so far.
    pub fn len(&self) -> (n: usize)
        ensures
            n == self@.len(),
    {
        self.nodes.len()
    }

    /// Makes a token without a parent.
    pub fn root_token(&mut self) -> (id: usize)
        requires
            old(self).wf(),
        ensures
            final(self).wf(),
            id == old(self)@.len(),
            final(self)@ == old(self)@.push(
                TokenNode {
                    parent: None,
                    signalled: false,
                    gone: false,
                    policy: OrphanPolicy::PendOnOrphan,
                },
            ),
            !final(self).cancelled(id),
            final(self).cancellable(id),
    {
        let id: usize = self.nodes.len();
        self.nodes.push(
            TokenNode {
                parent: None,
                signalled: false,
                gone: false,
                policy: OrphanPolicy::PendOnOrphan,
            },
        );
        id
    }

    /// Makes a token that receives the signal when `parent` does. A token
    /// derived from a cancelled one is cancelled from the start, and so is
    /// one derived from a token that went away, if its policy says so. A
    /// name that no token bears gets no child.
    pub fn child_token(&mut self, parent: usize, policy: OrphanPolicy) -> (r: Option<usize>)
        requires
            old(self).wf(),
        ensures
            final(self).wf(),
            r is Some <==> parent < old(self)@.len(),
            r is None ==> final(self)@ == old(self)@,
            r matches Some(id) ==> {
                &&& id == old(self)@.len()
                &&& final(self)@ == old(self)@.push(
                    TokenNode { parent: Some(parent), signalled: false, gone: false, policy },
                )
                &&& descends(final(self)@, id as int, parent as int)
                &&& final(self).cancellable(id)
                &&& final(self).cancelled(id) == (old(self).cancelled(parent) || (
                    !old(self).cancellable(parent) && policy == OrphanPolicy::CancelOnOrphan))
            },
    {
        if parent >= self.nodes.len() {
            return None;
        }
        let id: usize = self.nodes.len();
        self.nodes.push(TokenNode { parent: Some(parent), signalled: false, gone: false, policy });
        proof {
            let s = old(self)@;
            let t = final(self)@;
            assert(t[parent as int] == s[parent as int]);
            lemma_push_keeps(s, t[id as int], parent as int);
            assert(descends(t, parent as int, parent as int));
        }
        Some(id)
    }

    /// Gives the signal to token `id`, and so to every token that descends
    /// from it. Tokens that counted as cancelled still do. A name that no
    /// token bears and a token that went away are ignored.
    pub fn cancel(&mut self, id: usize)
        requires
            old(self).wf(),
        ensures
            final(self).wf(),
            final(self)@ == signal(old(self)@, id as int),
            old(self).cancellable(id) ==> final(self).cancelled(id),
            forall|j: usize| old(self).cancelled(j) ==> final(self).cancelled(j),
            forall|j: usize|
                old(self).cancellable(id) && descends(old(self)@, j as int, id as int)
                    ==> #[trigger] final(self).cancelled(j),
            forall|j: usize|
                !descends(old(self)@, j as int, id as int) ==> #[trigger] final(self).cancelled(j)
                    == old(self).cancelled(j),
    {
        if id < self.nodes.len() {
            let node = self.nodes[id];
            if !node.gone {
                self.nodes.set(id, TokenNode { signalled: true, ..node });
            }
        }
        proof {
            let s = old(self)@;
            let t = final(self)@;
            assert(t =~= signal(s, id as int));
            lemma_steps_grow(s, id as int);
            assert forall|j: usize| old(self).cancelled(j) implies final(self).cancelled(j) by {
                lemma_cancelled_for_good(s, t, j as int);
            }
            assert forall|j: usize|
                old(self).cancellable(id) && descends(
                    s,
                    j as int,
                    id as int,
                ) implies #[trigger] final(self).cancelled(j) by {
                lemma_signal_reaches_descendants(s, id as int, j as int);
            }
            assert forall|j: usize| !descends(s, j as int, id as int) implies 
                #[trigger] final(self).cancelled(j) == old(self).cancelled(j) by {
                lemma_signal_spares_others(s, id as int, j as int);
            }
        }
    }

    /// Marks token `id` as gone. It keeps what it counted as; its children
    /// fare by their policy. Tokens that counted as cancelled still do. A
    /// name that no token bears is ignored.
    pub fn release(&mut self, id: usize)
        requires
            old(self).wf(),
        ensures
            final(self).wf(),
            final(self)@ == leave(old(self)@, id as int),
            !final(self).cancellable(id),
            forall|j: usize| old(self).cancelled(j) ==> final(self).cancelled(j),
    {
        if id < self.nodes.len() {
            let node = self.nodes[id];
            if !node.gone {
                let signalled = self.is_cancelled(id);
                self.nodes.set(id, TokenNode { gone: true, signalled, ..node });
            }
        }
        proof {
            let s = old(self)@;
            let t = final(self)@;
            assert(t =~= leave(s, id as int));
            lemma_steps_grow(s, id as int);
            assert forall|j: usize| old(self).cancelled(j) implies final(self).cancelled(j) by {
                lemma_cancelled_for_good(s, t, j as int);
            }
        }
    }

    /// Tests whether token `id` has received the signal, itself or through
    /// the tokens it is derived from.
    pub fn is_cancelled(&self, id: usize) -> (b: bool)
        requires
            self.wf(),
        ensures
            b == self.cancelled(id),
    {
        if id >= self.nodes.len() {
            return false;
        }
        let mut i: usize = id;
        loop
            invariant
                self.wf(),
                i < self.nodes.len(),
                self.cancelled(id) == self.cancelled(i),
            decreases i,
        {
            let node = self.nodes[i];
            if node.signalled {
                return true;
            }
            if node.gone {
                return false;
            }
            match node.parent {
                None => {
                    return false;
                },
                Some(p) => {
                    if self.nodes[p].gone && node.policy == OrphanPolicy::CancelOnOrphan {
                        return true;
                    }
                    i = p;
                },
            }
        }
    }

    /// Token `id` as its observers see it, for as long as the hierarchy is
    /// left untouched.
    pub fn token(&self, id: usize) -> (token: TokenRef<'_>)
        requires
            self.wf(),
        ensures
            token.tree() == *self,
            token.id() == id,
    {
        TokenRef { tree: self, id }
    }

    /// Tests whether token `id` can still receive a signal.
    pub fn can_be_cancelled(&self, id: usize) -> (b: bool)
        ensures
            b == self.cancellable(id),
    {
        id < self.nodes.len() && !self.nodes[id].gone
    }

    /// One step of the wait for token `id`'s signal: ready once the token
    /// counts as cancelled, and from then on at every step.
    pub fn cancellation(&self, id: usize) -> (p: Poll<()>)
        requires
            self.wf(),
        ensures
            p is Ready <==> self.cancelled(id),
    {
        if self.is_cancelled(id) {
            Poll::Ready(())
        } else {
            Poll::Pending
        }
    }
}

/// The wait for a signal that either was given or cannot be given while the
/// wait lasts.
#[derive(Debug, Clone, Copy, PartialEq, Eq, Structural)]
pub struct Signal {
    given: bool,
}

impl Signal {
    /// Whether the signal was given.
    pub closed spec fn given(&self) -> bool {
        self.given
    }
}

impl TrPoll for Signal {
    type Output = ();

    open spec fn pollable(&self) -> bool {
        true
    }

    open spec fn outcome(&self) -> Poll<()> {
        if self.given() {
            Poll::Ready(())
        } else {
            Poll::Pending
        }
    }

    open spec fn next(&self) -> Self {
        *self
    }

    fn poll(&mut self) -> (p: Poll<()>) {
        if self.given {
            Poll::Ready(())
        } else {
            Poll::Pending
        }
    }
}

/// A token of a hierarchy as its observers see it. An observer can test the
/// token and wait for its signal; to give the signal takes the hierarchy.
#[derive(Clone, Copy)]
pub struct TokenRef<'t> {
    tree: &'t CancellationTree,
    id: usize,
}

impl<'t> TokenRef<'t> {
    #[verifier::type_invariant]
    spec fn inv(&self) -> bool {
        self.tree.wf()
    }

    /// The hierarchy that the token belongs to.
    pub closed spec fn tree(&self) -> CancellationTree {
        *self.tree
    }

    /// The token's name in its hierarchy.
    pub closed spec fn id(&self) -> usize {
        self.id
    }
}

impl<'t> TrCancellationToken for TokenRef<'t> {
    type Cancellation = Signal;

    open spec fn cancelled(&self) -> bool {
        self.tree().cancelled(self.id())
    }

    open spec fn cancellable(&self) -> bool {
        self.tree().cancellable(self.id())
    }

    fn is_cancelled(&self) -> (b: bool) {
        proof {
            use_type_invariant(self);
        }
        self.tree.is_cancelled(self.id)
    }

    fn can_be_cancelled(&self) -> (b: bool) {
        self.tree.can_be_cancelled(self.id)
    }

    /// One more observer of the same token.
    fn child_token(&self) -> (child: Self)
        ensures
            child == *self,
    {
        *self
    }

    fn cancellation(&mut self) -> (wait: Signal)
        ensures
            *final(self) == *old(self),
            wait.given() == old(self).cancelled(),
    {
        proof {
            use_type_invariant(&*self);
        }
        Signal { given: self.tree.is_cancelled(self.id) }
    }
}

} // verus!
