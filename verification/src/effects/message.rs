//! Effects that write a message.

use vstd::prelude::*;

use crate::effect::Effect;
use crate::effects::iter::affects_in_order;

verus! {

/// [`Effect`] that writes a message `M` at the end of the queue of such messages.
///
/// Can be constructed with [`message_write`].
#[derive(Copy, Clone, Debug, Default, PartialEq, Eq)]
pub struct MessageWrite<M> {
    /// The message data that will be written.
    pub message: M,
}

/// Construct a new [`MessageWrite`] [`Effect`].
pub fn message_write<M>(message: M) -> (effect: MessageWrite<M>)
    ensures
        effect.message == message,
{
    MessageWrite { message }
}

impl<M> Effect for MessageWrite<M> {
    type MutParam = Vec<M>;

    open spec fn applies_to(self, param: Vec<M>) -> bool {
        true
    }

    open spec fn affects(self, before: Vec<M>, after: Vec<M>) -> bool {
        after@ == before@.push(self.message)
    }

    fn affect(self, param: &mut Vec<M>) {
        param.push(self.message);
    }
}

/// The first `n` messages that `effects` write, in order.
pub open spec fn messages<M>(effects: Seq<MessageWrite<M>>, n: nat) -> Seq<M> {
    Seq::new(n, |i: int| effects[i].message)
}

/// The first `n` of a sequence of writes leave their messages at the end of the queue, in
/// the order of the writes.
pub proof fn lemma_writes_in_order_so_far<M>(
    effects: Seq<MessageWrite<M>>,
    n: nat,
    before: Vec<M>,
    after: Vec<M>,
)
    requires
        n <= effects.len(),
        affects_in_order(effects, n, before, after),
    ensures
        after@ == before@ + messages(effects, n),
    decreases n,
{
    if n == 0 {
        assert(after@ =~= before@ + messages(effects, n));
    } else {
        let between = choose|between: Vec<M>|
            affects_in_order(effects, (n - 1) as nat, before, between) && (
            #[trigger] effects[n - 1].affects(between, after));
        lemma_writes_in_order_so_far(effects, (n - 1) as nat, before, between);
        assert(after@ =~= before@ + messages(effects, n));
    }
}

/// Writes that are applied in order leave their messages at the end of the queue, in the
/// order of the writes, and can be applied to any queue.
pub proof fn lemma_writes_in_order<M>(effects: Vec<MessageWrite<M>>, before: Vec<M>, after: Vec<M>)
    ensures
        effects.applies_to(before),
        effects.affects(before, after) ==> after@ == before@ + messages(
            effects@,
            effects@.len(),
        ),
{
    if effects.affects(before, after) {
        lemma_writes_in_order_so_far(effects@, effects@.len(), before, after);
    }
}

} // verus!
