//! First-in, first-out queues that carry items from the receiver to those who consume them.
use std::collections::VecDeque;
use vstd::prelude::*;

use crate::item::{Item, ItemView};

verus! {

/// An unbounded queue of items. Its value is the sequence of the items that were sent and not yet
/// received, oldest first.
#[derive(Debug)]
pub struct Channel {
    items: VecDeque<Item>,
}

impl View for Channel {
    type V = Seq<ItemView>;

    closed spec fn view(&self) -> Seq<ItemView> {
        self.items.deep_view()
    }
}

impl DeepView for Channel {
    type V = Seq<ItemView>;

    open spec fn deep_view(&self) -> Seq<ItemView> {
        self@
    }
}

impl Channel {
    /// An empty channel.
    pub fn new() -> (channel: Channel)
        ensures
            channel@ == Seq::<ItemView>::empty(),
    {
        let channel = Channel { items: VecDeque::new() };
        assert(channel@ =~= Seq::<ItemView>::empty());
        channel
    }

    /// Puts an item at the end of the queue.
    pub fn send(&mut self, item: Item)
        ensures
            final(self)@ == old(self)@.push(item@),
    {
        self.items.push_back(item);
        assert(self@ =~= old(self)@.push(item@));
    }

    /// Takes the oldest item out of the queue, if there is one.
    pub fn recv(&mut self) -> (item: Option<Item>)
        ensures
            match item {
                Some(taken) => old(self)@.len() > 0 && taken@ == old(self)@[0] && final(self)@
                    == old(self)@.drop_first(),
                None => old(self)@.len() == 0 && final(self)@ == old(self)@,
            },
    {
        let item = self.items.pop_front();
        assert(item is Some ==> self@ =~= old(self)@.drop_first());
        item
    }
}

/// What the channels hold after each of them was sent the same items.
pub open spec fn all_sent(channels: Seq<Seq<ItemView>>, items: Seq<ItemView>) -> Seq<Seq<ItemView>> {
    channels.map_values(|queue: Seq<ItemView>| queue + items)
}

/// Sends every item to every channel, in order.
pub fn fan_out(items: &Vec<&Item>, senders: &mut Vec<Channel>)
    ensures
        final(senders).deep_view() == all_sent(old(senders).deep_view(), items.deep_view()),
{
    let ghost before = old(senders).deep_view();
    let ghost all = items.deep_view();
    let mut i: usize = 0;
    assert(all.take(0) =~= Seq::<ItemView>::empty());
    while i < items.len()
        invariant
            i <= items.len(),
            all == items.deep_view(),
            senders.len() == before.len(),
            forall|k: int|
                0 <= k < senders.len() ==> #[trigger] senders[k]@ == before[k] + all.take(i as int),
        decreases items.len() - i,
    {
        let mut s: usize = 0;
        while s < senders.len()
            invariant
                i < items.len(),
                s <= senders.len(),
                senders.len() == before.len(),
                all == items.deep_view(),
                forall|k: int|
                    0 <= k < senders.len() ==> #[trigger] senders[k]@ == before[k] + all.take(
                        if k < s {
                            i + 1
                        } else {
                            i as int
                        },
                    ),
            decreases senders.len() - s,
        {
            let ghost mid = senders@;
            senders[s].send(items[i].clone());
            proof {
                assert(all.take(i + 1) =~= all.take(i as int).push(all[i as int]));
                assert forall|k: int| 0 <= k < senders.len() implies #[trigger] senders[k]@ == before[k]
                    + all.take(
                    if k < s + 1 {
                        i + 1
                    } else {
                        i as int
                    },
                ) by {
                    assert(mid[k]@ == before[k] + all.take(
                        if k < s {
                            i + 1
                        } else {
                            i as int
                        },
                    ));
                    if k == s {
                        assert(senders[k]@ =~= before[k] + all.take(i + 1));
                    }
                }
            }
            s += 1;
        }
        i += 1;
    }
    assert(all.take(i as int) =~= all);
    assert(senders.deep_view() =~= all_sent(before, all));
}

/// Every channel gets every item: there are as many channels as before, and each holds what it held,
/// in the same order, followed by all the items, in their order.
pub proof fn law_every_channel_gets_every_item(
    channels: Seq<Seq<ItemView>>,
    items: Seq<ItemView>,
    k: int,
    i: int,
)
    ensures
        all_sent(channels, items).len() == channels.len(),
        0 <= k < channels.len() ==> all_sent(channels, items)[k].len() == channels[k].len()
            + items.len(),
        0 <= k < channels.len() && 0 <= i < channels[k].len() ==> all_sent(channels, items)[k][i]
            == channels[k][i],
        0 <= k < channels.len() && 0 <= i < items.len() ==> all_sent(
            channels,
            items,
        )[k][channels[k].len() + i] == items[i],
{
}

} // verus!
