//! Replaying a session's topics when its connection opens: one run of subscription
//! frames for each kind of channel.

use vstd::prelude::*;
use crate::batch::{chunks, law_chunks_partition};
use crate::kinds::MessageKind;
use crate::session::{topic_models, Topic, TopicModel};
use crate::text::texts;
use crate::translator::{
    channel_of, command_text, frames_of, json_array_text, translate, translated, TranslateError,
    SYMBOL_CEILING,
};

verus! {

/// The kinds of channel, in the order in which their topics are replayed.
pub open spec fn all_kinds() -> Seq<MessageKind> {
    seq![
        MessageKind::Trade,
        MessageKind::L2Book,
        MessageKind::L2BookTopK,
        MessageKind::L2BookAll,
        MessageKind::L3Book,
        MessageKind::BBO,
        MessageKind::Ticker,
        MessageKind::Candlestick,
        MessageKind::FundingRate,
        MessageKind::Other,
    ]
}

/// The place of a kind in [`all_kinds`].
pub open spec fn kind_index(kind: MessageKind) -> int {
    match kind {
        MessageKind::Trade => 0,
        MessageKind::L2Book => 1,
        MessageKind::L2BookTopK => 2,
        MessageKind::L2BookAll => 3,
        MessageKind::L3Book => 4,
        MessageKind::BBO => 5,
        MessageKind::Ticker => 6,
        MessageKind::Candlestick => 7,
        MessageKind::FundingRate => 8,
        MessageKind::Other => 9,
    }
}

fn kind_at(i: usize) -> (kind: MessageKind)
    requires
        i < 10,
    ensures
        kind == all_kinds()[i as int],
{
    if i == 0 {
        MessageKind::Trade
    } else if i == 1 {
        MessageKind::L2Book
    } else if i == 2 {
        MessageKind::L2BookTopK
    } else if i == 3 {
        MessageKind::L2BookAll
    } else if i == 4 {
        MessageKind::L3Book
    } else if i == 5 {
        MessageKind::BBO
    } else if i == 6 {
        MessageKind::Ticker
    } else if i == 7 {
        MessageKind::Candlestick
    } else if i == 8 {
        MessageKind::FundingRate
    } else {
        MessageKind::Other
    }
}

/// Whether a topic is of a kind.
pub open spec fn of_kind(kind: MessageKind) -> spec_fn(TopicModel) -> bool {
    |t: TopicModel| t.kind == kind
}

/// The symbols of the topics of a kind, in the order of the topics.
pub open spec fn symbols_of(topics: Seq<TopicModel>, kind: MessageKind) -> Seq<Seq<char>> {
    topics.filter(of_kind(kind)).map_values(|t: TopicModel| t.symbol)
}

/// The symbols of the topics of a kind.
pub fn collect_symbols(topics: &Vec<Topic>, kind: MessageKind) -> (symbols: Vec<String>)
    ensures
        texts(symbols@) == symbols_of(topic_models(topics@), kind),
{
    let ghost all = topic_models(topics@);
    let ghost pred = of_kind(kind);
    let mut symbols: Vec<String> = Vec::new();
    let mut i: usize = 0;
    assert(all.take(0) =~= Seq::<TopicModel>::empty());
    assert(texts(symbols@) =~= symbols_of(all.take(0), kind));
    while i < topics.len()
        invariant
            i <= topics.len(),
            all == topic_models(topics@),
            pred == of_kind(kind),
            texts(symbols@) == symbols_of(all.take(i as int), kind),
        decreases topics.len() - i,
    {
        let ghost prev = symbols@;
        proof {
            assert(all.take(i + 1) =~= all.take(i as int).push(all[i as int]));
            all.take(i as int).lemma_filter_push(all[i as int], pred);
            assert(all[i as int] == topics@[i as int]@);
        }
        if topics[i].kind == kind {
            symbols.push(topics[i].symbol.clone());
            assert(texts(symbols@) =~= texts(prev).push(topics@[i as int]@.symbol));
            assert(symbols_of(all.take(i + 1), kind) =~= symbols_of(all.take(i as int), kind).push(
                all[i as int].symbol,
            ));
        }
        i += 1;
    }
    assert(all.take(topics.len() as int) =~= all);
    symbols
}

/// The frames that replay the topics of the first `n` kinds: for each kind that has
/// topics, the frames that subscribe to its symbols; the first kind that cannot be put
/// into frames gives its error.
pub open spec fn replayed_upto(topics: Seq<TopicModel>, n: nat) -> Result<
    Seq<Seq<char>>,
    TranslateError,
>
    decreases n,
{
    if n == 0 {
        Ok(Seq::empty())
    } else {
        match replayed_upto(topics, (n - 1) as nat) {
            Err(e) => Err(e),
            Ok(front) => {
                let kind = all_kinds()[n - 1];
                let symbols = symbols_of(topics, kind);
                if symbols.len() == 0 {
                    Ok(front)
                } else {
                    match translated(true, kind, symbols) {
                        Err(e) => Err(e),
                        Ok(frames) => Ok(front + frames),
                    }
                }
            },
        }
    }
}

/// The frames that replay a session's topics.
pub open spec fn replayed(topics: Seq<TopicModel>) -> Result<Seq<Seq<char>>, TranslateError> {
    replayed_upto(topics, 10)
}

/// The frames that subscribe again to every topic of a session.
pub fn replay_frames(topics: &Vec<Topic>) -> (frames: Result<Vec<String>, TranslateError>)
    ensures
        match frames {
            Ok(list) => replayed(topic_models(topics@)) == Ok::<Seq<Seq<char>>, TranslateError>(
                texts(list@),
            ),
            Err(e) => replayed(topic_models(topics@)) == Err::<Seq<Seq<char>>, TranslateError>(e),
        },
{
    let ghost all = topic_models(topics@);
    let mut list: Vec<String> = Vec::new();
    let mut n: usize = 0;
    assert(texts(list@) =~= Seq::<Seq<char>>::empty());
    while n < 10
        invariant
            n <= 10,
            all == topic_models(topics@),
            replayed_upto(all, n as nat) == Ok::<Seq<Seq<char>>, TranslateError>(texts(list@)),
        decreases 10 - n,
    {
        let kind = kind_at(n);
        let symbols = collect_symbols(topics, kind);
        if symbols.len() > 0 {
            match translate(true, kind, &symbols) {
                Err(e) => {
                    proof {
                        lemma_replay_error_stays(all, (n + 1) as nat, 10);
                    }
                    return Err(e);
                },
                Ok(mut more) => {
                    let ghost before = list@;
                    let ghost added = more@;
                    list.append(&mut more);
                    assert(texts(list@) =~= texts(before) + texts(added));
                },
            }
        }
        n += 1;
    }
    Ok(list)
}

/// Once a kind cannot be put into frames, the kinds after it change nothing.
proof fn lemma_replay_error_stays(topics: Seq<TopicModel>, n: nat, m: nat)
    requires
        n <= m,
        replayed_upto(topics, n) is Err,
    ensures
        replayed_upto(topics, m) == replayed_upto(topics, n),
    decreases m,
{
    if n < m {
        lemma_replay_error_stays(topics, n, (m - 1) as nat);
    }
}

/// The frames of a kind's topics are among the frames of a replay that reaches the kind.
proof fn lemma_replay_holds_kind(topics: Seq<TopicModel>, n: nat, kind: MessageKind, i: int)
    requires
        kind_index(kind) < n <= 10,
        replayed_upto(topics, n) is Ok,
        symbols_of(topics, kind).len() > 0,
        translated(true, kind, symbols_of(topics, kind)) is Ok,
        0 <= i < translated(true, kind, symbols_of(topics, kind))->Ok_0.len(),
    ensures
        replayed_upto(topics, n)->Ok_0.contains(
            translated(true, kind, symbols_of(topics, kind))->Ok_0[i],
        ),
    decreases n,
{
    let front = replayed_upto(topics, (n - 1) as nat)->Ok_0;
    let all = replayed_upto(topics, n)->Ok_0;
    let frames = translated(true, kind, symbols_of(topics, kind))->Ok_0;
    if kind_index(kind) == n - 1 {
        assert(all_kinds()[n - 1] == kind);
        assert(all == front + frames);
        assert(all[front.len() + i] == frames[i]);
    } else {
        lemma_replay_holds_kind(topics, (n - 1) as nat, kind, i);
        let k = choose|k: int| 0 <= k < front.len() && front[k] == frames[i];
        assert(all[k] == frames[i]);
    }
}

/// Resubscription, in frames: where the topics of a session can be replayed, each of
/// them is named in a replayed frame. The frame is the subscription on the channel of
/// the topic's kind to one group of that kind's symbols, and the topic's symbol is in
/// that group.
pub proof fn law_replay_names_every_topic(topics: Seq<TopicModel>, topic: TopicModel)
    requires
        topics.contains(topic),
        replayed(topics) is Ok,
    ensures
        channel_of(topic.kind) is Some,
        exists|group: Seq<Seq<char>>|
            {
                &&& group.contains(topic.symbol)
                &&& (#[trigger] json_array_text(group)) is Some
                &&& replayed(topics)->Ok_0.contains(
                    command_text(
                        true,
                        channel_of(topic.kind)->Some_0,
                        json_array_text(group)->Some_0,
                    ),
                )
            },
{
    let kind = topic.kind;
    let of = topics.filter(of_kind(kind));
    let symbols = symbols_of(topics, kind);
    let at = choose|at: int| 0 <= at < topics.len() && topics[at] == topic;
    topics.lemma_filter_contains(of_kind(kind), at);
    let j = choose|j: int| 0 <= j < of.len() && of[j] == topic;
    assert(symbols[j] == topic.symbol);
    lemma_replay_reaches_kind(topics, 10, kind);
    let size = SYMBOL_CEILING as nat;
    let groups = chunks(symbols, size);
    law_chunks_partition(symbols, size, j);
    let q = j / (size as int);
    let group = groups[q];
    assert(group[j % (size as int)] == topic.symbol);
    assert(json_array_text(groups[q]) is Some);
    let frames = translated(true, kind, symbols)->Ok_0;
    assert(frames == frames_of(true, channel_of(kind)->Some_0, groups));
    lemma_replay_holds_kind(topics, 10, kind, q);
}

/// A replay that succeeds has put every kind that has topics into frames.
proof fn lemma_replay_reaches_kind(topics: Seq<TopicModel>, n: nat, kind: MessageKind)
    requires
        kind_index(kind) < n <= 10,
        replayed_upto(topics, n) is Ok,
        symbols_of(topics, kind).len() > 0,
    ensures
        translated(true, kind, symbols_of(topics, kind)) is Ok,
    decreases n,
{
    if kind_index(kind) == n - 1 {
        assert(all_kinds()[n - 1] == kind);
    } else {
        lemma_replay_reaches_kind(topics, (n - 1) as nat, kind);
    }
}

} // verus!
