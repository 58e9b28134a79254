//! What holds of every run of a session.

use vstd::prelude::*;
use crate::handler::FrameClassModel;
use crate::kinds::{ConnectionState, MessageKind};
use crate::session::{
    added, lemma_step_keeps_wf, removed, stays, step, ActionModel, EventModel, SessionModel,
    TopicModel,
};

verus! {

/// The session after a run of events, and what it answered to each of them.
pub open spec fn run(s: SessionModel, events: Seq<EventModel>) -> (SessionModel, Seq<ActionModel>)
    decreases events.len(),
{
    if events.len() == 0 {
        (s, Seq::empty())
    } else {
        let (before, answers) = run(s, events.drop_last());
        let (after, answer) = step(before, events.last());
        (after, answers.push(answer))
    }
}

/// One data frame for each text.
pub open spec fn data_frames(texts: Seq<Seq<char>>) -> Seq<EventModel> {
    texts.map_values(
        |text: Seq<char>| EventModel::Frame { text, class: FrameClassModel::Data, reconnect: false },
    )
}

/// One forward for each text.
pub open spec fn forwards(texts: Seq<Seq<char>>) -> Seq<ActionModel> {
    texts.map_values(|text: Seq<char>| ActionModel::Forward(text))
}

/// Every run keeps a session well formed.
pub proof fn law_run_keeps_wf(s: SessionModel, events: Seq<EventModel>)
    requires
        s.wf(),
    ensures
        run(s, events).0.wf(),
    decreases events.len(),
{
    if events.len() > 0 {
        law_run_keeps_wf(s, events.drop_last());
        lemma_step_keeps_wf(run(s, events.drop_last()).0, events.last());
    }
}

/// Ordering: an open session forwards every data frame, each once, in the order in
/// which the frames arrived, and stays as it was.
pub proof fn law_data_is_forwarded_in_order(s: SessionModel, texts: Seq<Seq<char>>)
    requires
        s.state == ConnectionState::Open,
        !s.closed,
    ensures
        run(s, data_frames(texts)) == (s, forwards(texts)),
    decreases texts.len(),
{
    if texts.len() == 0 {
        assert(forwards(texts) =~= Seq::<ActionModel>::empty());
    } else {
        law_data_is_forwarded_in_order(s, texts.drop_last());
        assert(data_frames(texts).drop_last() =~= data_frames(texts.drop_last()));
        assert(forwards(texts) =~= forwards(texts.drop_last()).push(
            ActionModel::Forward(texts.last()),
        ));
    }
}

/// One subscription for each list of symbols, all on the channel of one kind.
pub open spec fn subscriptions(kind: MessageKind, lists: Seq<Seq<Seq<char>>>) -> Seq<EventModel> {
    lists.map_values(|symbols: Seq<Seq<char>>| EventModel::Subscribe { kind, symbols })
}

/// One command for each list of symbols.
pub open spec fn commands(kind: MessageKind, lists: Seq<Seq<Seq<char>>>) -> Seq<ActionModel> {
    lists.map_values(
        |symbols: Seq<Seq<char>>| ActionModel::Send { subscribe: true, kind, symbols },
    )
}

/// Outbound ordering: an open session answers every subscription with its command, in
/// the order of the calls, and stays open.
pub proof fn law_commands_go_out_in_call_order(
    s: SessionModel,
    kind: MessageKind,
    lists: Seq<Seq<Seq<char>>>,
)
    requires
        s.state == ConnectionState::Open,
        !s.closed,
    ensures
        run(s, subscriptions(kind, lists)).1 == commands(kind, lists),
        run(s, subscriptions(kind, lists)).0.state == ConnectionState::Open,
        !run(s, subscriptions(kind, lists)).0.closed,
    decreases lists.len(),
{
    if lists.len() == 0 {
        assert(commands(kind, lists) =~= Seq::<ActionModel>::empty());
    } else {
        law_commands_go_out_in_call_order(s, kind, lists.drop_last());
        assert(subscriptions(kind, lists).drop_last() =~= subscriptions(kind, lists.drop_last()));
        assert(commands(kind, lists) =~= commands(kind, lists.drop_last()).push(
            ActionModel::Send { subscribe: true, kind, symbols: lists.last() },
        ));
    }
}

/// A run answers each event once.
pub proof fn lemma_run_len(s: SessionModel, events: Seq<EventModel>)
    ensures
        run(s, events).1.len() == events.len(),
    decreases events.len(),
{
    if events.len() > 0 {
        lemma_run_len(s, events.drop_last());
    }
}

/// Every forward hands on the text of the data frame that it answers: a session
/// forwards nothing that did not arrive, nothing twice, and nothing out of its place.
pub proof fn law_forward_answers_its_frame(s: SessionModel, events: Seq<EventModel>, j: int)
    requires
        0 <= j < events.len(),
        run(s, events).1[j] is Forward,
    ensures
        run(s, events).1.len() == events.len(),
        events[j] is Frame,
        events[j]->Frame_class is Data,
        run(s, events).1[j] == ActionModel::Forward(events[j]->Frame_text),
    decreases events.len(),
{
    lemma_run_len(s, events);
    let front = events.drop_last();
    lemma_run_len(s, front);
    if j < events.len() - 1 {
        assert(run(s, events).1[j] == run(s, front).1[j]);
        assert(front[j] == events[j]);
        law_forward_answers_its_frame(s, front, j);
    }
}

/// The topics that a session holds after the first `i` events of a run.
pub open spec fn topics_after(s: SessionModel, events: Seq<EventModel>, i: int) -> Seq<TopicModel> {
    run(s, events.take(i)).0.topics
}

/// What a run from a session that is not open has reached: if the session is open, the
/// topics that it held when it opened were replayed; and nothing was forwarded before a
/// replay.
spec fn replayed_first(s: SessionModel, events: Seq<EventModel>) -> bool {
    let (after, answers) = run(s, events);
    &&& answers.len() == events.len()
    &&& !after.closed && after.state == ConnectionState::Open ==> exists|i: int|
        0 <= i < answers.len() && answers[i] == ActionModel::Replay(topics_after(s, events, i))
    &&& forall|j: int|
        0 <= j < answers.len() && #[trigger] answers[j] is Forward ==> exists|i: int|
            0 <= i < j && answers[i] == ActionModel::Replay(topics_after(s, events, i))
}

proof fn lemma_replayed_first(s: SessionModel, events: Seq<EventModel>)
    requires
        s.closed || s.state != ConnectionState::Open,
    ensures
        replayed_first(s, events),
    decreases events.len(),
{
    if events.len() > 0 {
        let front = events.drop_last();
        lemma_replayed_first(s, front);
        let (before, answers) = run(s, front);
        let (after, answer) = step(before, events.last());
        let all = answers.push(answer);
        assert(events.take(front.len() as int) =~= front);
        assert forall|i: int| 0 <= i < front.len() implies topics_after(s, events, i)
            == topics_after(s, front, i) by {
            assert(events.take(i) =~= front.take(i));
        }
        if !after.closed && after.state == ConnectionState::Open {
            if !before.closed && before.state == ConnectionState::Open {
                let i = choose|i: int|
                    0 <= i < answers.len() && answers[i] == ActionModel::Replay(
                        topics_after(s, front, i),
                    );
                assert(all[i] == ActionModel::Replay(topics_after(s, events, i)));
            } else {
                assert(all[answers.len() as int] == ActionModel::Replay(
                    topics_after(s, events, answers.len() as int),
                ));
            }
        }
        assert forall|j: int| 0 <= j < all.len() && #[trigger] all[j] is Forward implies exists|
            i: int,
        |
            0 <= i < j && all[i] == ActionModel::Replay(topics_after(s, events, i)) by {
            if j < answers.len() {
                assert(answers[j] is Forward);
                let i = choose|i: int|
                    0 <= i < j && answers[i] == ActionModel::Replay(topics_after(s, front, i));
                assert(all[i] == ActionModel::Replay(topics_after(s, events, i)));
            } else {
                let i = choose|i: int|
                    0 <= i < answers.len() && answers[i] == ActionModel::Replay(
                        topics_after(s, front, i),
                    );
                assert(all[i] == ActionModel::Replay(topics_after(s, events, i)));
            }
        }
    }
}

/// Resubscription: after a failure, and from any other state but open, a session
/// forwards nothing before it has replayed its topics: before every forward stands a
/// replay of all the topics that the session held when the replay was made.
pub proof fn law_replay_precedes_forward(s: SessionModel, events: Seq<EventModel>, j: int)
    requires
        s.closed || s.state != ConnectionState::Open,
        0 <= j < events.len(),
        run(s, events).1[j] is Forward,
    ensures
        exists|i: int|
            0 <= i < j && run(s, events).1[i] == ActionModel::Replay(topics_after(s, events, i)),
{
    lemma_replayed_first(s, events);
}

/// A closed session stays closed, holds what it held, and answers nothing but the end
/// of its transport: it connects to nothing, sends nothing and forwards nothing.
pub proof fn law_closed_session_is_inert(s: SessionModel, events: Seq<EventModel>, j: int)
    requires
        s.closed,
        0 <= j < events.len(),
    ensures
        run(s, events).0.closed,
        run(s, events).0.topics == s.topics,
        run(s, events).1[j] is Idle || run(s, events).1[j] is Exit,
    decreases events.len(),
{
    lemma_inert(s, events);
}

proof fn lemma_inert(s: SessionModel, events: Seq<EventModel>)
    requires
        s.closed,
    ensures
        run(s, events).0.closed,
        run(s, events).0.topics == s.topics,
        run(s, events).1.len() == events.len(),
        forall|j: int|
            0 <= j < events.len() ==> (#[trigger] run(s, events).1[j] is Idle) || run(
                s,
                events,
            ).1[j] is Exit,
    decreases events.len(),
{
    if events.len() > 0 {
        lemma_inert(s, events.drop_last());
    }
}

/// As many close events as `n`.
pub open spec fn closes(n: nat) -> Seq<EventModel> {
    Seq::new(n, |i: int| EventModel::Close)
}

/// Close idempotence: closing a session again changes nothing and is answered with
/// nothing.
pub proof fn law_close_is_idempotent(s: SessionModel, n: nat)
    requires
        n >= 1,
    ensures
        run(s, closes(n)).0 == step(s, EventModel::Close).0,
        run(s, closes(n)).1.len() == n,
        run(s, closes(n)).1[0] == step(s, EventModel::Close).1,
        forall|i: int| 1 <= i < n ==> run(s, closes(n)).1[i] == ActionModel::Idle,
    decreases n,
{
    let front = closes((n - 1) as nat);
    assert(closes(n).drop_last() =~= front);
    assert(closes(n).last() == EventModel::Close);
    let (before, answers) = run(s, front);
    let (after, answer) = step(before, EventModel::Close);
    assert(run(s, closes(n)) == (after, answers.push(answer)));
    if n == 1 {
        assert(front =~= Seq::<EventModel>::empty());
        assert(run(s, front) == (s, Seq::<ActionModel>::empty()));
    } else {
        law_close_is_idempotent(s, (n - 1) as nat);
        assert(before.closed);
        assert(answer == ActionModel::Idle);
    }
}

/// The topics are a set: after a subscription a session holds the topics that it held
/// and those that were asked for, and no others.
pub proof fn law_subscription_adds(
    topics: Seq<TopicModel>,
    kind: MessageKind,
    symbols: Seq<Seq<char>>,
    topic: TopicModel,
)
    ensures
        added(topics, kind, symbols).contains(topic) <==> topics.contains(topic) || (topic.kind
            == kind && symbols.contains(topic.symbol)),
    decreases symbols.len(),
{
    if symbols.len() > 0 {
        let front = symbols.drop_last();
        let before = added(topics, kind, front);
        let last = TopicModel { kind, symbol: symbols.last() };
        law_subscription_adds(topics, kind, front, topic);
        law_subscription_adds(topics, kind, front, last);
        assert(symbols =~= front.push(symbols.last()));
        if topic.kind == kind && symbols.contains(topic.symbol) {
            let k = choose|k: int| 0 <= k < symbols.len() && symbols[k] == topic.symbol;
            if k < front.len() {
                assert(front[k] == topic.symbol);
            } else {
                assert(topic == last);
            }
        }
        if topic.kind == kind && front.contains(topic.symbol) {
            let k = choose|k: int| 0 <= k < front.len() && front[k] == topic.symbol;
            assert(symbols[k] == topic.symbol);
        }
        if before.contains(last) {
        } else {
            let after = before.push(last);
            assert(after[before.len() as int] == last);
            if before.contains(topic) {
                let k = choose|k: int| 0 <= k < before.len() && before[k] == topic;
                assert(after[k] == topic);
            }
            if after.contains(topic) {
                let k = choose|k: int| 0 <= k < after.len() && after[k] == topic;
                if k < before.len() {
                    assert(before[k] == topic);
                }
            }
        }
        if topic == last {
            assert(symbols[symbols.len() - 1] == topic.symbol);
        }
    }
}

/// After the end of a subscription a session holds the topics that it held but for
/// those that were named, and no others.
pub proof fn law_unsubscription_removes(
    topics: Seq<TopicModel>,
    kind: MessageKind,
    symbols: Seq<Seq<char>>,
    topic: TopicModel,
)
    ensures
        removed(topics, kind, symbols).contains(topic) <==> topics.contains(topic) && !(topic.kind
            == kind && symbols.contains(topic.symbol)),
{
    let pred = stays(kind, symbols);
    let kept = removed(topics, kind, symbols);
    if kept.contains(topic) {
        topics.lemma_filter_contains_rev(pred, topic);
        let k = choose|k: int| 0 <= k < kept.len() && kept[k] == topic;
        topics.lemma_filter_pred(pred, k);
    }
    if topics.contains(topic) && pred(topic) {
        let k = choose|k: int| 0 <= k < topics.len() && topics[k] == topic;
        topics.lemma_filter_contains(pred, k);
    }
}

} // verus!
