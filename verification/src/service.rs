//! Serving many clients at once: who is taken in, what ends the service, and what each client gets.
use crate::failure::{Failure, FailureView};
use crate::stream;
use crate::stream::DeliveryView;
use vstd::prelude::*;

verus! {

/// What the service hears of, over texts `T`.
#[derive(Debug, PartialEq, Eq)]
pub enum ServeEventOf<T> {
    /// A client was accepted.
    Accepted,
    /// No client can be accepted; the text says why.
    AcceptFailed(T),
    /// The connection of a client is over, whatever ended it.
    ClientEnded,
    /// The user asks for an end.
    Signalled,
    /// The signals of the user cannot be listened for; the text says why.
    SignalFailed(T),
}

pub type ServeEvent = ServeEventOf<String>;

pub type ServeEventView = ServeEventOf<Seq<char>>;

impl View for ServeEvent {
    type V = ServeEventView;

    open spec fn view(&self) -> ServeEventView {
        match self {
            ServeEvent::Accepted => ServeEventView::Accepted,
            ServeEvent::AcceptFailed(cause) => ServeEventView::AcceptFailed(cause@),
            ServeEvent::ClientEnded => ServeEventView::ClientEnded,
            ServeEvent::Signalled => ServeEventView::Signalled,
            ServeEvent::SignalFailed(cause) => ServeEventView::SignalFailed(cause@),
        }
    }
}

/// What the service does, over failures `F`.
#[derive(Debug, PartialEq, Eq)]
pub enum ServeActionOf<F> {
    /// Hand the new client the updates from now on, beside the other clients, and go on.
    Attend,
    /// Go on.
    GoOn,
    /// End with success.
    Finish,
    /// End with a failure.
    Fail(F),
}

pub type ServeAction = ServeActionOf<Failure>;

pub type ServeActionView = ServeActionOf<FailureView>;

impl View for ServeAction {
    type V = ServeActionView;

    open spec fn view(&self) -> ServeActionView {
        match self {
            ServeAction::Attend => ServeActionView::Attend,
            ServeAction::GoOn => ServeActionView::GoOn,
            ServeAction::Finish => ServeActionView::Finish,
            ServeAction::Fail(failure) => ServeActionView::Fail(failure@),
        }
    }
}

/// What the service does upon an event.
pub open spec fn reaction(event: ServeEventView) -> ServeActionView {
    match event {
        ServeEventView::Accepted => ServeActionView::Attend,
        ServeEventView::AcceptFailed(cause) => ServeActionView::Fail(
            FailureView::AcceptFailed(cause),
        ),
        ServeEventView::ClientEnded => ServeActionView::GoOn,
        ServeEventView::Signalled => ServeActionView::Finish,
        ServeEventView::SignalFailed(cause) => ServeActionView::Fail(
            FailureView::SignalFailed(cause),
        ),
    }
}

/// What to do upon an event.
pub fn accept_loop(event: ServeEvent) -> (action: ServeAction)
    ensures
        action@ == reaction(event@),
{
    match event {
        ServeEvent::Accepted => ServeAction::Attend,
        ServeEvent::AcceptFailed(cause) => ServeAction::Fail(Failure::AcceptFailed(cause)),
        ServeEvent::ClientEnded => ServeAction::GoOn,
        ServeEvent::Signalled => ServeAction::Finish,
        ServeEvent::SignalFailed(cause) => ServeAction::Fail(Failure::SignalFailed(cause)),
    }
}

/// One thing that happens while the daemon serves. Clients are told apart by numbers.
pub enum Happening {
    /// TDLib handed out an update.
    Published(Seq<char>),
    /// A client connected.
    Joined(nat),
    /// A client got the next of the updates that are there for it.
    Took(nat),
    /// A client got a delivery that is no update: it lagged, or could not be written to.
    Ended(nat, DeliveryView),
    /// No client could be accepted.
    AcceptFailed(Seq<char>),
    /// The user asked for an end.
    Signalled,
    /// The signals of the user could not be listened for.
    SignalFailed(Seq<char>),
}

impl Happening {
    /// What the service hears of this.
    pub open spec fn event(self) -> Option<ServeEventView> {
        match self {
            Happening::Joined(_) => Some(ServeEventView::Accepted),
            Happening::Ended(_, _) => Some(ServeEventView::ClientEnded),
            Happening::AcceptFailed(cause) => Some(ServeEventView::AcceptFailed(cause)),
            Happening::Signalled => Some(ServeEventView::Signalled),
            Happening::SignalFailed(cause) => Some(ServeEventView::SignalFailed(cause)),
            Happening::Published(_) | Happening::Took(_) => None,
        }
    }

    /// Whether this happens to `client`.
    pub open spec fn befalls(self, client: nat) -> bool {
        match self {
            Happening::Joined(number) => number == client,
            Happening::Took(number) => number == client,
            Happening::Ended(number, _) => number == client,
            _ => false,
        }
    }
}

/// All updates that were handed out, in order.
pub open spec fn published(history: Seq<Happening>) -> Seq<Seq<char>>
    decreases history.len(),
{
    if history.len() == 0 {
        Seq::empty()
    } else {
        match history.last() {
            Happening::Published(update) => published(history.drop_last()).push(update),
            _ => published(history.drop_last()),
        }
    }
}

/// How the service came to its end, where it did: by the first event that makes it end.
pub open spec fn service_end(history: Seq<Happening>) -> Option<Result<(), FailureView>>
    decreases history.len(),
{
    if history.len() == 0 {
        None
    } else {
        match (service_end(history.drop_last()), history.last().event()) {
            (Some(end), _) => Some(end),
            (None, None) => None,
            (None, Some(event)) => match reaction(event) {
                ServeActionView::Attend | ServeActionView::GoOn => None,
                ServeActionView::Finish => Some(Ok(())),
                ServeActionView::Fail(failure) => Some(Err(failure)),
            },
        }
    }
}

/// Where a client stands: how many updates had been handed out when it joined, how many had been
/// when the next one for it was, and what ended its connection, where that is over.
pub struct Standing {
    pub joined: nat,
    pub next: nat,
    pub end: Option<DeliveryView>,
}

/// Where `client` stands after all this, where it was taken in. One that connects is taken in
/// while the service goes on.
pub open spec fn standing(history: Seq<Happening>, client: nat) -> Option<Standing>
    decreases history.len(),
{
    if history.len() == 0 {
        None
    } else {
        let before = history.drop_last();
        match (standing(before, client), history.last()) {
            (None, Happening::Joined(number)) => if number == client && service_end(
                before,
            ) is None {
                let position = published(before).len();
                Some(Standing { joined: position, next: position, end: None })
            } else {
                None
            },
            (Some(held), Happening::Took(number)) => if number == client && held.end is None
                && held.next < published(before).len() {
                Some(Standing { next: held.next + 1, ..held })
            } else {
                Some(held)
            },
            (Some(held), Happening::Ended(number, delivery)) => if number == client
                && held.end is None && stream::written_for(delivery) is None {
                Some(Standing { end: Some(delivery), ..held })
            } else {
                Some(held)
            },
            (held, _) => held,
        }
    }
}

/// What a client that stands here got: the updates from the one on that followed its joining, and
/// what ended its connection.
pub open spec fn deliveries(updates: Seq<Seq<char>>, standing: Standing) -> Seq<DeliveryView> {
    updates.subrange(standing.joined as int, standing.next as int).map_values(
        |update: Seq<char>| DeliveryView::Update(update),
    ) + match standing.end {
        Some(delivery) => seq![delivery],
        None => Seq::empty(),
    }
}

/// All bytes that are handed to `client`.
pub open spec fn handed_to(history: Seq<Happening>, client: nat) -> Seq<u8> {
    match standing(history, client) {
        Some(held) => stream::client_stream(deliveries(published(history), held)),
        None => Seq::empty(),
    }
}

/// The same, with nothing of it happening to `client`.
pub open spec fn without(history: Seq<Happening>, client: nat) -> Seq<Happening>
    decreases history.len(),
{
    if history.len() == 0 {
        history
    } else if history.last().befalls(client) {
        without(history.drop_last(), client)
    } else {
        without(history.drop_last(), client).push(history.last())
    }
}

/// Clients do not disturb each other: whatever happens to one, that it joins, lags, cannot be
/// written to or goes, every other one stands where it would stand without it and is handed the
/// same bytes, and the service goes on, or ends, as it would without it.
pub proof fn clients_do_not_disturb_each_other(history: Seq<Happening>, one: nat, other: nat)
    requires
        one != other,
    ensures
        standing(without(history, one), other) == standing(history, other),
        handed_to(without(history, one), other) == handed_to(history, other),
        service_end(without(history, one)) == service_end(history),
        published(without(history, one)) == published(history),
    decreases history.len(),
{
    if history.len() > 0 {
        let before = history.drop_last();
        clients_do_not_disturb_each_other(before, one, other);
        if !history.last().befalls(one) {
            assert(without(history, one).drop_last() =~= without(before, one));
            assert(without(history, one).last() == history.last());
        }
    }
}

proof fn lemma_standing(history: Seq<Happening>, client: nat)
    ensures
        standing(history, client) matches Some(held) ==> {
            &&& held.joined <= held.next <= published(history).len()
            &&& held.end matches Some(delivery) ==> stream::written_for(delivery) is None
        },
    decreases history.len(),
{
    if history.len() > 0 {
        lemma_standing(history.drop_last(), client);
    }
}

proof fn lemma_unbroken(updates: Seq<Seq<char>>, end: Seq<DeliveryView>)
    requires
        end.len() > 0 ==> stream::written_for(end[0]) is None,
    ensures
        stream::client_stream(
            updates.map_values(|update: Seq<char>| DeliveryView::Update(update)) + end,
        ) == stream::frames(updates),
    decreases updates.len(),
{
    let whole = updates.map_values(|update: Seq<char>| DeliveryView::Update(update)) + end;
    if updates.len() > 0 {
        let rest = updates.drop_first();
        lemma_unbroken(rest, end);
        assert(whole.first() == DeliveryView::Update(updates.first()));
        assert(whole.drop_first() =~= rest.map_values(
            |update: Seq<char>| DeliveryView::Update(update),
        ) + end);
    } else {
        assert(whole =~= end);
    }
}

/// A client is handed an unbroken run of the updates, each as one line: it starts with the first
/// update after the client joined, and ends where the client stands. Nothing that was handed out
/// before it joined reaches it.
pub proof fn clients_are_handed_live_updates(history: Seq<Happening>, client: nat)
    ensures
        match standing(history, client) {
            Some(held) => {
                &&& held.joined <= held.next <= published(history).len()
                &&& handed_to(history, client) == stream::frames(
                    published(history).subrange(held.joined as int, held.next as int),
                )
            },
            None => handed_to(history, client) == Seq::<u8>::empty(),
        },
{
    lemma_standing(history, client);
    if let Some(held) = standing(history, client) {
        lemma_unbroken(
            published(history).subrange(held.joined as int, held.next as int),
            match held.end {
                Some(delivery) => seq![delivery],
                None => Seq::empty(),
            },
        );
    }
}

/// Whether this makes the service end.
pub open spec fn ends_service(happening: Happening) -> bool {
    happening is AcceptFailed || happening is Signalled || happening is SignalFailed
}

/// No client ends the service. It fails for want of clients only where accepting one failed, it
/// ends with success only where the user asked for it, and until one of these happens or signals
/// cannot be listened for, it goes on and takes in every new client, from the next update on.
pub proof fn only_accepting_and_signals_end_the_service(history: Seq<Happening>, client: nat)
    ensures
        service_end(history) is None <==> forall|i: int|
            0 <= i < history.len() ==> !ends_service(#[trigger] history[i]),
        service_end(history) matches Some(Ok(())) ==> exists|i: int|
            0 <= i < history.len() && #[trigger] history[i] is Signalled,
        service_end(history) matches Some(Err(failure)) ==> exists|i: int|
            0 <= i < history.len() && match #[trigger] history[i] {
                Happening::AcceptFailed(cause) => failure == FailureView::AcceptFailed(cause),
                Happening::SignalFailed(cause) => failure == FailureView::SignalFailed(cause),
                _ => false,
            },
        service_end(history) is None && standing(history, client) is None ==> standing(
            history.push(Happening::Joined(client)),
            client,
        ) == Some(
            Standing {
                joined: published(history).len(),
                next: published(history).len(),
                end: None,
            },
        ),
    decreases history.len(),
{
    assert(history.push(Happening::Joined(client)).drop_last() =~= history);
    if history.len() > 0 {
        let before = history.drop_last();
        let last = history.len() - 1;
        only_accepting_and_signals_end_the_service(before, client);
        assert forall|i: int| 0 <= i < last implies before[i] == history[i] by {}
        assert(history[last] == history.last());
        match service_end(before) {
            None => {
                assert(service_end(history) is None <==> !ends_service(history[last]));
                assert forall|i: int|
                    service_end(history) is None && 0 <= i < history.len() implies !ends_service(
                    #[trigger] history[i],
                ) by {
                    if i < last {
                        assert(!ends_service(before[i]));
                    }
                }
            },
            Some(Ok(())) => {
                let at = choose|i: int| 0 <= i < before.len() && #[trigger] before[i] is Signalled;
                assert(history[at] is Signalled);
            },
            Some(Err(failure)) => {
                let at = choose|i: int|
                    0 <= i < before.len() && match #[trigger] before[i] {
                        Happening::AcceptFailed(cause) => failure == FailureView::AcceptFailed(
                            cause,
                        ),
                        Happening::SignalFailed(cause) => failure == FailureView::SignalFailed(
                            cause,
                        ),
                        _ => false,
                    };
                assert(history[at] == before[at]);
                assert(ends_service(history[at]));
            },
        }
    }
}

/// The service takes in every client that is accepted and goes on when one is gone; it ends with
/// success when the user asks for it; and it fails where it can no longer accept or listen for the
/// user, with the cause as it is.
pub proof fn events_have_one_reaction(event: ServeEvent)
    ensures
        match event {
            ServeEvent::Accepted => reaction(event@) is Attend,
            ServeEvent::ClientEnded => reaction(event@) is GoOn,
            ServeEvent::Signalled => reaction(event@) is Finish,
            ServeEvent::AcceptFailed(cause) => reaction(event@) == ServeActionView::Fail(
                FailureView::AcceptFailed(cause@),
            ),
            ServeEvent::SignalFailed(cause) => reaction(event@) == ServeActionView::Fail(
                FailureView::SignalFailed(cause@),
            ),
        },
{
}

/// What the service does is seen as it is.
pub proof fn service_actions_are_seen_as_they_are(action: ServeAction)
    ensures
        match (action, action@) {
            (ServeAction::Attend, ServeActionView::Attend) => true,
            (ServeAction::GoOn, ServeActionView::GoOn) => true,
            (ServeAction::Finish, ServeActionView::Finish) => true,
            (ServeAction::Fail(failure), ServeActionView::Fail(seen)) => seen == failure@,
            _ => false,
        },
{
}

} // verus!
