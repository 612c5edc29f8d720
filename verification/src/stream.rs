//! The stream of updates that the daemon hands to its clients, one line for each update.
use crate::text;
use vstd::prelude::*;
use vstd::slice::slice_to_vec;
use vstd::utf8::*;

verus! {

/// The byte that ends a line.
pub const NEWLINE: u8 = 10;

/// The update in what TDLib handed out, where it handed out anything.
pub open spec fn update_in(raw: Option<Seq<u8>>) -> Option<Seq<char>> {
    match raw {
        Some(bytes) => Some(text::lossy_text(bytes)),
        None => None,
    }
}

/// The update in what TDLib handed out, where it handed out anything.
pub fn received_update(raw: Option<&[u8]>) -> (update: Option<String>)
    ensures
        match (raw, update) {
            (Some(bytes), Some(update)) => update@ == text::lossy_text(bytes@) && (valid_utf8(
                bytes@,
            ) ==> update@ == decode_utf8(bytes@)),
            (None, None) => true,
            _ => false,
        },
        match update {
            Some(update) => raw matches Some(bytes) && update_in(Some(bytes@)) == Some(update@),
            None => raw is None && update_in(None) is None,
        },
{
    match raw {
        Some(bytes) => Some(text::from_utf8_lossy(bytes)),
        None => None,
    }
}

/// The line that an update makes in the stream: the update as it is, then a newline.
pub open spec fn frame(update: Seq<char>) -> Seq<u8> {
    encode_utf8(update).push(NEWLINE)
}

/// The line that an update makes in the stream.
pub fn frame_update(update: &str) -> (line: Vec<u8>)
    ensures
        line@ == frame(update@),
{
    let mut line = slice_to_vec(update.as_bytes());
    line.push(NEWLINE);
    line
}

/// What the daemon has for a client, over texts `T`.
#[derive(Debug, PartialEq, Eq)]
pub enum DeliveryOf<T> {
    /// The next update.
    Update(T),
    /// The client was too slow: so many updates are lost to it.
    Lagged(u64),
    /// There will be no more updates.
    Closed,
    /// The last update could not be written to the client.
    Unwritable,
}

pub type Delivery = DeliveryOf<String>;

pub type DeliveryView = DeliveryOf<Seq<char>>;

impl View for Delivery {
    type V = DeliveryView;

    open spec fn view(&self) -> DeliveryView {
        match self {
            Delivery::Update(update) => DeliveryView::Update(update@),
            Delivery::Lagged(skipped) => DeliveryView::Lagged(*skipped),
            Delivery::Closed => DeliveryView::Closed,
            Delivery::Unwritable => DeliveryView::Unwritable,
        }
    }
}

/// What is done for a client.
#[derive(Debug, PartialEq, Eq)]
pub enum ClientAction {
    /// Write these bytes.
    Write(Vec<u8>),
    /// Disconnect the client.
    Disconnect,
}

/// What is written to a client, or nothing where the client is disconnected.
pub open spec fn written_for(delivery: DeliveryView) -> Option<Seq<u8>> {
    match delivery {
        DeliveryView::Update(update) => Some(frame(update)),
        DeliveryView::Lagged(_) | DeliveryView::Closed | DeliveryView::Unwritable => None,
    }
}

/// What to do with what the daemon has for a client.
pub fn serve_client(delivery: &Delivery) -> (action: ClientAction)
    ensures
        match action {
            ClientAction::Write(bytes) => written_for(delivery@) == Some(bytes@),
            ClientAction::Disconnect => written_for(delivery@) is None,
        },
{
    match delivery {
        Delivery::Update(update) => ClientAction::Write(frame_update(update.as_str())),
        Delivery::Lagged(_) | Delivery::Closed | Delivery::Unwritable => ClientAction::Disconnect,
    }
}

/// All that is handed to a client from `deliveries`: what is written up to its disconnection.
pub open spec fn client_stream(deliveries: Seq<DeliveryView>) -> Seq<u8>
    decreases deliveries.len(),
{
    if deliveries.len() == 0 {
        Seq::empty()
    } else {
        match written_for(deliveries.first()) {
            Some(bytes) => bytes + client_stream(deliveries.drop_first()),
            None => Seq::empty(),
        }
    }
}

/// The updates before the first delivery that is none.
pub open spec fn unbroken_updates(deliveries: Seq<DeliveryView>) -> Seq<Seq<char>>
    decreases deliveries.len(),
{
    if deliveries.len() == 0 {
        Seq::empty()
    } else {
        match deliveries.first() {
            DeliveryView::Update(update) => seq![update] + unbroken_updates(
                deliveries.drop_first(),
            ),
            _ => Seq::empty(),
        }
    }
}

/// The lines of all `updates`, one after the other.
pub open spec fn frames(updates: Seq<Seq<char>>) -> Seq<u8>
    decreases updates.len(),
{
    if updates.len() == 0 {
        Seq::empty()
    } else {
        frame(updates.first()) + frames(updates.drop_first())
    }
}

/// A client receives an unbroken run of updates from its first one on, each in full, and nothing
/// after a gap: a slow client is disconnected, and never sees a stream with holes.
pub proof fn clients_see_no_gaps(deliveries: Seq<DeliveryView>)
    ensures
        client_stream(deliveries) == frames(unbroken_updates(deliveries)),
        unbroken_updates(deliveries).len() <= deliveries.len(),
        forall|i: int|
            0 <= i < unbroken_updates(deliveries).len() ==> deliveries[i] == DeliveryView::Update(
                #[trigger] unbroken_updates(deliveries)[i],
            ),
        unbroken_updates(deliveries).len() < deliveries.len() ==> !(
        deliveries[unbroken_updates(deliveries).len() as int] is Update),
    decreases deliveries.len(),
{
    if deliveries.len() > 0 {
        let rest = deliveries.drop_first();
        clients_see_no_gaps(rest);
        if let DeliveryView::Update(update) = deliveries.first() {
            let run = unbroken_updates(deliveries);
            assert(run == seq![update] + unbroken_updates(rest));
            assert(run.drop_first() =~= unbroken_updates(rest));
            assert forall|i: int| 0 <= i < run.len() implies deliveries[i] == DeliveryView::Update(
                #[trigger] run[i],
            ) by {
                if i > 0 {
                    assert(run[i] == unbroken_updates(rest)[i - 1]);
                    assert(deliveries[i] == rest[i - 1]);
                }
            }
        }
    }
}

/// How far it is to the first newline, or to the end where there is none.
pub open spec fn line_length(bytes: Seq<u8>) -> nat
    decreases bytes.len(),
{
    if bytes.len() == 0 || bytes.first() == NEWLINE {
        0
    } else {
        1 + line_length(bytes.drop_first())
    }
}

/// The lines of a stream, as a reader sees them: what stands before each newline.
pub open spec fn lines(bytes: Seq<u8>) -> Seq<Seq<u8>>
    decreases bytes.len(),
{
    let length = line_length(bytes);
    if length >= bytes.len() {
        Seq::empty()
    } else {
        seq![bytes.take(length as int)] + lines(bytes.skip(length as int + 1))
    }
}

proof fn lemma_line_length(line: Seq<u8>, rest: Seq<u8>)
    requires
        !line.contains(NEWLINE),
    ensures
        line_length(line.push(NEWLINE) + rest) == line.len(),
    decreases line.len(),
{
    let bytes = line.push(NEWLINE) + rest;
    if line.len() > 0 {
        assert(line.contains(line[0]));
        assert(bytes.drop_first() =~= line.drop_first().push(NEWLINE) + rest);
        assert forall|b: u8| line.drop_first().contains(b) implies line.contains(b) by {
            let at = choose|at: int|
                0 <= at < line.drop_first().len() && line.drop_first()[at] == b;
            assert(line[at + 1] == b);
        }
        lemma_line_length(line.drop_first(), rest);
    }
}

/// Only a newline is encoded with the byte of a newline.
proof fn lemma_newline_bytes(chars: Seq<char>)
    requires
        !chars.contains('\n'),
    ensures
        !encode_utf8(chars).contains(NEWLINE),
    decreases chars.len(),
{
    if chars.len() > 0 {
        let first = encode_scalar(chars[0] as u32);
        let rest = encode_utf8(chars.drop_first());
        assert(chars.contains(chars[0]));
        assert forall|c: char| chars.drop_first().contains(c) implies chars.contains(c) by {
            let at = choose|at: int|
                0 <= at < chars.drop_first().len() && chars.drop_first()[at] == c;
            assert(chars[at + 1] == c);
        }
        lemma_newline_bytes(chars.drop_first());
        assert(!first.contains(NEWLINE)) by {
            lemma_newline_scalar(chars[0]);
        }
        assert forall|i: int| 0 <= i < encode_utf8(chars).len() implies #[trigger] encode_utf8(
            chars,
        )[i] != NEWLINE by {
            assert(encode_utf8(chars) == first + rest);
            if i < first.len() {
                assert(first.contains(first[i]));
            } else {
                assert(rest.contains(rest[i - first.len()]));
            }
        }
    }
}

proof fn lemma_newline_scalar(c: char)
    requires
        c != '\n',
    ensures
        !encode_scalar(c as u32).contains(NEWLINE),
{
    let scalar = c as u32;
    assert(scalar != 10);
    assert(has_width_1_encoding(scalar) && scalar != 10 ==> leading_byte_width_1(scalar) != 10)
        by (bit_vector);
    assert(leading_byte_width_2(scalar) != 10) by (bit_vector);
    assert(leading_byte_width_3(scalar) != 10) by (bit_vector);
    assert(leading_byte_width_4(scalar) != 10) by (bit_vector);
    assert(last_continuation_byte(scalar) != 10) by (bit_vector);
    assert(second_last_continuation_byte(scalar) != 10) by (bit_vector);
    assert(third_last_continuation_byte(scalar) != 10) by (bit_vector);
}

/// One line is one update: a reader who takes the stream apart at its newlines has the updates
/// again, in order, provided that none of them holds a newline itself.
pub proof fn one_line_is_one_update(updates: Seq<Seq<char>>)
    requires
        forall|i: int| 0 <= i < updates.len() ==> !(#[trigger] updates[i]).contains('\n'),
    ensures
        lines(frames(updates)).len() == updates.len(),
        forall|i: int|
            0 <= i < updates.len() ==> #[trigger] lines(frames(updates))[i] == encode_utf8(
                updates[i],
            ) && decode_utf8(lines(frames(updates))[i]) == updates[i],
    decreases updates.len(),
{
    if updates.len() > 0 {
        let line = encode_utf8(updates.first());
        let rest = updates.drop_first();
        let bytes = frames(updates);
        assert(!updates[0].contains('\n'));
        lemma_newline_bytes(updates.first());
        lemma_line_length(line, frames(rest));
        assert(bytes == line.push(NEWLINE) + frames(rest));
        assert(bytes.take(line.len() as int) =~= line);
        assert(bytes.skip(line.len() as int + 1) =~= frames(rest));
        assert forall|i: int| 0 <= i < rest.len() implies !(#[trigger] rest[i]).contains('\n') by {
            assert(rest[i] == updates[i + 1]);
        }
        one_line_is_one_update(rest);
        assert(lines(bytes) == seq![line] + lines(frames(rest)));
        assert forall|i: int| 0 <= i < updates.len() implies #[trigger] lines(bytes)[i]
            == encode_utf8(updates[i]) && decode_utf8(lines(bytes)[i]) == updates[i] by {
            encode_utf8_decode_utf8(updates[i]);
            if i > 0 {
                assert(lines(bytes)[i] == lines(frames(rest))[i - 1]);
                assert(updates[i] == rest[i - 1]);
            }
        }
    }
}

/// The stream is raw: what TDLib hands out as UTF-8 goes to the clients byte for byte.
pub proof fn updates_pass_unchanged(bytes: Seq<u8>)
    requires
        valid_utf8(bytes),
    ensures
        frame(decode_utf8(bytes)) == bytes.push(NEWLINE),
{
    decode_utf8_encode_utf8(bytes);
}

/// A newline is encoded as the byte of a newline.
proof fn lemma_newline_is_encoded(chars: Seq<char>)
    requires
        chars.contains('\n'),
    ensures
        encode_utf8(chars).contains(NEWLINE),
    decreases chars.len(),
{
    let at = choose|at: int| 0 <= at < chars.len() && chars[at] == '\n';
    let first = encode_scalar(chars[0] as u32);
    let rest = encode_utf8(chars.drop_first());
    assert(encode_utf8(chars) == first + rest);
    if at == 0 {
        let scalar = chars[0] as u32;
        assert(leading_byte_width_1(10u32) == 10) by (bit_vector);
        assert(first[0] == NEWLINE);
        assert(encode_utf8(chars)[0] == NEWLINE);
    } else {
        assert(chars.drop_first()[at - 1] == '\n');
        lemma_newline_is_encoded(chars.drop_first());
        let inner = choose|inner: int| 0 <= inner < rest.len() && rest[inner] == NEWLINE;
        assert(encode_utf8(chars)[first.len() + inner] == NEWLINE);
    }
}

/// What the daemon has for a client when TDLib hands out `payloads`, one after the other.
pub open spec fn live_deliveries(payloads: Seq<Seq<u8>>) -> Seq<DeliveryView> {
    payloads.map_values(|payload: Seq<u8>| DeliveryView::Update(decode_utf8(payload)))
}

/// A client that keeps up reads, line by line, the very bytes that TDLib handed out, provided
/// that these are UTF-8 and hold no newline.
pub proof fn clients_read_what_tdlib_sent(payloads: Seq<Seq<u8>>)
    requires
        forall|i: int|
            0 <= i < payloads.len() ==> valid_utf8(#[trigger] payloads[i]) && !payloads[i].contains(
                NEWLINE,
            ),
    ensures
        lines(client_stream(live_deliveries(payloads))) == payloads,
{
    let deliveries = live_deliveries(payloads);
    let updates = unbroken_updates(deliveries);
    clients_see_no_gaps(deliveries);
    assert(updates.len() == payloads.len());
    assert forall|i: int| 0 <= i < updates.len() implies !(#[trigger] updates[i]).contains('\n')
        && encode_utf8(updates[i]) == payloads[i] by {
        assert(deliveries[i] == DeliveryView::Update(updates[i]));
        assert(deliveries[i] == DeliveryView::Update(decode_utf8(payloads[i])));
        decode_utf8_encode_utf8(payloads[i]);
        if updates[i].contains('\n') {
            lemma_newline_is_encoded(updates[i]);
        }
    }
    one_line_is_one_update(updates);
    assert forall|i: int| 0 <= i < payloads.len() implies lines(frames(updates))[i]
        == payloads[i] by {
        assert(encode_utf8(updates[i]) == payloads[i]);
    }
    assert(lines(frames(updates)) =~= payloads);
}

/// The line of an update is the update, character for character, and a newline behind it; that of a
/// longer update is longer, and no two updates have the same line.
pub proof fn lines_are_updates_and_a_newline(update: Seq<char>, other: Seq<char>)
    ensures
        frame(update).len() == encode_utf8(update).len() + 1,
        frame(update).last() == 10,
        decode_utf8(frame(update).drop_last()) == update,
        frame(update) == frame(other) ==> update == other,
{
    assert(frame(update).drop_last() =~= encode_utf8(update));
    assert(frame(other).drop_last() =~= encode_utf8(other));
    encode_utf8_decode_utf8(update);
    encode_utf8_decode_utf8(other);
}

/// A client is written its update and nothing more, and is disconnected by everything else,
/// however many updates it missed.
pub proof fn clients_are_written_updates_alone(update: Seq<char>, skipped: u64)
    ensures
        written_for(DeliveryView::Update(update)) == Some(encode_utf8(update).push(10)),
        written_for(DeliveryView::Lagged(skipped)) is None,
        written_for(DeliveryView::Closed) is None,
        written_for(DeliveryView::Unwritable) is None,
{
}

/// A delivery is seen as it is.
pub proof fn deliveries_are_seen_as_they_are(delivery: Delivery)
    ensures
        match (delivery, delivery@) {
            (Delivery::Update(update), DeliveryView::Update(seen)) => seen == update@,
            (Delivery::Lagged(skipped), DeliveryView::Lagged(seen)) => seen == skipped,
            (Delivery::Closed, DeliveryView::Closed) => true,
            (Delivery::Unwritable, DeliveryView::Unwritable) => true,
            _ => false,
        },
{
}

/// Whatever TDLib hands out is an update, and nothing is none.
pub proof fn what_is_handed_out_is_an_update(bytes: Seq<u8>)
    ensures
        update_in(Some(bytes)) == Some(text::lossy_text(bytes)),
        update_in(None) is None,
{
}

} // verus!
