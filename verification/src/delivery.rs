//! From one end to the other: a text that one process writes, as another reads it.
use crate::linger::{LingerEvent, LingerState};
use crate::oneshot::OneshotEnd;
use vstd::prelude::*;
use vstd::utf8::encode_utf8;

verus! {

/// A text that is written to the FIFO of a one-shot read is the answer of that read, with a
/// newline at its end if it had none.
pub proof fn a_one_shot_read_answers_with_the_text(message: Seq<char>, path: Seq<char>)
    ensures
        crate::oneshot::oneshot_reply(OneshotEnd::Message(encode_utf8(message)), path) == Ok::<
            Seq<char>,
            Seq<char>,
        >(crate::frame::framed_chars(message)),
{
    crate::frame::text_is_read_as_it_was_written(message);
}

/// A text that is written to the FIFO of a lingering reader is buffered behind those before
/// it, with a newline at its end if it had none; an empty one is passed over.
pub proof fn a_lingering_reader_buffers_the_text(reader: LingerState, message: Seq<char>)
    ensures
        reader.step(LingerEvent::Read(encode_utf8(message))).0.queue == if message.len() == 0 {
            reader.queue
        } else {
            reader.queue.push(crate::frame::framed_chars(message))
        },
{
    crate::frame::text_is_read_as_it_was_written(message);
    if message.len() > 0 {
        assert(encode_utf8(message) == vstd::utf8::encode_scalar(message[0] as u32) + encode_utf8(
            message.drop_first(),
        ));
        assert(vstd::utf8::encode_scalar(message[0] as u32).len() > 0);
    }
}

/// A text that goes through a relay is read as it would have been read without one.
pub proof fn a_relay_does_not_change_the_text(message: Seq<char>)
    ensures
        crate::frame::framed_chars(
            crate::frame::text_of(crate::frame::framed(encode_utf8(message))),
        ) == crate::frame::framed_chars(message),
{
    vstd::utf8::encode_utf8_valid_utf8(message);
    vstd::utf8::encode_utf8_decode_utf8(message);
    crate::frame::framing_bytes_and_text_agree(encode_utf8(message));
    crate::frame::text_is_read_as_it_was_written(crate::frame::framed_chars(message));
}

} // verus!
